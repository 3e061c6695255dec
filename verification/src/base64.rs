//! The base64 codec (standard alphabet, `=` padding).
use vstd::prelude::*;
use crate::text::push_char;

verus! {

/// The character that stands for a six-bit value in the standard alphabet.
pub open spec fn alphabet(v: u8) -> char {
    if v < 26 {
        (65u8 + v) as u8 as char
    } else if v < 52 {
        (97u8 + (v - 26)) as u8 as char
    } else if v < 62 {
        (48u8 + (v - 52)) as u8 as char
    } else if v == 62 {
        '+'
    } else {
        '/'
    }
}

/// The byte at `i`, or zero past the end of the input.
pub open spec fn byte_or_zero(input: Seq<u8>, i: int) -> u8 {
    if 0 <= i < input.len() {
        input[i]
    } else {
        0
    }
}

/// The six-bit value that position `slot` (0 to 3) of a group takes from the
/// group's three bytes.
pub open spec fn sextet_of(b1: u8, b2: u8, b3: u8, slot: int) -> u8 {
    if slot == 0 {
        b1 >> 2
    } else if slot == 1 {
        ((b1 & 0x03) << 4) | (b2 >> 4)
    } else if slot == 2 {
        ((b2 & 0x0f) << 2) | (b3 >> 6)
    } else {
        b3 & 0x3f
    }
}

/// The character at position `k` of the encoding of `input`.
pub open spec fn encoded_char(input: Seq<u8>, k: int) -> char {
    let group = k / 4;
    let slot = k % 4;
    let base = 3 * group;
    if slot >= 2 && base + slot - 1 >= input.len() {
        '='
    } else {
        alphabet(
            sextet_of(
                byte_or_zero(input, base),
                byte_or_zero(input, base + 1),
                byte_or_zero(input, base + 2),
                slot,
            ),
        )
    }
}

/// The length of the encoding of `n` bytes: four characters for every started
/// group of three bytes.
pub open spec fn encoded_len(n: nat) -> nat {
    (((n + 2) / 3) * 4) as nat
}

/// The base64 encoding of `input`.
pub open spec fn encoded(input: Seq<u8>) -> Seq<char> {
    Seq::new(encoded_len(input.len()), |k: int| encoded_char(input, k))
}

fn alphabet_char(v: u8) -> (c: char)
    requires
        v < 64,
    ensures
        c == alphabet(v),
{
    if v < 26 {
        (65u8 + v) as char
    } else if v < 52 {
        (97u8 + (v - 26)) as char
    } else if v < 62 {
        (48u8 + (v - 52)) as char
    } else if v == 62 {
        '+'
    } else {
        '/'
    }
}

proof fn sextets_are_small(b1: u8, b2: u8, b3: u8)
    ensures
        b1 >> 2 < 64,
        ((b1 & 0x03) << 4) | (b2 >> 4) < 64,
        ((b2 & 0x0f) << 2) | (b3 >> 6) < 64,
        b3 & 0x3f < 64,
{
    assert(b1 >> 2 < 64) by (bit_vector);
    assert(((b1 & 0x03) << 4) | (b2 >> 4) < 64) by (bit_vector);
    assert(((b2 & 0x0f) << 2) | (b3 >> 6) < 64) by (bit_vector);
    assert(b3 & 0x3f < 64) by (bit_vector);
}

/// Encodes `input` as base64 text.
pub fn encode(input: &[u8]) -> (result: String)
    ensures
        result@ == encoded(input@),
{
    let mut result = String::new();
    let len = input.len();
    let mut i: usize = 0;
    while i < len
        invariant
            len == input@.len(),
            i <= len,
            i % 3 == 0 || i == len,
            result@ == Seq::new(encoded_len(i as nat), |k: int| encoded_char(input@, k)),
        decreases len - i,
    {
        let byte1 = input[i];
        let byte2 = if len - i > 1 { input[i + 1] } else { 0 };
        let byte3 = if len - i > 2 { input[i + 2] } else { 0 };
        proof {
            sextets_are_small(byte1, byte2, byte3);
        }
        let ghost before = result@;
        let ghost group: int = i as int / 3;
        assert(before.len() == 4 * group);
        push_char(&mut result, alphabet_char(byte1 >> 2));
        push_char(&mut result, alphabet_char(((byte1 & 0x03) << 4) | (byte2 >> 4)));
        if len - i > 1 {
            push_char(&mut result, alphabet_char(((byte2 & 0x0f) << 2) | (byte3 >> 6)));
        } else {
            push_char(&mut result, '=');
        }
        if len - i > 2 {
            push_char(&mut result, alphabet_char(byte3 & 0x3f));
        } else {
            push_char(&mut result, '=');
        }
        let ghost old_i = i;
        if len - i > 2 {
            i += 3;
        } else {
            i = len;
        }
        proof {
            assert(encoded_len(i as nat) == 4 * group + 4);
            assert(byte1 == byte_or_zero(input@, 3 * group));
            assert(byte2 == byte_or_zero(input@, 3 * group + 1));
            assert(byte3 == byte_or_zero(input@, 3 * group + 2));
            assert(result@[4 * group] == encoded_char(input@, 4 * group));
            assert(result@[4 * group + 1] == encoded_char(input@, 4 * group + 1));
            assert(result@[4 * group + 2] == encoded_char(input@, 4 * group + 2));
            assert(result@[4 * group + 3] == encoded_char(input@, 4 * group + 3));
            assert(result@ =~= Seq::new(
                encoded_len(i as nat),
                |k: int| encoded_char(input@, k),
            ));
        }
    }
    result
}

/// The table value of a symbol: its place in the alphabet, and 64 for the
/// padding sign `=`.
pub open spec fn symbol_value(c: u8) -> u8 {
    if 65 <= c <= 90 {
        (c - 65) as u8
    } else if 97 <= c <= 122 {
        (c - 71) as u8
    } else if 48 <= c <= 57 {
        (c + 4) as u8
    } else if c == 43 {
        62
    } else if c == 47 {
        63
    } else {
        64
    }
}

/// Whether `c` is one of the 64 symbols of the alphabet or the padding sign.
pub open spec fn is_symbol(c: u8) -> bool {
    65 <= c <= 90 || 97 <= c <= 122 || 48 <= c <= 57 || c == 43 || c == 47 || c == 61
}

/// The number of padding signs at the end of `data`.
pub open spec fn padding(data: Seq<u8>) -> nat
    decreases data.len(),
{
    if data.len() > 0 && data.last() == 61 {
        1 + padding(data.drop_last())
    } else {
        0
    }
}

/// What `decode` accepts: text that holds only symbols and does not consist
/// of padding alone. The empty text is accepted.
pub open spec fn decodable(data: Seq<u8>) -> bool {
    &&& forall|i: int| 0 <= i < data.len() ==> is_symbol(#[trigger] data[i])
    &&& data.len() > 0 ==> padding(data) < data.len()
}

/// The table values of `data`, with the padding at its end counted as zero.
pub open spec fn cleared(data: Seq<u8>) -> Seq<u8> {
    Seq::new(
        data.len(),
        |i: int|
            if i >= data.len() - padding(data) {
                0u8
            } else {
                symbol_value(data[i])
            },
    )
}

/// The byte at position `k` of what the table values `v` decode to.
pub open spec fn decoded_byte(v: Seq<u8>, k: int) -> u8 {
    let base = 4 * (k / 3);
    let slot = k % 3;
    if slot == 0 {
        ((v[base] & 0x3f) << 2) | (v[base + 1] >> 4)
    } else if slot == 1 {
        ((v[base + 1] & 0x0f) << 4) | (v[base + 2] >> 2)
    } else {
        ((v[base + 2] & 0x03) << 6) | v[base + 3]
    }
}

/// The number of bytes that `data` decodes to: three for every whole group of
/// four symbols, less one for every padding sign at the end.
pub open spec fn decoded_len(data: Seq<u8>) -> nat {
    let full = 3 * (data.len() / 4);
    if padding(data) >= full {
        0
    } else {
        (full - padding(data)) as nat
    }
}

/// What base64 text `data` decodes to.
pub open spec fn decoded(data: Seq<u8>) -> Seq<u8> {
    Seq::new(decoded_len(data), |k: int| decoded_byte(cleared(data), k))
}

proof fn padding_splits(data: Seq<u8>, i: int)
    requires
        0 <= i <= data.len(),
        forall|k: int| i <= k < data.len() ==> data[k] == 61,
    ensures
        padding(data) == (data.len() - i) + padding(data.take(i)),
    decreases data.len() - i,
{
    if i == data.len() {
        assert(data.take(i) =~= data);
    } else {
        assert(data.last() == 61);
        assert(data.drop_last().take(i) =~= data.take(i));
        padding_splits(data.drop_last(), i);
    }
}

/// Looks a symbol up in the table: its place in the alphabet, 64 for the
/// padding sign, and nothing for any other byte.
pub fn base64_map(c: u8) -> (v: Option<u8>)
    ensures
        is_symbol(c) <==> v is Some,
        v is Some ==> v == Some(symbol_value(c)),
{
    if 65 <= c && c <= 90 {
        Some(c - 65)
    } else if 97 <= c && c <= 122 {
        Some(c - 71)
    } else if 48 <= c && c <= 57 {
        Some(c + 4)
    } else if c == 43 {
        Some(62)
    } else if c == 47 {
        Some(63)
    } else if c == 61 {
        Some(64)
    } else {
        None
    }
}

/// Whether `decode` accepts `data`.
pub fn is_decodable(data: &[u8]) -> (ok: bool)
    ensures
        ok == decodable(data@),
{
    let len = data.len();
    if len == 0 {
        return true;
    }
    let mut i: usize = 0;
    let mut plain_seen = false;
    while i < len
        invariant
            len == data@.len(),
            i <= len,
            forall|k: int| 0 <= k < i ==> is_symbol(#[trigger] data@[k]),
            plain_seen <==> exists|k: int| 0 <= k < i && data@[k] != 61,
        decreases len - i,
    {
        if base64_map(data[i]).is_none() {
            return false;
        }
        if data[i] != 61 {
            plain_seen = true;
        }
        i += 1;
    }
    proof {
        if plain_seen {
            let k = choose|k: int| 0 <= k < len && data@[k] != 61;
            padding_stops_at(data@, k);
        } else {
            padding_splits(data@, 0);
        }
    }
    plain_seen
}

proof fn padding_stops_at(data: Seq<u8>, k: int)
    requires
        0 <= k < data.len(),
        data[k] != 61,
    ensures
        padding(data) < data.len() - k,
    decreases data.len(),
{
    if data.last() == 61 {
        padding_stops_at(data.drop_last(), k);
    }
}

/// Decodes base64 text. The empty text decodes to no bytes.
pub fn decode(data: &[u8]) -> (result: Vec<u8>)
    requires
        decodable(data@),
    ensures
        result@ == decoded(data@),
{
    let lens = data.len();
    if lens == 0 {
        let result: Vec<u8> = Vec::new();
        assert(result@ =~= decoded(data@));
        return result;
    }
    let mut vals: Vec<u8> = Vec::new();
    let mut i: usize = 0;
    while i < lens
        invariant
            lens == data@.len(),
            i <= lens,
            decodable(data@),
            vals@.len() == i,
            forall|k: int| 0 <= k < i ==> vals@[k] == symbol_value(#[trigger] data@[k]),
        decreases lens - i,
    {
        let v = base64_map(data[i]);
        assert(is_symbol(data@[i as int]));
        vals.push(v.unwrap());
        i += 1;
    }
    let mut sub_count: usize = 0;
    let mut i: usize = lens - 1;
    proof {
        padding_splits(data@, lens as int);
    }
    while vals[i] == 64
        invariant
            lens == data@.len(),
            decodable(data@),
            vals@.len() == lens,
            i < lens,
            i + sub_count == lens - 1,
            forall|k: int| i < k < lens ==> data@[k] == 61,
            forall|k: int| 0 <= k <= i ==> vals@[k] == symbol_value(#[trigger] data@[k]),
            forall|k: int| i < k < lens ==> vals@[k] == 0,
        decreases i,
    {
        proof {
            assert(is_symbol(data@[i as int]));
            assert(data@[i as int] == 61);
            if i == 0 {
                padding_splits(data@, 0);
            }
        }
        vals.set(i, 0);
        sub_count += 1;
        i -= 1;
    }
    proof {
        assert(is_symbol(data@[i as int]));
        assert(data@[i as int] != 61);
        padding_splits(data@, i as int + 1);
        assert(data@.take(i as int + 1).last() == data@[i as int]);
        assert(padding(data@) == sub_count);
        assert(vals@ =~= cleared(data@));
    }
    let mut result: Vec<u8> = Vec::new();
    let groups = lens / 4;
    let mut index: usize = 0;
    while index < groups
        invariant
            groups == lens / 4,
            vals@.len() == lens,
            index <= groups,
            result@ == Seq::new(3 * index as nat, |k: int| decoded_byte(vals@, k)),
        decreases groups - index,
    {
        let base = index * 4;
        let a1 = ((vals[base] & 0x3f) << 2) | (vals[base + 1] >> 4);
        let a2 = ((vals[base + 1] & 0x0f) << 4) | (vals[base + 2] >> 2);
        let a3 = ((vals[base + 2] & 0x03) << 6) | vals[base + 3];
        result.push(a1);
        result.push(a2);
        result.push(a3);
        index += 1;
        proof {
            let g = index as int - 1;
            assert(result@[3 * g] == decoded_byte(vals@, 3 * g));
            assert(result@[3 * g + 1] == decoded_byte(vals@, 3 * g + 1));
            assert(result@[3 * g + 2] == decoded_byte(vals@, 3 * g + 2));
            assert(result@ =~= Seq::new(3 * index as nat, |k: int| decoded_byte(vals@, k)));
        }
    }
    let ghost full = result@;
    let mut dropped: usize = 0;
    while dropped < sub_count
        invariant
            dropped <= sub_count,
            full.len() == 3 * groups,
            result@.len() == if dropped >= full.len() { 0 } else { full.len() - dropped },
            result@ == full.take(result@.len() as int),
        decreases sub_count - dropped,
    {
        result.pop();
        dropped += 1;
    }
    assert(result@ =~= decoded(data@));
    result
}

/// The bytes of a text whose characters are all below 256.
pub open spec fn text_bytes(text: Seq<char>) -> Seq<u8> {
    Seq::new(text.len(), |i: int| text[i] as u8)
}

/// Every six-bit value has a symbol, which is not the padding sign and
/// stands for that value in the table.
pub proof fn symbols_stand_for_values(v: u8)
    requires
        v < 64,
    ensures
        is_symbol(alphabet(v) as u8),
        alphabet(v) as u8 != 61,
        symbol_value(alphabet(v) as u8) == v,
{
}

proof fn sextets_give_the_bytes_back(b1: u8, b2: u8, b3: u8)
    ensures
        (((b1 >> 2) & 0x3f) << 2) | ((((b1 & 0x03) << 4) | (b2 >> 4)) >> 4) == b1,
        (((((b1 & 0x03) << 4) | (b2 >> 4)) & 0x0f) << 4) | ((((b2 & 0x0f) << 2) | (b3 >> 6)) >> 2)
            == b2,
        (((((b2 & 0x0f) << 2) | (b3 >> 6)) & 0x03) << 6) | (b3 & 0x3f) == b3,
{
    assert((((b1 >> 2) & 0x3f) << 2) | ((((b1 & 0x03) << 4) | (b2 >> 4)) >> 4) == b1)
        by (bit_vector);
    assert((((((b1 & 0x03) << 4) | (b2 >> 4)) & 0x0f) << 4) | ((((b2 & 0x0f) << 2) | (b3 >> 6))
        >> 2) == b2) by (bit_vector);
    assert((((((b2 & 0x0f) << 2) | (b3 >> 6)) & 0x03) << 6) | (b3 & 0x3f) == b3) by (bit_vector);
}

/// The number of padding signs at the end of the encoding of `n` bytes.
pub open spec fn padding_of(n: nat) -> nat {
    if n % 3 == 1 {
        2
    } else if n % 3 == 2 {
        1
    } else {
        0
    }
}

proof fn encoding_is_padded(input: Seq<u8>)
    requires
        input.len() > 0,
    ensures
        padding(text_bytes(encoded(input))) == padding_of(input.len()),
        forall|i: int|
            0 <= i < encoded(input).len() ==> is_symbol(#[trigger] text_bytes(encoded(input))[i]),
        forall|i: int|
            0 <= i < encoded(input).len() - padding_of(input.len()) ==> symbol_value(
                #[trigger] text_bytes(encoded(input))[i],
            ) == sextet_of(
                byte_or_zero(input, 3 * (i / 4)),
                byte_or_zero(input, 3 * (i / 4) + 1),
                byte_or_zero(input, 3 * (i / 4) + 2),
                i % 4,
            ),
{
    let text = encoded(input);
    let data = text_bytes(text);
    let n = input.len() as int;
    let len = text.len() as int;
    let pad = padding_of(input.len()) as int;
    assert(len == 4 * ((n + 2) / 3));
    assert(len == n + pad + (n + pad) / 3);
    assert forall|i: int| 0 <= i < len implies is_symbol(#[trigger] data[i]) && (i >= len - pad
        ==> data[i] == 61) && (i < len - pad ==> data[i] != 61 && symbol_value(data[i])
        == sextet_of(
        byte_or_zero(input, 3 * (i / 4)),
        byte_or_zero(input, 3 * (i / 4) + 1),
        byte_or_zero(input, 3 * (i / 4) + 2),
        i % 4,
    )) by {
        let b1 = byte_or_zero(input, 3 * (i / 4));
        let b2 = byte_or_zero(input, 3 * (i / 4) + 1);
        let b3 = byte_or_zero(input, 3 * (i / 4) + 2);
        sextets_are_small(b1, b2, b3);
        let v = sextet_of(b1, b2, b3, i % 4);
        assert(v < 64);
        symbols_stand_for_values(v);
        assert(data[i] == text[i] as u8);
        assert(text[i] == encoded_char(input, i));
    }
    let stop = len - pad;
    assert(forall|k: int| stop <= k < len ==> data[k] == 61);
    padding_splits(data, stop);
    let head = data.take(stop);
    assert(head.len() == stop);
    assert(stop > 0);
    assert(head.last() == data[stop - 1]);
    assert(padding(head) == 0);
}

/// Decoding undoes encoding: the text that `encode` gives for any input is
/// text that `decode` accepts, and decodes to the input.
pub proof fn decode_undoes_encode(input: Seq<u8>)
    ensures
        decodable(text_bytes(encoded(input))),
        decoded(text_bytes(encoded(input))) == input,
{
    if input.len() == 0 {
        assert(text_bytes(encoded(input)).len() == 0);
        assert(decoded(text_bytes(encoded(input))) =~= input);
    } else {
        let text = encoded(input);
        let data = text_bytes(text);
        let n = input.len() as int;
        let len = text.len() as int;
        let pad = padding_of(input.len()) as int;
        encoding_is_padded(input);
        assert(len == 4 * ((n + 2) / 3));
        assert(len / 4 == (n + 2) / 3);
        assert(3 * (len / 4) - pad == n);
        assert(decoded_len(data) == n);
        let values = cleared(data);
        assert forall|k: int| 0 <= k < n implies decoded_byte(values, k) == input[k] by {
            let q = k / 3;
            let slot = k % 3;
            let base = 4 * q;
            let b1 = byte_or_zero(input, 3 * q);
            let b2 = byte_or_zero(input, 3 * q + 1);
            let b3 = byte_or_zero(input, 3 * q + 2);
            sextets_give_the_bytes_back(b1, b2, b3);
            assert(base + slot + 1 < len - pad);
            assert((base + slot) / 4 == q && (base + slot) % 4 == slot);
            assert((base + slot + 1) / 4 == q && (base + slot + 1) % 4 == slot + 1);
            assert(values[base + slot] == symbol_value(data[base + slot]));
            assert(values[base + slot + 1] == symbol_value(data[base + slot + 1]));
            assert(values[base + slot] == sextet_of(b1, b2, b3, slot));
            assert(values[base + slot + 1] == sextet_of(b1, b2, b3, slot + 1));
        }
        assert(decoded(data) =~= input);
    }
}

} // verus!
