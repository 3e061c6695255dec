//! Small building blocks for assembling text: every request path and body of
//! the protocol client is put together from these.
use vstd::prelude::*;
use vstd::string::*;

verus! {

/// Appends one character to a string.
///
/// Trusted: stands for `String::push` of the standard library, which appends
/// the given character to the end of the string.
#[verifier::external_body]
pub(crate) fn push_char(s: &mut String, c: char)
    ensures
        final(s)@ == old(s)@.push(c),
{
    s.push(c)
}

/// Whether `needle` stands somewhere inside `hay`.
pub open spec fn occurs_in(hay: Seq<char>, needle: Seq<char>) -> bool {
    exists|i: int|
        0 <= i && i + needle.len() <= hay.len() && #[trigger] hay.subrange(
            i,
            i + needle.len(),
        ) == needle
}

/// Whether `needle` stands somewhere inside `hay`.
///
/// Trusted: stands for `str::contains` of the standard library with a string
/// pattern, which is documented to return true exactly when the pattern
/// matches a sub-slice of the string.
#[verifier::external_body]
pub(crate) fn contains(hay: &str, needle: &str) -> (found: bool)
    ensures
        found == occurs_in(hay@, needle@),
{
    hay.contains(needle)
}

/// Whether two texts hold the same characters.
pub fn same_text(a: &str, b: &str) -> (same: bool)
    ensures
        same == (a@ == b@),
{
    let x = String::from_str(a);
    let y = String::from_str(b);
    x == y
}

/// The concatenation of two texts.
pub fn concat(a: &str, b: &str) -> (r: String)
    ensures
        r@ == a@ + b@,
{
    let mut r = String::from_str(a);
    r.append(b);
    r
}

/// The texts of `parts` in a row, with `separator` between each two.
pub open spec fn joined(parts: Seq<Seq<char>>, separator: Seq<char>) -> Seq<char>
    decreases parts.len(),
{
    if parts.len() == 0 {
        Seq::empty()
    } else if parts.len() == 1 {
        parts[0]
    } else {
        joined(parts.drop_last(), separator) + separator + parts.last()
    }
}

/// A row with one more part is the row, the separator and the part; the
/// first part stands alone.
pub proof fn joined_push(parts: Seq<Seq<char>>, part: Seq<char>, separator: Seq<char>)
    ensures
        joined(parts.push(part), separator) == if parts.len() == 0 {
            part
        } else {
            joined(parts, separator) + separator + part
        },
{
    assert(parts.push(part).drop_last() =~= parts);
    assert(parts.push(part).last() == part);
}

/// Appends one more part to a row that is being written: the separator
/// first, unless the part is the first.
pub fn append_part(row: &mut String, part: &str, separator: &str, first: bool)
    ensures
        final(row)@ == if first {
            old(row)@ + part@
        } else {
            old(row)@ + separator@ + part@
        },
{
    if !first {
        row.append(separator);
    }
    row.append(part);
}

/// The character of a decimal digit.
pub open spec fn digit_char(d: nat) -> char {
    (48 + d) as u8 as char
}

/// The decimal numeral of `n`, without leading zeros.
pub open spec fn decimal(n: nat) -> Seq<char>
    decreases n,
{
    if n < 10 {
        seq![digit_char(n)]
    } else {
        decimal(n / 10).push(digit_char(n % 10))
    }
}

/// The decimal numeral of `n`, with a minus sign where it is negative.
pub open spec fn signed_decimal(n: int) -> Seq<char> {
    if n < 0 {
        seq!['-'] + decimal((-n) as nat)
    } else {
        decimal(n as nat)
    }
}

/// Writes `n` as a decimal numeral.
pub fn unsigned_to_text(n: u64) -> (r: String)
    ensures
        r@ == decimal(n as nat),
    decreases n,
{
    if n < 10 {
        let mut r = String::new();
        push_char(&mut r, (48u8 + (n as u8)) as char);
        assert(r@ =~= decimal(n as nat));
        r
    } else {
        let mut r = unsigned_to_text(n / 10);
        push_char(&mut r, (48u8 + ((n % 10) as u8)) as char);
        r
    }
}

/// Writes `n` as a decimal numeral, with a minus sign where it is negative.
pub fn signed_to_text(n: i64) -> (r: String)
    ensures
        r@ == signed_decimal(n as int),
{
    if n < 0 {
        let magnitude: u64 = if n == i64::MIN {
            9223372036854775808u64
        } else {
            (-n) as u64
        };
        let digits = unsigned_to_text(magnitude);
        let mut r = String::new();
        push_char(&mut r, '-');
        r.append(digits.as_str());
        assert(r@ =~= signed_decimal(n as int));
        r
    } else {
        unsigned_to_text(n as u64)
    }
}

/// Whether `text` is a decimal numeral: one or more digits and nothing else.
pub open spec fn is_numeral(text: Seq<char>) -> bool {
    &&& text.len() > 0
    &&& forall|i: int| 0 <= i < text.len() ==> '0' <= #[trigger] text[i] <= '9'
}

/// The number that a decimal numeral stands for.
pub open spec fn numeral_value(text: Seq<char>) -> nat
    decreases text.len(),
{
    if text.len() == 0 {
        0
    } else {
        numeral_value(text.drop_last()) * 10 + (text.last() as u8 - 48) as nat
    }
}

/// Reads a decimal numeral that fits 32 bits.
pub fn read_u32(text: &str) -> (r: Option<u32>)
    ensures
        r is Some <==> is_numeral(text@) && numeral_value(text@) <= u32::MAX,
        r is Some ==> r.unwrap() == numeral_value(text@),
{
    let n = text.unicode_len();
    if n == 0 {
        return None;
    }
    let mut value: u64 = 0;
    let mut i: usize = 0;
    while i < n
        invariant
            n == text@.len(),
            i <= n,
            value <= u32::MAX,
            is_numeral(text@.take(i as int)) || i == 0,
            value == numeral_value(text@.take(i as int)),
        decreases n - i,
    {
        let c = text.get_char(i);
        if !('0' <= c && c <= '9') {
            return None;
        }
        let d = (c as u8 - 48) as u64;
        proof {
            let next = text@.take(i as int + 1);
            assert(next.drop_last() =~= text@.take(i as int));
            assert(next.last() == c);
            assert(numeral_value(next) == value * 10 + d);
            assert forall|k: int| 0 <= k < next.len() implies '0' <= #[trigger] next[k] <= '9' by {
                if k < i {
                    assert(text@.take(i as int)[k] == next[k]);
                }
            }
        }
        value = value * 10 + d;
        if value > 4294967295u64 {
            proof {
                numeral_value_grows(text@, i as int + 1);
            }
            return None;
        }
        i += 1;
    }
    assert(text@.take(n as int) =~= text@);
    Some(value as u32)
}

proof fn numeral_value_grows(text: Seq<char>, i: int)
    requires
        0 <= i <= text.len(),
    ensures
        numeral_value(text.take(i)) <= numeral_value(text),
    decreases text.len() - i,
{
    if i < text.len() {
        assert(text.take(i + 1).drop_last() =~= text.take(i));
        numeral_value_grows(text, i + 1);
    } else {
        assert(text.take(i) =~= text);
    }
}

} // verus!
