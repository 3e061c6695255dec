use selenium::base64::{base64_map, decode, encode, is_decodable};

#[test]
fn encode_known_values() {
    assert_eq!("", encode(b""));
    assert_eq!("Zg==", encode(b"f"));
    assert_eq!("Zm8=", encode(b"fo"));
    assert_eq!("Zm9v", encode(b"foo"));
    assert_eq!("Zm9vYg==", encode(b"foob"));
    assert_eq!("Zm9vYmE=", encode(b"fooba"));
    assert_eq!("Zm9vYmFy", encode(b"foobar"));
    assert_eq!("+/8=", encode(&[0xfb, 0xff]));
    assert_eq!("AAECAwQF", encode(&[0, 1, 2, 3, 4, 5]));
}

#[test]
fn decode_of_the_empty_text_is_empty() {
    assert_eq!(Vec::<u8>::new(), decode(b""));
    assert_eq!(Vec::<u8>::new(), decode(encode(b"").as_bytes()));
}

#[test]
fn decode_known_values() {
    assert_eq!(b"f".to_vec(), decode(b"Zg=="));
    assert_eq!(b"fo".to_vec(), decode(b"Zm8="));
    assert_eq!(b"foo".to_vec(), decode(b"Zm9v"));
    assert_eq!(b"foobar".to_vec(), decode(b"Zm9vYmFy"));
    assert_eq!(vec![0xfb, 0xff], decode(b"+/8="));
}

#[test]
fn decode_ignores_a_group_that_is_not_whole() {
    assert_eq!(Vec::<u8>::new(), decode(b"Zg"));
    assert_eq!(b"foo".to_vec(), decode(b"Zm9vYg"));
}

#[test]
fn decode_drops_a_byte_for_each_padding_sign() {
    assert_eq!(Vec::<u8>::new(), decode(b"A==="));
    assert_eq!(vec![0u8], decode(b"AA=="));
}

#[test]
fn decode_undoes_encode() {
    let mut input: Vec<u8> = Vec::new();
    assert_eq!(input, decode(encode(&input).as_bytes()));
    for n in 0..=255u8 {
        input.push(n.wrapping_mul(37).wrapping_add(11));
        let text = encode(&input);
        assert!(is_decodable(text.as_bytes()));
        assert_eq!(input, decode(text.as_bytes()));
    }
}

#[test]
fn what_decode_accepts() {
    assert!(is_decodable(b"Zm9v"));
    assert!(is_decodable(b"Zg=="));
    assert!(is_decodable(b""));
    assert!(!is_decodable(b"===="));
    assert!(!is_decodable(b"Zm 9v"));
    assert!(!is_decodable(b"Zm9v\n"));
    assert!(!is_decodable("Zm9\u{e9}".as_bytes()));
}

#[test]
fn the_table_of_symbols() {
    assert_eq!(Some(0), base64_map(b'A'));
    assert_eq!(Some(25), base64_map(b'Z'));
    assert_eq!(Some(26), base64_map(b'a'));
    assert_eq!(Some(51), base64_map(b'z'));
    assert_eq!(Some(52), base64_map(b'0'));
    assert_eq!(Some(61), base64_map(b'9'));
    assert_eq!(Some(62), base64_map(b'+'));
    assert_eq!(Some(63), base64_map(b'/'));
    assert_eq!(Some(64), base64_map(b'='));
    assert_eq!(None, base64_map(b'-'));
    assert_eq!(None, base64_map(b' '));
}
