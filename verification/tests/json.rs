use selenium::json::{add_item, add_member, text_array, text_object, Json};
use selenium::text::{append_part, read_u32, same_text, signed_to_text, unsigned_to_text};
use selenium::SError;

#[test]
fn render_is_compact() {
    assert_eq!("null", Json::Null.render());
    assert_eq!("true", Json::Bool(true).render());
    assert_eq!("false", Json::Bool(false).render());
    assert_eq!("-12", Json::integer(-12).render());
    assert_eq!("0", Json::integer(0).render());
    assert_eq!("\"a\"", Json::string("a").render());
    assert_eq!("[]", Json::array(Vec::new()).render());
    assert_eq!("{}", Json::object(Vec::new()).render());
    let mut items = Vec::new();
    add_item(&mut items, Json::integer(1));
    add_item(&mut items, Json::Null);
    add_item(&mut items, Json::string("x"));
    let mut members = Vec::new();
    add_member(&mut members, "a", Json::array(items));
    add_member(&mut members, "b", Json::Bool(true));
    assert_eq!(r#"{"a":[1,null,"x"],"b":true}"#, Json::object(members).render());
}

#[test]
fn strings_are_escaped() {
    assert_eq!(r#""a\"b""#, Json::string("a\"b").render());
    assert_eq!(r#""a\\b""#, Json::string("a\\b").render());
    assert_eq!(r#""\n\r\t""#, Json::string("\n\r\t").render());
    assert_eq!(r#""\u0001""#, Json::string("\u{1}").render());
    assert_eq!(r#""\u0000\u000b\u001f""#, Json::string("\u{0}\u{b}\u{1f}").render());
    assert_eq!(r#""\b\f""#, Json::string("\u{8}\u{c}").render());
    assert_eq!("\"\u{7f} /\"", Json::string("\u{7f} /").render());
    assert_eq!("\"测\"", Json::string("测").render());
    let mut members = Vec::new();
    add_member(&mut members, "k\"", Json::Null);
    assert_eq!(r#"{"k\"":null}"#, Json::object(members).render());
}

#[test]
fn parse_reads_every_kind_of_value() {
    assert!(matches!(Json::parse("null"), Ok(Json::Null)));
    assert!(matches!(Json::parse("true"), Ok(Json::Bool(true))));
    match Json::parse("\"a\\u0041\"") {
        Ok(Json::Text(t)) => assert_eq!("aA", t),
        other => panic!("{:?}", other),
    }
    match Json::parse("12") {
        Ok(Json::Number(n)) => assert_eq!("12", n),
        other => panic!("{:?}", other),
    }
    match Json::parse("-1.5") {
        Ok(Json::Number(n)) => assert_eq!("-1.5", n),
        other => panic!("{:?}", other),
    }
    match Json::parse(" [1, [2], {\"a\": null}] ") {
        Ok(j) => assert_eq!(r#"[1,[2],{"a":null}]"#, j.render()),
        other => panic!("{:?}", other),
    }
}

#[test]
fn parse_rejects_what_is_no_document() {
    assert!(matches!(Json::parse(""), Err(SError::Decode(_))));
    assert!(matches!(Json::parse("{"), Err(SError::Decode(_))));
    assert!(matches!(Json::parse("1 2"), Err(SError::Decode(_))));
    assert!(matches!(Json::parse("{'a':1}"), Err(SError::Decode(_))));
}

#[test]
fn wrapping_and_unwrapping_gives_the_value_back() {
    for text in ["null", "true", "17", "\"v\"", "[1,\"a\",[]]", r#"{"value":{"value":1}}"#] {
        let value = Json::parse(text).unwrap();
        let wrapped = Json::wrap_value(value);
        assert_eq!(format!("{{\"value\":{text}}}"), wrapped.render());
        assert_eq!(text, wrapped.unwrap_value().unwrap().render());
        let again = Json::parse(wrapped.render().as_str()).unwrap();
        assert_eq!(text, again.take("value").unwrap().render());
    }
}

#[test]
fn unwrapping_needs_the_member_value() {
    match Json::parse(r#"{"other":1}"#).unwrap().unwrap_value() {
        Err(SError::Decode(reason)) => assert_eq!("missing field `value`", reason),
        other => panic!("{:?}", other),
    }
    assert!(Json::Null.unwrap_value().is_err());
    assert!(Json::array(Vec::new()).unwrap_value().is_err());
}

#[test]
fn members_are_found_by_name() {
    let j = Json::parse(r#"{"a":1,"b":"x"}"#).unwrap();
    assert_eq!("1", j.get("a").unwrap().render());
    assert_eq!("\"x\"", j.get("b").unwrap().render());
    assert!(j.get("c").is_none());
    assert!(Json::Null.get("a").is_none());
    assert_eq!("\"x\"", j.take("b").unwrap().render());
    let mut members = Vec::new();
    add_member(&mut members, "a", Json::integer(1));
    add_member(&mut members, "a", Json::integer(2));
    assert_eq!("1", Json::object(members).get("a").unwrap().render());
}

#[test]
fn objects_and_arrays_of_texts() {
    assert_eq!(
        r#"{"a":"1","b":"2"}"#,
        text_object(&vec![
            ("a".to_string(), "1".to_string()),
            ("b".to_string(), "2".to_string())
        ])
        .render()
    );
    assert_eq!(r#"["x","y"]"#, text_array(&vec!["x".to_string(), "y".to_string()]).render());
}

#[test]
fn numerals() {
    assert_eq!("0", unsigned_to_text(0));
    assert_eq!("7", unsigned_to_text(7));
    assert_eq!("10", unsigned_to_text(10));
    assert_eq!("18446744073709551615", unsigned_to_text(u64::MAX));
    assert_eq!("-1", signed_to_text(-1));
    assert_eq!("-9223372036854775808", signed_to_text(i64::MIN));
    assert_eq!("9223372036854775807", signed_to_text(i64::MAX));
    assert_eq!(Some(0), read_u32("0"));
    assert_eq!(Some(7), read_u32("007"));
    assert_eq!(Some(u32::MAX), read_u32("4294967295"));
    assert_eq!(None, read_u32("4294967296"));
    assert_eq!(None, read_u32("99999999999999999999999999"));
    assert_eq!(None, read_u32(""));
    assert_eq!(None, read_u32("-1"));
    assert_eq!(None, read_u32("1.0"));
    assert_eq!(None, read_u32("1e3"));
}

#[test]
fn texts() {
    assert_eq!("ab", selenium::text::concat("a", "b"));
    assert!(same_text("a", "a"));
    assert!(!same_text("a", "A"));
    let mut row = String::from("[");
    append_part(&mut row, "a", ",", true);
    append_part(&mut row, "b", ",", false);
    assert_eq!("[a,b", row);
}

#[test]
fn errors_describe_themselves() {
    assert_eq!("driver:d", SError::Driver("d".to_string()).to_string());
    assert_eq!("message:m", SError::Message("m".to_string()).to_string());
    assert_eq!("http:status:404, reason:r", SError::Http(404, "r".to_string()).to_string());
    assert_eq!("http:status:-1, reason:r", SError::Http(-1, "r".to_string()).to_string());
    assert_eq!("decode:x", SError::Decode("x".to_string()).to_string());
    assert_eq!("browser:b", SError::Browser("b".to_string()).to_string());
}
