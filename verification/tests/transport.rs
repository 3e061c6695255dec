use selenium::actions::Origin;
use selenium::driver::{By, SwitchToFrame, TimeoutType};
use selenium::http::{framed, locator, Http, Method};
use selenium::reply::{
    as_entry, read_bool, read_optional_text, read_picture, read_reference, read_references,
    read_session, read_text, read_texts, read_timeouts, read_window, req, req_without_res, Reply,
};
use selenium::SError;

fn http() -> Http {
    Http::new("http://127.0.0.1:4444", 10)
}

fn get(m: Method) -> String {
    match m {
        Method::Get(uri) => uri,
        other => panic!("expected a GET, got {:?}", other),
    }
}

fn delete(m: Method) -> String {
    match m {
        Method::Delete(uri) => uri,
        other => panic!("expected a DELETE, got {:?}", other),
    }
}

fn post(m: Method) -> (String, String) {
    match m {
        Method::Post(uri, body) => (uri, body),
        other => panic!("expected a POST, got {:?}", other),
    }
}

fn pair(a: &str, b: &str) -> (String, String) {
    (a.to_string(), b.to_string())
}

fn ok(body: &str) -> Reply {
    Reply::Answered(200, body.to_string())
}

const BASE: &str = "http://127.0.0.1:4444/session/abc";

#[test]
fn session_requests() {
    let h = http();
    assert_eq!(BASE, delete(h.delete_session("abc")));
    assert_eq!(
        (format!("{BASE}/url"), r#"{"url":"https://example.org/"}"#.to_string()),
        post(h.navigate("abc", "https://example.org/"))
    );
    assert_eq!(format!("{BASE}/url"), get(h.get_current_url("abc")));
    assert_eq!((format!("{BASE}/back"), String::new()), post(h.back("abc")));
    assert_eq!((format!("{BASE}/forward"), String::new()), post(h.forward("abc")));
    assert_eq!((format!("{BASE}/refresh"), String::new()), post(h.refresh("abc")));
    assert_eq!(format!("{BASE}/title"), get(h.get_title("abc")));
    assert_eq!(format!("{BASE}/source"), get(h.get_page_source("abc")));
    assert_eq!(format!("{BASE}/screenshot"), get(h.take_screenshot("abc")));
}

#[test]
fn window_requests() {
    let h = http();
    assert_eq!(format!("{BASE}/window"), get(h.get_window_handle("abc")));
    assert_eq!(format!("{BASE}/window"), delete(h.close_window("abc")));
    assert_eq!(
        (format!("{BASE}/window"), r#"{"handle":"w1"}"#.to_string()),
        post(h.switch_to_window("abc", "w1"))
    );
    assert_eq!(format!("{BASE}/window/handles"), get(h.get_window_handles("abc")));
    assert_eq!(
        (format!("{BASE}/window/new"), r#"{"type":"tab"}"#.to_string()),
        post(h.new_window("abc", "tab"))
    );
    assert_eq!(format!("{BASE}/window/rect"), get(h.get_window_rect("abc")));
    assert_eq!(
        (format!("{BASE}/window/rect"), r#"{"width":800.0}"#.to_string()),
        post(h.set_window_rect("abc", r#"{"width":800.0}"#))
    );
    assert_eq!((format!("{BASE}/window/maximize"), String::new()), post(h.maximize_window("abc")));
    assert_eq!((format!("{BASE}/window/minimize"), String::new()), post(h.minimize_window("abc")));
    assert_eq!(
        (format!("{BASE}/window/fullscreen"), String::new()),
        post(h.fullscreen_window("abc"))
    );
}

#[test]
fn frame_requests() {
    let h = http();
    assert_eq!(
        (format!("{BASE}/frame"), r#"{"id":null}"#.to_string()),
        post(h.switch_to_frame("abc", SwitchToFrame::Null))
    );
    assert_eq!(
        (format!("{BASE}/frame"), r#"{"id":12}"#.to_string()),
        post(h.switch_to_frame("abc", SwitchToFrame::Number(12)))
    );
    assert_eq!(
        (format!("{BASE}/frame"), r#"{"id":"e7"}"#.to_string()),
        post(h.switch_to_frame("abc", SwitchToFrame::Element("e7".to_string())))
    );
    assert_eq!(
        (format!("{BASE}/frame/parent"), "{}".to_string()),
        post(h.switch_to_parent_frame("abc"))
    );
}

#[test]
fn locators_on_the_wire() {
    assert_eq!(r##"{"using":"css selector","value":"#a > b"}"##, locator(&By::Css("#a > b")).render());
    assert_eq!(r#"{"using":"link text","value":"more"}"#, locator(&By::LinkText("more")).render());
    assert_eq!(
        r#"{"using":"partial link text","value":"mo"}"#,
        locator(&By::ParitialLinkText("mo")).render()
    );
    assert_eq!(r#"{"using":"tag name","value":"div"}"#, locator(&By::TagName("div")).render());
    assert_eq!(r#"{"using":"xpath","value":"//a[@b=\"c\"]"}"#, locator(&By::XPath("//a[@b=\"c\"]")).render());
    assert_eq!(r#"{"using":"css selector","value":".not_exist"}"#, locator(&By::Class("not_exist")).render());
    assert_eq!(r##"{"using":"css selector","value":"#click"}"##, locator(&By::Id("click")).render());
}

#[test]
fn find_requests() {
    let h = http();
    let css = r##"{"using":"css selector","value":"#click"}"##.to_string();
    assert_eq!((format!("{BASE}/element"), css.clone()), post(h.find_element("abc", By::Css("#click"))));
    assert_eq!((format!("{BASE}/elements"), css.clone()), post(h.find_elements("abc", By::Id("click"))));
    assert_eq!(
        (format!("{BASE}/element/e1/element"), css.clone()),
        post(h.find_element_from_element("abc", "e1", By::Css("#click")))
    );
    assert_eq!(
        (format!("{BASE}/element/e1/elements"), css.clone()),
        post(h.find_elements_from_element("abc", "e1", By::Css("#click")))
    );
    assert_eq!(
        (format!("{BASE}/shadow/s1/element"), css.clone()),
        post(h.find_element_from_shadow_root("abc", "s1", By::Css("#click")))
    );
    assert_eq!(
        (format!("{BASE}/shadow/s1/elements"), css),
        post(h.find_elements_from_shadow_root("abc", "s1", By::Css("#click")))
    );
    assert_eq!(format!("{BASE}/element/active"), get(h.get_active_element("abc")));
    assert_eq!(format!("{BASE}/element/e1/shadow"), get(h.get_element_shadow_root("abc", "e1")));
}

#[test]
fn element_requests() {
    let h = http();
    let e = format!("{BASE}/element/e1");
    assert_eq!(format!("{e}/selected"), get(h.is_element_selected("abc", "e1")));
    assert_eq!(format!("{e}/attribute/href"), get(h.get_element_attribute("abc", "e1", "href")));
    assert_eq!(format!("{e}/property/value"), get(h.get_element_property("abc", "e1", "value")));
    assert_eq!(format!("{e}/css/color"), get(h.get_element_css_value("abc", "e1", "color")));
    assert_eq!(format!("{e}/text"), get(h.get_element_text("abc", "e1")));
    assert_eq!(format!("{e}/name"), get(h.get_element_tag_name("abc", "e1")));
    assert_eq!(format!("{e}/rect"), get(h.get_element_rect("abc", "e1")));
    assert_eq!(format!("{e}/enabled"), get(h.is_element_enabled("abc", "e1")));
    assert_eq!(format!("{e}/screenshot"), get(h.take_element_screenshot("abc", "e1")));
    assert_eq!((format!("{e}/click"), "{}".to_string()), post(h.element_click("abc", "e1")));
    assert_eq!((format!("{e}/clear"), "{}".to_string()), post(h.element_clear("abc", "e1")));
}

#[test]
fn send_keys_body_lists_the_characters() {
    let h = http();
    assert_eq!(
        (
            format!("{BASE}/element/e1/value"),
            r#"{"text":"demo测试","value":["d","e","m","o","测","试"]}"#.to_string()
        ),
        post(h.element_send_keys("abc", "e1", "demo测试"))
    );
    assert_eq!(
        (format!("{BASE}/element/e1/value"), r#"{"text":"","value":[]}"#.to_string()),
        post(h.element_send_keys("abc", "e1", ""))
    );
    assert_eq!(
        (format!("{BASE}/element/e1/value"), r#"{"text":"a","value":["a"]}"#.to_string()),
        post(h.element_send_keys("abc", "e1", "a"))
    );
}

#[test]
fn script_requests() {
    let h = http();
    assert_eq!(
        (format!("{BASE}/execute/sync"), r#"{"script":"return 1;","args":[]}"#.to_string()),
        post(h.execute_script("abc", "return 1;", &[]))
    );
    assert_eq!(
        (
            format!("{BASE}/execute/async"),
            r#"{"script":"f(\"x\")","args":["a","b\n"]}"#.to_string()
        ),
        post(h.execute_async_script("abc", "f(\"x\")", &["a", "b\n"]))
    );
    assert_eq!(
        (
            format!("{BASE}/execute/sync"),
            r#"{"script":"return (function(e){return true}).apply(null, arguments);","args":[{"k":"i","ELEMENT":"i"}]}"#
                .to_string()
        ),
        post(h.is_element_displayed(
            "abc",
            Origin::Element("k".to_string(), "i".to_string()),
            "function(e){return true}"
        ))
    );
}

#[test]
fn timeout_requests() {
    let h = http();
    assert_eq!(
        (format!("{BASE}/timeouts"), r#"{"script":2209}"#.to_string()),
        post(h.set_timeouts("abc", TimeoutType::Script(2209)))
    );
    assert_eq!(
        (format!("{BASE}/timeouts"), r#"{"pageLoad":2900}"#.to_string()),
        post(h.set_timeouts("abc", TimeoutType::PageLoad(2900)))
    );
    assert_eq!(
        (format!("{BASE}/timeouts"), r#"{"implicit":0}"#.to_string()),
        post(h.set_timeouts("abc", TimeoutType::Implicit(0)))
    );
    assert_eq!(
        (format!("{BASE}/timeouts"), r#"{"implicit":4294967295}"#.to_string()),
        post(h.set_timeouts("abc", TimeoutType::Implicit(u32::MAX)))
    );
    assert_eq!(format!("{BASE}/timeouts"), get(h.get_timouts("abc")));
}

#[test]
fn alert_requests() {
    let h = http();
    assert_eq!((format!("{BASE}/alert/dismiss"), "{}".to_string()), post(h.dismiss_alert("abc")));
    assert_eq!((format!("{BASE}/alert/accept"), "{}".to_string()), post(h.accept_alert("abc")));
    assert_eq!(format!("{BASE}/alert/text"), get(h.get_alert_text("abc")));
    assert_eq!(
        (format!("{BASE}/alert/text"), r#"{"text":"text"}"#.to_string()),
        post(h.send_alert_text("abc", "text"))
    );
}

#[test]
fn addresses() {
    let h = http();
    assert_eq!("http://127.0.0.1:4444/session/s/x", h.session_uri("s", "/x"));
    assert_eq!("http://127.0.0.1:4444/session/s/element/e/x", h.element_uri("s", "e", "/x"));
    assert_eq!("http://127.0.0.1:4444/session/s/shadow/r/x", h.shadow_uri("s", "r", "/x"));
    assert_eq!("<a>", framed("<", "a", ">"));
    let d = h.duplicate();
    assert_eq!(h.url, d.url);
    assert_eq!(h.timeout, d.timeout);
}

#[test]
fn a_status_other_than_200_is_a_transport_error() {
    match read_text(Reply::Answered(404, "no such element".to_string())) {
        Err(SError::Http(404, body)) => assert_eq!("no such element", body),
        other => panic!("{:?}", other),
    }
    match req_without_res(Reply::Answered(500, "boom".to_string())) {
        Err(SError::Http(500, body)) => assert_eq!("boom", body),
        other => panic!("{:?}", other),
    }
    match req(Reply::Answered(204, String::new())) {
        Err(SError::Http(204, body)) => assert_eq!("", body),
        other => panic!("{:?}", other),
    }
    assert!(req_without_res(Reply::Answered(200, "anything".to_string())).is_ok());
}

#[test]
fn no_answer_is_a_transport_error_without_status() {
    match read_text(Reply::Failed("connection refused".to_string())) {
        Err(SError::Http(-1, reason)) => assert_eq!("connection refused", reason),
        other => panic!("{:?}", other),
    }
    match req_without_res(Reply::Failed("timed out".to_string())) {
        Err(SError::Http(-1, reason)) => assert_eq!("timed out", reason),
        other => panic!("{:?}", other),
    }
}

#[test]
fn the_kinds_of_failure_are_told_apart() {
    let transport = [
        read_text(Reply::Failed("refused".to_string())),
        read_text(Reply::Answered(500, "{}".to_string())),
        read_text(Reply::Answered(404, "<html>".to_string())),
    ];
    for r in transport {
        assert!(matches!(r, Err(SError::Http(_, _))));
    }
    let decode = [read_text(ok("<html>")), read_text(ok("{}")), read_text(ok(r#"{"value":1}"#))];
    for r in decode {
        assert!(matches!(r, Err(SError::Decode(_))));
    }
    assert!(matches!(read_reference(ok(r#"{"value":{}}"#), "none"), Err(SError::Browser(_))));
}

#[test]
fn a_body_that_is_no_json_is_a_decode_error() {
    assert!(matches!(read_text(ok("<html>")), Err(SError::Decode(_))));
    assert!(matches!(read_text(ok("")), Err(SError::Decode(_))));
    assert!(matches!(read_text(ok(r#"{"value":"a""#)), Err(SError::Decode(_))));
}

#[test]
fn a_document_without_envelope_is_a_decode_error() {
    match read_text(ok(r#"{"valu":"a"}"#)) {
        Err(SError::Decode(reason)) => assert_eq!("missing field `value`", reason),
        other => panic!("{:?}", other),
    }
    assert!(matches!(read_text(ok(r#"["a"]"#)), Err(SError::Decode(_))));
    assert!(matches!(read_text(ok(r#""a""#)), Err(SError::Decode(_))));
}

#[test]
fn a_payload_of_another_shape_is_a_decode_error() {
    assert!(matches!(read_text(ok(r#"{"value":1}"#)), Err(SError::Decode(_))));
    assert!(matches!(read_bool(ok(r#"{"value":"true"}"#)), Err(SError::Decode(_))));
    assert!(matches!(read_texts(ok(r#"{"value":["a",1]}"#)), Err(SError::Decode(_))));
    assert!(matches!(read_texts(ok(r#"{"value":"a"}"#)), Err(SError::Decode(_))));
    assert!(matches!(read_optional_text(ok(r#"{"value":false}"#)), Err(SError::Decode(_))));
    assert!(matches!(read_reference(ok(r#"{"value":{"k":1}}"#), "x"), Err(SError::Decode(_))));
    assert!(matches!(read_reference(ok(r#"{"value":[]}"#), "x"), Err(SError::Decode(_))));
    assert!(matches!(read_references(ok(r#"{"value":{}}"#)), Err(SError::Decode(_))));
    assert!(matches!(read_references(ok(r#"{"value":[{"k":"a"},3]}"#)), Err(SError::Decode(_))));
    assert!(matches!(read_timeouts(ok(r#"{"value":{"script":-1}}"#)), Err(SError::Decode(_))));
    assert!(matches!(read_timeouts(ok(r#"{"value":{"script":1.5}}"#)), Err(SError::Decode(_))));
    assert!(matches!(
        read_timeouts(ok(r#"{"value":{"script":4294967296}}"#)),
        Err(SError::Decode(_))
    ));
    assert!(matches!(read_session(ok(r#"{"value":{"sessionId":7}}"#)), Err(SError::Decode(_))));
    assert!(matches!(read_session(ok(r#"{"value":{}}"#)), Err(SError::Decode(_))));
    assert!(matches!(read_window(ok(r#"{"value":{"handle":"h"}}"#)), Err(SError::Decode(_))));
    assert!(matches!(read_picture(ok(r#"{"value":"%%%%"}"#)), Err(SError::Decode(_))));
    assert!(matches!(read_picture(ok(r#"{"value":"===="}"#)), Err(SError::Decode(_))));
}

#[test]
fn envelopes_are_unwrapped() {
    assert_eq!("title", read_text(ok(r#"{"value":"title"}"#)).unwrap());
    assert_eq!("a\"b\n", read_text(ok(r#"{"value":"a\"b\n"}"#)).unwrap());
    assert_eq!("测试文字", read_text(ok(r#"{"value":"测试文字"}"#)).unwrap());
    assert!(read_bool(ok(r#"{"value":true}"#)).unwrap());
    assert!(!read_bool(ok(r#"{ "value" : false }"#)).unwrap());
    assert_eq!(None, read_optional_text(ok(r#"{"value":null}"#)).unwrap());
    assert_eq!(Some("v".to_string()), read_optional_text(ok(r#"{"value":"v"}"#)).unwrap());
    assert_eq!(
        vec!["w1".to_string(), "w2".to_string()],
        read_texts(ok(r#"{"value":["w1","w2"]}"#)).unwrap()
    );
    assert_eq!(Vec::<String>::new(), read_texts(ok(r#"{"value":[]}"#)).unwrap());
    assert_eq!(
        r#"{"a":[1,2.5,null]}"#,
        req(ok(r#"{"value":{"a":[1,2.5,null]}}"#)).unwrap().render()
    );
}

#[test]
fn find_of_one_element() {
    assert_eq!(
        pair("element-6066-11e4-a52e-4f735466cecf", "abc123"),
        read_reference(
            ok(r#"{"value":{"element-6066-11e4-a52e-4f735466cecf":"abc123"}}"#),
            "element not found"
        )
        .unwrap()
    );
    match read_reference(ok(r#"{"value":{}}"#), "element not found") {
        Err(SError::Browser(reason)) => assert_eq!("element not found", reason),
        other => panic!("{:?}", other),
    }
}

#[test]
fn find_of_several_elements_leaves_empty_entries_out() {
    assert_eq!(
        vec![pair("k", "1"), pair("k", "2"), pair("k", "3")],
        read_references(ok(r#"{"value":[{"k":"1"},{},{"k":"2"},{},{},{"k":"3"}]}"#)).unwrap()
    );
    assert_eq!(
        Vec::<(String, String)>::new(),
        read_references(ok(r#"{"value":[{},{}]}"#)).unwrap()
    );
    assert_eq!(Vec::<(String, String)>::new(), read_references(ok(r#"{"value":[]}"#)).unwrap());
}

#[test]
fn an_entry_is_read_by_its_first_member() {
    let doc = req(ok(r#"{"value":{"a":"1","b":"2"}}"#)).unwrap();
    assert_eq!(Some(pair("a", "1")), as_entry(&doc).unwrap());
}

#[test]
fn timeouts_are_told_apart_by_their_names() {
    let t = read_timeouts(ok(r#"{"value":{"implicit":0,"pageLoad":2900,"script":2209}}"#)).unwrap();
    assert_eq!(3, t.len());
    assert!(t.contains(&TimeoutType::Implicit(0)));
    assert!(t.contains(&TimeoutType::PageLoad(2900)));
    assert!(t.contains(&TimeoutType::Script(2209)));
    let t = read_timeouts(ok(r#"{"value":{"other":4294967295}}"#)).unwrap();
    assert_eq!(vec![TimeoutType::Implicit(u32::MAX)], t);
}

#[test]
fn session_and_window_are_read_from_their_members() {
    let s = read_session(ok(r#"{"value":{"sessionId":"s-1","capabilities":{"browserName":"firefox"}}}"#))
        .unwrap();
    assert_eq!("s-1", s.session_id);
    assert_eq!("h9", read_window(ok(r#"{"value":{"handle":"h9","type":"tab"}}"#)).unwrap());
}

#[test]
fn a_picture_is_decoded_from_base64() {
    assert_eq!(b"foobar".to_vec(), read_picture(ok(r#"{"value":"Zm9vYmFy"}"#)).unwrap());
    assert_eq!(b"fo".to_vec(), read_picture(ok(r#"{"value":"Zm8="}"#)).unwrap());
    assert_eq!(Vec::<u8>::new(), read_picture(ok(r#"{"value":""}"#)).unwrap());
}

fn reason<T>(r: Result<T, SError>) -> String {
    match r {
        Err(SError::Decode(reason)) => reason,
        Err(other) => panic!("{:?}", other),
        Ok(_) => panic!("the payload was read"),
    }
}

#[test]
fn decode_errors_say_what_was_expected() {
    assert_eq!("expected a string", reason(read_text(ok(r#"{"value":1}"#))));
    assert_eq!("expected a boolean", reason(read_bool(ok(r#"{"value":1}"#))));
    assert_eq!("expected a string or null", reason(read_optional_text(ok(r#"{"value":1}"#))));
    assert_eq!("expected an array of strings", reason(read_texts(ok(r#"{"value":[1]}"#))));
    assert_eq!("expected an array of strings", reason(read_texts(ok(r#"{"value":1}"#))));
    assert_eq!("expected an object of strings", reason(read_reference(ok(r#"{"value":1}"#), "x")));
    assert_eq!(
        "expected an object of strings",
        reason(read_reference(ok(r#"{"value":{"a":"1","b":2}}"#), "x"))
    );
    assert_eq!(
        "expected an array of objects of strings",
        reason(read_references(ok(r#"{"value":[{"a":1}]}"#)))
    );
    assert_eq!("expected an object of numbers", reason(read_timeouts(ok(r#"{"value":[]}"#))));
    assert_eq!("expected a member that is a string", reason(read_session(ok(r#"{"value":{}}"#))));
    assert_eq!(
        "expected a member that is a string",
        reason(read_window(ok(r#"{"value":{"type":"tab"}}"#)))
    );
    assert_eq!("expected base64", reason(read_picture(ok(r#"{"value":7}"#))));
    assert_eq!("missing field `value`", reason(read_bool(ok(r#"{}"#))));
    assert_eq!("missing field `value`", reason(req(ok(r#"[]"#))));
}
