use std::collections::HashMap;

use selenium::driver::{Driver, Facade};
use selenium::element::Element;
use selenium::http::{Http, Method};
use selenium::option::Browser;
use selenium::reply::{
    read_bool, read_optional_text, read_picture, read_text, req, req_without_res, Reply,
};
use selenium::By;

const BASE: &str = "http://127.0.0.1:4444/session/s1";
const PAGE: &str = "file:///work/tests/common/test.html";

/// A recorded exchange that stands for the endpoint: it checks each request
/// against the one that was recorded and gives the recorded answer.
struct Endpoint {
    script: Vec<(&'static str, String, String, Option<Reply>)>,
    next: usize,
}

impl Endpoint {
    fn new() -> Endpoint {
        Endpoint { script: Vec::new(), next: 0 }
    }

    fn get(mut self, tail: &str, value: &str) -> Endpoint {
        self.script.push(("GET", format!("{BASE}{tail}"), String::new(), Some(ok(value))));
        self
    }

    fn delete(mut self, tail: &str, value: &str) -> Endpoint {
        self.script.push(("DELETE", format!("{BASE}{tail}"), String::new(), Some(ok(value))));
        self
    }

    fn post(mut self, tail: &str, body: &str, value: &str) -> Endpoint {
        self.script.push(("POST", format!("{BASE}{tail}"), body.to_string(), Some(ok(value))));
        self
    }

    fn post_status(mut self, tail: &str, body: &str, status: u16, text: &str) -> Endpoint {
        self.script.push((
            "POST",
            format!("{BASE}{tail}"),
            body.to_string(),
            Some(Reply::Answered(status, text.to_string())),
        ));
        self
    }

    fn send(&mut self, method: Method) -> Reply {
        let (verb, uri, body) = match method {
            Method::Get(uri) => ("GET", uri, String::new()),
            Method::Post(uri, body) => ("POST", uri, body),
            Method::Delete(uri) => ("DELETE", uri, String::new()),
        };
        assert!(self.next < self.script.len(), "a request that was not recorded: {verb} {uri}");
        let step = &mut self.script[self.next];
        self.next += 1;
        assert_eq!((step.0, step.1.as_str(), step.2.as_str()), (verb, uri.as_str(), body.as_str()));
        step.3.take().unwrap()
    }

    fn done(&self) {
        assert_eq!(self.script.len(), self.next);
    }
}

fn ok(value: &str) -> Reply {
    Reply::Answered(200, format!("{{\"value\":{value}}}"))
}

fn new_driver(endpoint: &mut Endpoint) -> Driver {
    let session = Reply::Answered(
        200,
        r#"{"value":{"sessionId":"s1","capabilities":{"browserName":"firefox"}}}"#.to_string(),
    );
    let driver =
        Driver::connect(
            Http::new("http://127.0.0.1:4444", 1000),
            Browser::Firefox,
            Facade::Connecting { process: false },
            session,
        )
        .unwrap();
    req_without_res(endpoint.send(driver.get(PAGE))).unwrap();
    driver
}

fn page() -> Endpoint {
    Endpoint::new().post("/url", &format!("{{\"url\":\"{PAGE}\"}}"), "null")
}

fn find(endpoint: Endpoint, tail: &str, selector: &str, id: &str) -> Endpoint {
    endpoint.post(
        tail,
        &format!("{{\"using\":\"css selector\",\"value\":\"{selector}\"}}"),
        &format!("{{\"element-6066-11e4-a52e-4f735466cecf\":\"{id}\"}}"),
    )
}

fn element(endpoint: &mut Endpoint, driver: &Driver, by: By<'_>) -> Element {
    driver.found_element(endpoint.send(driver.find_element(by))).unwrap()
}

#[test]
fn get_attribute() {
    let mut endpoint = find(page(), "/element", "#checkbox", "e1")
        .get("/element/e1/attribute/value", r#""1""#)
        .get("/element/e1/attribute/href", "null")
        .get("/element/e1/attribute/href", "null");
    let driver = new_driver(&mut endpoint);
    let ele = element(&mut endpoint, &driver, By::Css("#checkbox"));

    assert_eq!(
        "1",
        read_optional_text(endpoint.send(ele.get_attribute("value"))).unwrap().unwrap()
    );

    assert_eq!(None, read_optional_text(endpoint.send(ele.get_attribute("href"))).unwrap());
    println!("[{:?}]", read_optional_text(endpoint.send(ele.get_attribute("href"))).unwrap());
    endpoint.done();
}

#[test]
fn get_property() {
    let mut endpoint = find(page(), "/element", "#checkbox", "e1")
        .get("/element/e1/property/value", r#""1""#)
        .get("/element/e1/property/ok", "null");
    let endpoint = find(endpoint, "/element", "#href", "e2")
        .get("/element/e2/property/href", r#""file:///work/tests/2329""#);
    let mut endpoint = find(endpoint, "/element", "#src", "e3")
        .get("/element/e3/property/src", r#""file:///work/tests/common/1.png""#);
    let driver = new_driver(&mut endpoint);
    let ele = element(&mut endpoint, &driver, By::Css("#checkbox"));

    assert_eq!(
        "1",
        read_optional_text(endpoint.send(ele.get_property("value"))).unwrap().unwrap()
    );
    assert_eq!(None, read_optional_text(endpoint.send(ele.get_property("ok"))).unwrap());

    let ele = element(&mut endpoint, &driver, By::Id("href"));
    assert_eq!(
        Some(format!("file://{}/tests/2329", "/work")),
        read_optional_text(endpoint.send(ele.get_property("href"))).unwrap()
    );

    let ele = element(&mut endpoint, &driver, By::Id("src"));
    assert_eq!(
        Some(format!("file://{}/tests/common/1.png", "/work")),
        read_optional_text(endpoint.send(ele.get_property("src"))).unwrap()
    );
    endpoint.done();
}

#[test]
fn get_css() {
    let mut endpoint =
        find(page(), "/element", "#label", "e1").get("/element/e1/css/color", r#""rgb(255, 0, 0)""#);
    let driver = new_driver(&mut endpoint);
    let ele = element(&mut endpoint, &driver, By::Css("#label"));

    match driver.browser() {
        selenium::option::Browser::Chrome => {
            assert_eq!(
                "rgba(255, 0, 0, 1)",
                read_text(endpoint.send(ele.get_css_value("color"))).unwrap()
            )
        }
        selenium::option::Browser::Edge => {
            assert_eq!(
                "rgba(255, 0, 0, 1)",
                read_text(endpoint.send(ele.get_css_value("color"))).unwrap()
            )
        }
        _ => {
            assert_eq!("rgb(255, 0, 0)", read_text(endpoint.send(ele.get_css_value("color"))).unwrap())
        }
    }
    endpoint.done();
}

#[test]
fn get_text() {
    let mut endpoint = find(page(), "/element", "#p", "e1").get("/element/e1/text", r#""测试文字""#);
    let driver = new_driver(&mut endpoint);
    let ele = element(&mut endpoint, &driver, By::Css("#p"));

    assert_eq!("测试文字", read_text(endpoint.send(ele.get_text())).unwrap());
    endpoint.done();
}

#[test]
fn get_tag_name() {
    let mut endpoint = find(page(), "/element", "#p", "e1").get("/element/e1/name", r#""p""#);
    let driver = new_driver(&mut endpoint);
    let ele = element(&mut endpoint, &driver, By::Css("#p"));
    match driver.browser() {
        selenium::option::Browser::Safari => {
            assert_eq!("P", read_text(endpoint.send(ele.get_tag_name())).unwrap());
        }
        _ => {
            assert_eq!("p", read_text(endpoint.send(ele.get_tag_name())).unwrap());
        }
    }
    endpoint.done();
}

#[test]
fn get_rect() {
    let mut endpoint = find(page(), "/element", "#rect", "e1")
        .get("/element/e1/rect", r#"{"x":29.0,"y":10.0,"width":48.0,"height":38.0}"#);
    let driver = new_driver(&mut endpoint);
    let ele = element(&mut endpoint, &driver, By::Css("#rect"));
    let payload = req(endpoint.send(ele.get_rect())).unwrap();
    let rect: HashMap<String, f32> = serde_json::from_str(payload.render().as_str()).unwrap();
    println!("{:?}", rect);
    assert_eq!(29.0, rect["x"]);
    assert_eq!(10.0, rect["y"]);
    assert_eq!(48.0, rect["width"]);
    assert_eq!(38.0, rect["height"]);
    endpoint.done();
}

#[test]
fn is_enabled() {
    let mut endpoint = find(page(), "/element", "#disabled", "e1").get("/element/e1/enabled", "false");
    let driver = new_driver(&mut endpoint);
    let ele = element(&mut endpoint, &driver, By::Css("#disabled"));

    assert!(!read_bool(endpoint.send(ele.is_enabled())).unwrap());
    endpoint.done();
}

#[test]
fn elements_click() {
    let mut endpoint = find(page(), "/element", "#click", "e1").post("/element/e1/click", "{}", "null");
    let driver = new_driver(&mut endpoint);
    let ele = element(&mut endpoint, &driver, By::Css("#click"));

    req_without_res(endpoint.send(ele.click())).unwrap();
    endpoint.done();
}

#[test]
fn clear() {
    let mut endpoint = find(page(), "/element", "#clear", "e1")
        .get("/element/e1/property/value", r#""测试clear""#)
        .post("/element/e1/clear", "{}", "null")
        .get("/element/e1/property/value", r#""""#);
    let driver = new_driver(&mut endpoint);
    let ele = element(&mut endpoint, &driver, By::Css("#clear"));

    assert_eq!(
        "测试clear",
        read_optional_text(endpoint.send(ele.get_property("value"))).unwrap().unwrap()
    );

    req_without_res(endpoint.send(ele.clear())).unwrap();

    assert_eq!("", read_optional_text(endpoint.send(ele.get_property("value"))).unwrap().unwrap());
    endpoint.done();
}

#[test]
fn send_keys() {
    let mut endpoint = find(page(), "/element", "#clear", "e1")
        .post("/element/e1/clear", "{}", "null")
        .post(
            "/element/e1/value",
            r#"{"text":"demo测试","value":["d","e","m","o","测","试"]}"#,
            "null",
        )
        .get("/element/e1/property/value", r#""demo测试""#);
    let driver = new_driver(&mut endpoint);
    let ele = element(&mut endpoint, &driver, By::Css("#clear"));
    req_without_res(endpoint.send(ele.clear())).unwrap();
    req_without_res(endpoint.send(ele.send_keys("demo测试"))).unwrap();

    assert_eq!(
        "demo测试",
        read_optional_text(endpoint.send(ele.get_property("value"))).unwrap().unwrap()
    );
    endpoint.done();
}

#[test]
fn take_screenshot() {
    let mut endpoint =
        find(page(), "/element", "#label", "e1").get("/element/e1/screenshot", r#""iVBORw0KGgo=""#);
    let driver = new_driver(&mut endpoint);
    let ele = element(&mut endpoint, &driver, By::Css("#label"));

    let picture = read_picture(endpoint.send(ele.take_screenshot())).unwrap();
    assert_eq!(b"\x89PNG\r\n\x1a\n".to_vec(), picture);
    endpoint.done();
}

#[test]
fn is_displayed() {
    let atom = "function(e){return e.offsetParent!==null}";
    let script = "return (function(e){return e.offsetParent!==null}).apply(null, arguments);";
    let body = |id: &str| {
        format!(
            "{{\"script\":\"{script}\",\"args\":[{{\"element-6066-11e4-a52e-4f735466cecf\":\"{id}\",\"ELEMENT\":\"{id}\"}}]}}"
        )
    };
    let endpoint = find(page(), "/element", "#clear", "e1").post("/execute/sync", &body("e1"), "true");
    let mut endpoint = find(endpoint, "/element", "#is_displayed_false", "e2").post(
        "/execute/sync",
        &body("e2"),
        "false",
    );
    let driver = new_driver(&mut endpoint);
    let ele = element(&mut endpoint, &driver, By::Css("#clear"));

    assert_eq!(true, read_bool(endpoint.send(ele.is_displayed(atom))).unwrap());
    let hidden = element(&mut endpoint, &driver, By::Css("#is_displayed_false"));
    assert_eq!(false, read_bool(endpoint.send(hidden.is_displayed(atom))).unwrap());
    endpoint.done();
}
