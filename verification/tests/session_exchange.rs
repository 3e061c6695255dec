use std::collections::HashMap;

use selenium::driver::{Driver, Facade, NewWindowType};
use selenium::http::{Http, Method};
use selenium::json::Json;
use selenium::option::Browser;
use selenium::reply::{
    read_optional_text, read_picture, read_text, read_texts, read_timeouts, read_window, req,
    req_without_res, Reply,
};

const BASE: &str = "http://127.0.0.1:4444/session/s1";
const PAGE: &str = "file:///work/tests/common/test.html";

/// A recorded exchange that stands for the endpoint: it checks each request
/// against the one that was recorded and gives the recorded answer.
struct Endpoint {
    script: Vec<(&'static str, String, String, Option<Reply>)>,
    next: usize,
}

impl Endpoint {
    fn new() -> Endpoint {
        Endpoint { script: Vec::new(), next: 0 }
    }

    fn get(mut self, tail: &str, value: &str) -> Endpoint {
        self.script.push(("GET", format!("{BASE}{tail}"), String::new(), Some(ok(value))));
        self
    }

    fn delete(mut self, tail: &str, value: &str) -> Endpoint {
        self.script.push(("DELETE", format!("{BASE}{tail}"), String::new(), Some(ok(value))));
        self
    }

    fn post(mut self, tail: &str, body: &str, value: &str) -> Endpoint {
        self.script.push(("POST", format!("{BASE}{tail}"), body.to_string(), Some(ok(value))));
        self
    }

    fn post_status(mut self, tail: &str, body: &str, status: u16, text: &str) -> Endpoint {
        self.script.push((
            "POST",
            format!("{BASE}{tail}"),
            body.to_string(),
            Some(Reply::Answered(status, text.to_string())),
        ));
        self
    }

    fn send(&mut self, method: Method) -> Reply {
        let (verb, uri, body) = match method {
            Method::Get(uri) => ("GET", uri, String::new()),
            Method::Post(uri, body) => ("POST", uri, body),
            Method::Delete(uri) => ("DELETE", uri, String::new()),
        };
        assert!(self.next < self.script.len(), "a request that was not recorded: {verb} {uri}");
        let step = &mut self.script[self.next];
        self.next += 1;
        assert_eq!((step.0, step.1.as_str(), step.2.as_str()), (verb, uri.as_str(), body.as_str()));
        step.3.take().unwrap()
    }

    fn done(&self) {
        assert_eq!(self.script.len(), self.next);
    }
}

fn ok(value: &str) -> Reply {
    Reply::Answered(200, format!("{{\"value\":{value}}}"))
}

fn new_driver(endpoint: &mut Endpoint) -> Driver {
    let session = Reply::Answered(
        200,
        r#"{"value":{"sessionId":"s1","capabilities":{"browserName":"firefox"}}}"#.to_string(),
    );
    let driver =
        Driver::connect(
            Http::new("http://127.0.0.1:4444", 1000),
            Browser::Firefox,
            Facade::Connecting { process: false },
            session,
        )
        .unwrap();
    req_without_res(endpoint.send(driver.get(PAGE))).unwrap();
    driver
}

fn page() -> Endpoint {
    Endpoint::new().post("/url", &format!("{{\"url\":\"{PAGE}\"}}"), "null")
}

fn find(endpoint: Endpoint, tail: &str, selector: &str, id: &str) -> Endpoint {
    endpoint.post(
        tail,
        &format!("{{\"using\":\"css selector\",\"value\":\"{selector}\"}}"),
        &format!("{{\"element-6066-11e4-a52e-4f735466cecf\":\"{id}\"}}"),
    )
}

fn decode<T: serde::de::DeserializeOwned>(payload: &Json) -> T {
    serde_json::from_str(payload.render().as_str()).unwrap()
}

#[test]
fn find_element() {
    let mut endpoint = page().post_status(
        "/element",
        r#"{"using":"css selector","value":".not_exist"}"#,
        404,
        r#"{"value":{"error":"no such element","message":"Unable to locate element: .not_exist","stacktrace":""}}"#,
    );
    let driver = new_driver(&mut endpoint);

    let v = driver.found_element(endpoint.send(driver.find_element(selenium::By::Css(".not_exist"))));

    assert!(
        if let Err(selenium::SError::Http(status, _msg)) = v {
            status == 404
        } else {
            false
        },
        "not exist"
    );
    endpoint.done();
}

#[test]
fn get_page_source() {
    let mut endpoint = page().get("/source", r#""<html><head></head><body></body></html>""#);
    let driver = new_driver(&mut endpoint);
    let source = read_text(endpoint.send(driver.get_page_source())).unwrap();

    println!("{}", source);
    endpoint.done();
}

#[test]
fn execute_script() {
    let mut endpoint = page()
        .post("/execute/sync", r#"{"script":"return 1;","args":[]}"#, "1")
        .post("/execute/sync", r#"{"script":"return '1'","args":[]}"#, r#""1""#)
        .post("/execute/sync", r#"{"script":"return 1.0;","args":[]}"#, "1")
        .post("/execute/sync", r#"{"script":"return {};","args":[]}"#, "{}")
        .post("/execute/sync", r#"{"script":"return ['1'];","args":[]}"#, r#"["1"]"#);
    let driver = new_driver(&mut endpoint);

    let r: i32 = decode(&req(endpoint.send(driver.execute_script("return 1;", &[]))).unwrap());
    assert_eq!(1, r);
    let r: String =
        decode(&req(endpoint.send(driver.execute_script("return '1'", vec![].as_slice()))).unwrap());
    assert_eq!("1", r);
    let r: f32 =
        decode(&req(endpoint.send(driver.execute_script("return 1.0;", vec![].as_slice()))).unwrap());
    assert_eq!(1.0, r);
    let r: HashMap<String, String> =
        decode(&req(endpoint.send(driver.execute_script("return {};", vec![].as_slice()))).unwrap());
    assert_eq!(0, r.len());
    let r: Vec<String> = decode(
        &req(endpoint.send(driver.execute_script("return ['1'];", vec![].as_slice()))).unwrap(),
    );
    assert_eq!(1, r.len());
    assert_eq!("1", r[0]);
    endpoint.done();
}

#[test]
fn execute_async_script() {
    let mut endpoint = page().post(
        "/execute/async",
        r#"{"script":"setTimeout(()=> {arguments[arguments.length - 1]('result');} ,1000);  ","args":[]}"#,
        r#""result""#,
    );
    let driver = new_driver(&mut endpoint);

    let request = driver.http.execute_async_script(
        driver.session.session_id.as_str(),
        "setTimeout(()=> {arguments[arguments.length - 1]('result');} ,1000);  ",
        &[],
    );
    let r: String = decode(&req(endpoint.send(request)).unwrap());

    assert_eq!("result", r);
    endpoint.done();
}

#[test]
fn timeout() {
    let mut endpoint = page()
        .post("/timeouts", r#"{"implicit":2209}"#, "null")
        .post("/timeouts", r#"{"pageLoad":2900}"#, "null")
        .post("/timeouts", r#"{"script":2900}"#, "null")
        .get("/timeouts", r#"{"implicit":2209,"pageLoad":2900,"script":2900}"#);
    let driver = new_driver(&mut endpoint);

    req_without_res(endpoint.send(driver.set_timeouts(selenium::TimeoutType::Implicit(2209))))
        .unwrap();
    req_without_res(endpoint.send(driver.set_timeouts(selenium::TimeoutType::PageLoad(2900))))
        .unwrap();
    req_without_res(endpoint.send(driver.set_timeouts(selenium::TimeoutType::Script(2900))))
        .unwrap();

    let t = read_timeouts(endpoint.send(driver.get_timeouts())).unwrap();
    assert_eq!(3, t.len());
    for ele in t {
        match ele {
            selenium::TimeoutType::Script(v) => assert_eq!(2900, v),
            selenium::TimeoutType::PageLoad(v) => assert_eq!(2900, v),
            selenium::TimeoutType::Implicit(v) => assert_eq!(2209, v),
        }
    }
    endpoint.done();
}

#[test]
fn dismiss_alert() {
    let mut endpoint = find(page(), "/element", "#alert", "e1")
        .post("/element/e1/click", "{}", "null")
        .post("/alert/dismiss", "{}", "null")
        .get("/element/e1/property/innerHTML", r#""after alert""#);
    let driver = new_driver(&mut endpoint);
    let ele = driver
        .found_element(endpoint.send(driver.find_element(selenium::By::Css("#alert"))))
        .unwrap();
    req_without_res(endpoint.send(ele.click())).unwrap();

    req_without_res(endpoint.send(driver.dismiss_alert())).unwrap();

    assert_eq!(
        "after alert",
        read_optional_text(endpoint.send(ele.get_property("innerHTML"))).unwrap().unwrap()
    );
    endpoint.done();
}

#[test]
fn confirm() {
    let mut endpoint = find(page(), "/element", "#confirm", "e1")
        .post("/element/e1/click", "{}", "null")
        .post("/alert/accept", "{}", "null")
        .get("/element/e1/property/innerHTML", r#""yes confirm""#)
        .post("/element/e1/click", "{}", "null")
        .post("/alert/dismiss", "{}", "null")
        .get("/element/e1/property/innerHTML", r#""no confirm""#);
    let driver = new_driver(&mut endpoint);
    let ele = driver
        .found_element(endpoint.send(driver.find_element(selenium::By::Css("#confirm"))))
        .unwrap();
    req_without_res(endpoint.send(ele.click())).unwrap();

    req_without_res(endpoint.send(driver.accept_alert())).unwrap();

    assert_eq!(
        "yes confirm",
        read_optional_text(endpoint.send(ele.get_property("innerHTML"))).unwrap().unwrap()
    );

    req_without_res(endpoint.send(ele.click())).unwrap();

    req_without_res(endpoint.send(driver.dismiss_alert())).unwrap();

    assert_eq!(
        "no confirm",
        read_optional_text(endpoint.send(ele.get_property("innerHTML"))).unwrap().unwrap()
    );
    endpoint.done();
}

#[test]
fn alert_text() {
    let mut endpoint = find(page(), "/element", "#alert", "e1")
        .post("/element/e1/click", "{}", "null")
        .get("/alert/text", r#""1""#);
    let driver = new_driver(&mut endpoint);
    let ele = driver
        .found_element(endpoint.send(driver.find_element(selenium::By::Css("#alert"))))
        .unwrap();
    req_without_res(endpoint.send(ele.click())).unwrap();

    assert_eq!("1", read_text(endpoint.send(driver.get_alert_text())).unwrap());
    endpoint.done();
}

#[test]
fn prompt() {
    let mut endpoint = find(page(), "/element", "#prompt", "e1")
        .post("/element/e1/click", "{}", "null")
        .post("/alert/text", r#"{"text":"text"}"#, "null")
        .post("/alert/accept", "{}", "null")
        .get("/element/e1/property/innerHTML", r#""text""#);
    let driver = new_driver(&mut endpoint);
    let ele = driver
        .found_element(endpoint.send(driver.find_element(selenium::By::Css("#prompt"))))
        .unwrap();
    req_without_res(endpoint.send(ele.click())).unwrap();

    req_without_res(endpoint.send(driver.send_alert_text("text"))).unwrap();
    req_without_res(endpoint.send(driver.accept_alert())).unwrap();

    assert_eq!(
        "text",
        read_optional_text(endpoint.send(ele.get_property("innerHTML"))).unwrap().unwrap()
    );
    endpoint.done();
}

#[test]
fn teke_screenshot() {
    let mut endpoint = page().get("/screenshot", r#""iVBORw0KGgo=""#);
    let driver = new_driver(&mut endpoint);
    let v = read_picture(endpoint.send(driver.take_screenshot())).unwrap();
    assert_eq!(vec![0x89, b'P', b'N', b'G', 0x0d, 0x0a, 0x1a, 0x0a], v);
    endpoint.done();
}

#[test]
fn test_switch_to_window() {
    let mut endpoint = page()
        .get("/window/handles", r#"["w1"]"#)
        .post("/window/new", r#"{"type":"tab"}"#, r#"{"handle":"w2","type":"tab"}"#)
        .post("/window", r#"{"handle":"w2"}"#, "null")
        .get("/url", r#""about:blank""#)
        .get("/window/handles", r#"["w1","w2"]"#)
        .delete("/window", r#"["w1"]"#)
        .post("/window", r#"{"handle":"w1"}"#, "null")
        .get("/url", &format!("\"{PAGE}\""))
        .get("/window/handles", r#"["w1"]"#);
    let driver = new_driver(&mut endpoint);
    let w = read_texts(endpoint.send(driver.get_window_handles())).unwrap();
    let nw = read_window(endpoint.send(driver.new_window(NewWindowType::Tab))).unwrap();

    req_without_res(endpoint.send(driver.switch_to_window(&nw))).unwrap();
    assert_eq!("about:blank", read_text(endpoint.send(driver.get_current_url())).unwrap());
    assert_eq!(2, read_texts(endpoint.send(driver.get_window_handles())).unwrap().len());

    read_texts(endpoint.send(driver.close_window())).unwrap();
    req_without_res(endpoint.send(driver.switch_to_window(w[0].as_str()))).unwrap();

    assert_eq!(
        format!("file://{}/tests/common/test.html", "/work"),
        read_text(endpoint.send(driver.get_current_url())).unwrap()
    );

    assert_eq!(1, read_texts(endpoint.send(driver.get_window_handles())).unwrap().len());
    endpoint.done();
}
