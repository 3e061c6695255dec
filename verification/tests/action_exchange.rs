use selenium::driver::{Driver, Facade};
use selenium::http::{Http, Method};
use selenium::option::Browser;
use selenium::reply::{read_optional_text, req, req_without_res, Reply};
use selenium::{By, Key};

const BASE: &str = "http://127.0.0.1:4444/session/s1";
const PAGE: &str = "file:///work/tests/common/test.html";

/// A recorded exchange that stands for the endpoint: it checks each request
/// against the one that was recorded and gives the recorded answer.
struct Endpoint {
    script: Vec<(&'static str, String, String, Option<Reply>)>,
    next: usize,
}

impl Endpoint {
    fn new() -> Endpoint {
        Endpoint { script: Vec::new(), next: 0 }
    }

    fn get(mut self, tail: &str, value: &str) -> Endpoint {
        self.script.push(("GET", format!("{BASE}{tail}"), String::new(), Some(ok(value))));
        self
    }

    fn delete(mut self, tail: &str, value: &str) -> Endpoint {
        self.script.push(("DELETE", format!("{BASE}{tail}"), String::new(), Some(ok(value))));
        self
    }

    fn post(mut self, tail: &str, body: &str, value: &str) -> Endpoint {
        self.script.push(("POST", format!("{BASE}{tail}"), body.to_string(), Some(ok(value))));
        self
    }

    fn post_status(mut self, tail: &str, body: &str, status: u16, text: &str) -> Endpoint {
        self.script.push((
            "POST",
            format!("{BASE}{tail}"),
            body.to_string(),
            Some(Reply::Answered(status, text.to_string())),
        ));
        self
    }

    fn send(&mut self, method: Method) -> Reply {
        let (verb, uri, body) = match method {
            Method::Get(uri) => ("GET", uri, String::new()),
            Method::Post(uri, body) => ("POST", uri, body),
            Method::Delete(uri) => ("DELETE", uri, String::new()),
        };
        assert!(self.next < self.script.len(), "a request that was not recorded: {verb} {uri}");
        let step = &mut self.script[self.next];
        self.next += 1;
        assert_eq!((step.0, step.1.as_str(), step.2.as_str()), (verb, uri.as_str(), body.as_str()));
        step.3.take().unwrap()
    }

    fn done(&self) {
        assert_eq!(self.script.len(), self.next);
    }
}

fn ok(value: &str) -> Reply {
    Reply::Answered(200, format!("{{\"value\":{value}}}"))
}

fn new_driver(endpoint: &mut Endpoint) -> Driver {
    let session = Reply::Answered(
        200,
        r#"{"value":{"sessionId":"s1","capabilities":{"browserName":"firefox"}}}"#.to_string(),
    );
    let driver =
        Driver::connect(
            Http::new("http://127.0.0.1:4444", 1000),
            Browser::Firefox,
            Facade::Connecting { process: false },
            session,
        )
        .unwrap();
    req_without_res(endpoint.send(driver.get(PAGE))).unwrap();
    driver
}

fn page() -> Endpoint {
    Endpoint::new().post("/url", &format!("{{\"url\":\"{PAGE}\"}}"), "null")
}

fn find(endpoint: Endpoint, tail: &str, selector: &str, id: &str) -> Endpoint {
    endpoint.post(
        tail,
        &format!("{{\"using\":\"css selector\",\"value\":\"{selector}\"}}"),
        &format!("{{\"element-6066-11e4-a52e-4f735466cecf\":\"{id}\"}}"),
    )
}

fn inner_html(endpoint: &mut Endpoint, driver: &Driver, selector: &str) -> String {
    let ele = driver.found_element(endpoint.send(driver.find_element(By::Css(selector)))).unwrap();
    read_optional_text(endpoint.send(ele.get_property("innerHTML"))).unwrap().unwrap()
}

fn shows(endpoint: Endpoint, selector: &str, id: &str, text: &str) -> Endpoint {
    find(endpoint, "/element", selector, id)
        .get(&format!("/element/{id}/property/innerHTML"), &format!("\"{text}\""))
}

fn keys(ticks: &str) -> String {
    format!("{{\"actions\":[{{\"actions\":[{ticks}],\"type\":\"key\",\"id\":\"default keyboard\"}}]}}")
}

#[test]
fn actions_click() {
    let ticks = concat_ticks(&[
        r#"{"type":"pointerMove","origin":{"element-6066-11e4-a52e-4f735466cecf":"e1","ELEMENT":"e1"},"duration":100,"x":0,"y":0,"width":0,"height":0,"pressure":0,"tangentialPressure":0,"tiltX":0,"tiltY":0,"twist":0,"altitudeAngle":0,"azimuthAngle":0}"#,
        r#"{"type":"pointerDown","button":0,"width":0,"height":0,"pressure":0,"tangentialPressure":0,"tiltX":0,"tiltY":0,"twist":0,"altitudeAngle":0,"azimuthAngle":0}"#,
        r#"{"type":"pointerUp","button":0}"#,
    ]);
    let mut endpoint = find(page(), "/element", "#click", "e1")
        .post(
            "/actions",
            &format!(
                "{{\"actions\":[{{\"actions\":[{ticks}],\"parameters\":{{\"pointerType\":\"mouse\"}},\"type\":\"pointer\",\"id\":\"default mouse\"}}]}}"
            ),
            "null",
        )
        .get("/element/e1/property/innerHTML", r#""已点击""#);
    let driver = new_driver(&mut endpoint);
    let ele = driver.found_element(endpoint.send(driver.find_element(By::Css("#click")))).unwrap();

    req_without_res(endpoint.send(driver.actions().move_pointer(&ele).click(None).perform()))
        .unwrap();
    assert_eq!(
        "已点击",
        read_optional_text(endpoint.send(ele.get_property("innerHTML"))).unwrap().unwrap()
    );
    endpoint.done();
}

fn concat_ticks(ticks: &[&str]) -> String {
    ticks.join(",")
}

#[test]
fn key() {
    let endpoint = page().post(
        "/actions",
        &keys(r#"{"type":"keyDown","value":"a"},{"type":"keyUp","value":"a"}"#),
        "null",
    );
    let endpoint = shows(endpoint, "#demo", "e1", "keydown=a 65");
    let mut endpoint = shows(endpoint, "#demo2", "e2", "keyup=a 65");
    let driver = new_driver(&mut endpoint);
    req_without_res(endpoint.send(driver.actions().key_down("a").key_up("a").perform())).unwrap();
    assert_eq!("keydown=a 65", inner_html(&mut endpoint, &driver, "#demo"));
    assert_eq!("keyup=a 65", inner_html(&mut endpoint, &driver, "#demo2"));
    endpoint.done();
}

#[test]
fn pause() {
    let endpoint = page().post(
        "/actions",
        &keys(
            r#"{"type":"keyDown","value":"a"},{"type":"pause","duration":100},{"type":"keyUp","value":"a"}"#,
        ),
        "null",
    );
    let endpoint = shows(endpoint, "#demo", "e1", "keydown=a 65");
    let mut endpoint = shows(endpoint, "#demo2", "e2", "keyup=a 65");
    let driver = new_driver(&mut endpoint);
    req_without_res(
        endpoint.send(driver.actions().key_down("a").key_pause(100).key_up("a").perform()),
    )
    .unwrap();
    assert_eq!("keydown=a 65", inner_html(&mut endpoint, &driver, "#demo"));
    assert_eq!("keyup=a 65", inner_html(&mut endpoint, &driver, "#demo2"));
    endpoint.done();
}

#[test]
fn key_special() {
    let endpoint = page().post(
        "/actions",
        &keys(
            "{\"type\":\"keyDown\",\"value\":\"\u{E007}\"},{\"type\":\"pause\",\"duration\":100},{\"type\":\"keyUp\",\"value\":\"\u{E007}\"}",
        ),
        "null",
    );
    let endpoint = shows(endpoint, "#demo", "e1", "keydown=Enter 13");
    let endpoint = shows(endpoint, "#demo2", "e2", "keyup=Enter 13");
    let endpoint = endpoint.post(
        "/actions",
        &keys(
            "{\"type\":\"keyDown\",\"value\":\"\u{E009}\"},{\"type\":\"keyDown\",\"value\":\"e\"},{\"type\":\"keyUp\",\"value\":\"e\"},{\"type\":\"keyUp\",\"value\":\"\u{E009}\"}",
        ),
        "null",
    );
    let endpoint = shows(endpoint, "#demo", "e1", "keydown=e 69 ctrl");
    let mut endpoint = shows(endpoint, "#demo2", "e2", "keyup=Control 17");
    let driver = new_driver(&mut endpoint);
    req_without_res(endpoint.send(
        driver
            .actions()
            .key_down_special(Key::Enter)
            .key_pause(100)
            .key_up_special(Key::Enter)
            .perform(),
    ))
    .unwrap();

    assert_eq!("keydown=Enter 13", inner_html(&mut endpoint, &driver, "#demo"));
    assert_eq!("keyup=Enter 13", inner_html(&mut endpoint, &driver, "#demo2"));

    req_without_res(endpoint.send(
        driver
            .actions()
            .key_down_special(Key::Control)
            .key_down("e")
            .key_up("e")
            .key_up_special(Key::Control)
            .perform(),
    ))
    .unwrap();

    assert_eq!("keydown=e 69 ctrl", inner_html(&mut endpoint, &driver, "#demo"));
    assert_eq!("keyup=Control 17", inner_html(&mut endpoint, &driver, "#demo2"));
    endpoint.done();
}

#[test]
fn scroll() {
    let mut endpoint = page()
        .post(
            "/execute/sync",
            r#"{"script":"return document.body.offsetHeight","args":[]}"#,
            "1200",
        )
        .post(
            "/actions",
            r#"{"actions":[{"actions":[{"type":"scroll","x":0,"y":0,"duration":20,"deltaX":0,"deltaY":1200,"origin":"viewport"}],"type":"wheel","id":"default wheel"}]}"#,
            "null",
        );
    let driver = new_driver(&mut endpoint);

    let payload =
        req(endpoint.send(driver.execute_script("return document.body.offsetHeight", &[]))).unwrap();
    let h: i32 = serde_json::from_str(payload.render().as_str()).unwrap();

    req_without_res(
        endpoint.send(driver.actions().scroll(0, 0, 0, h, 20, selenium::Origin::Viewport).perform()),
    )
    .unwrap();
    endpoint.done();
}
