use selenium::actions::{Action, ActionType, Button, Key, Keyboard, Origin, Pointer, Wheel};
use selenium::driver::Session;
use selenium::element::Element;
use selenium::http::{Http, Method};

fn session() -> Session {
    Session { session_id: "s1".to_string() }
}

fn chain() -> Action {
    Action::new(Http::new("http://h", 10), session())
}

fn element(identify: &str, id: &str) -> Element {
    Element {
        http: Http::new("http://h", 10),
        session: session(),
        identify: identify.to_string(),
        id: id.to_string(),
    }
}

fn body(a: Action) -> String {
    match a.perform() {
        Method::Post(uri, body) => {
            assert_eq!("http://h/session/s1/actions", uri);
            body
        }
        _ => panic!("a chain is performed with a POST"),
    }
}

const PRESS_LEFT: &str = r#"{"type":"pointerDown","button":0,"width":0,"height":0,"pressure":0,"tangentialPressure":0,"tiltX":0,"tiltY":0,"twist":0,"altitudeAngle":0,"azimuthAngle":0}"#;
const RELEASE_LEFT: &str = r#"{"type":"pointerUp","button":0}"#;

#[test]
fn click_composite_is_move_press_release() {
    let e = element("element-6066-11e4-a52e-4f735466cecf", "abc123");
    let a = chain().click(Some(&e));
    assert_eq!(3, a.pointer.len());
    assert!(a.keyboard.is_empty());
    assert!(a.wheel.is_empty());

    let m = &a.pointer[0];
    assert!(matches!(m._type, ActionType::PointerMove));
    match &m.origin {
        Some(Origin::Element(identify, id)) => {
            assert_eq!("element-6066-11e4-a52e-4f735466cecf", identify);
            assert_eq!("abc123", id);
        }
        _ => panic!("the move is relative to the element"),
    }
    assert_eq!(Some(0), m.x);
    assert_eq!(Some(0), m.y);
    assert_eq!(Some(100), m.duration);
    assert!(m.button.is_none());

    let p = &a.pointer[1];
    assert!(matches!(p._type, ActionType::PointerDown));
    assert!(matches!(p.button, Some(Button::LEFT)));
    assert!(p.origin.is_none());

    let r = &a.pointer[2];
    assert!(matches!(r._type, ActionType::PointerUp));
    assert!(matches!(r.button, Some(Button::LEFT)));
    assert!(r.origin.is_none());
    assert!(r.duration.is_none());
}

#[test]
fn click_without_target_has_no_move() {
    let a = chain().click(None);
    assert_eq!(2, a.pointer.len());
    assert_eq!(
        format!(
            r#"{{"actions":[{{"actions":[{PRESS_LEFT},{RELEASE_LEFT}],"parameters":{{"pointerType":"mouse"}},"type":"pointer","id":"default mouse"}}]}}"#
        ),
        body(a)
    );
}

#[test]
fn double_click_is_click_and_a_second_press_and_release() {
    let e = element("k", "i");
    let a = chain().double_click(Some(&e));
    assert_eq!(5, a.pointer.len());
    assert!(matches!(a.pointer[0]._type, ActionType::PointerMove));
    assert!(matches!(a.pointer[1]._type, ActionType::PointerDown));
    assert!(matches!(a.pointer[2]._type, ActionType::PointerUp));
    assert!(matches!(a.pointer[3]._type, ActionType::PointerDown));
    assert!(matches!(a.pointer[4]._type, ActionType::PointerUp));
    for i in 1..5 {
        assert!(matches!(a.pointer[i].button, Some(Button::LEFT)));
    }
    assert_eq!(4, chain().double_click(None).pointer.len());
}

#[test]
fn context_click_uses_the_right_button() {
    let e = element("k", "i");
    let a = chain().context_click(Some(&e));
    assert_eq!(3, a.pointer.len());
    assert!(matches!(a.pointer[0]._type, ActionType::PointerMove));
    assert!(matches!(a.pointer[1]._type, ActionType::PointerDown));
    assert!(matches!(a.pointer[1].button, Some(Button::RIGHT)));
    assert!(matches!(a.pointer[2]._type, ActionType::PointerUp));
    assert!(matches!(a.pointer[2].button, Some(Button::RIGHT)));
    assert_eq!(2, chain().context_click(None).pointer.len());
}

#[test]
fn element_origin_holds_the_reference_twice() {
    let o = Origin::Element(
        "element-6066-11e4-a52e-4f735466cecf".to_string(),
        "abc123".to_string(),
    );
    assert_eq!(
        r#"{"element-6066-11e4-a52e-4f735466cecf":"abc123","ELEMENT":"abc123"}"#,
        o.to_json().render()
    );
    assert_eq!(r#""viewport""#, Origin::Viewport.to_json().render());
    assert_eq!(r#""pointer""#, Origin::Pointer.to_json().render());
}

#[test]
fn move_tick_on_the_wire() {
    let e = element("element-6066-11e4-a52e-4f735466cecf", "abc123");
    assert_eq!(
        r#"{"type":"pointerMove","origin":{"element-6066-11e4-a52e-4f735466cecf":"abc123","ELEMENT":"abc123"},"duration":100,"x":0,"y":0,"width":0,"height":0,"pressure":0,"tangentialPressure":0,"tiltX":0,"tiltY":0,"twist":0,"altitudeAngle":0,"azimuthAngle":0}"#,
        Pointer::move_pointer(&e).to_json().render()
    );
}

#[test]
fn pointer_ticks_on_the_wire() {
    assert_eq!(PRESS_LEFT, Pointer::press(Button::LEFT).to_json().render());
    assert_eq!(RELEASE_LEFT, Pointer::release(Button::LEFT).to_json().render());
    assert_eq!(r#"{"type":"pointerUp","button":2}"#, Pointer::release(Button::RIGHT).to_json().render());
    assert_eq!(r#"{"type":"pause","duration":250}"#, Pointer::pause(250).to_json().render());
    assert_eq!(r#"{"type":"keyDown"}"#, Pointer::default().to_json().render());
}

#[test]
fn buttons_have_their_numbers() {
    assert_eq!(0, Button::LEFT.number());
    assert_eq!(1, Button::MIDDLE.number());
    assert_eq!(2, Button::RIGHT.number());
    assert_eq!(3, Button::BACK.number());
    assert_eq!(4, Button::FORWARD.number());
}

#[test]
fn tick_types_have_their_names() {
    assert_eq!("keyDown", ActionType::KeyDown.as_str());
    assert_eq!("keyUp", ActionType::KeyUp.as_str());
    assert_eq!("pause", ActionType::Pause.as_str());
    assert_eq!("pointerDown", ActionType::PointerDown.as_str());
    assert_eq!("pointerUp", ActionType::PointerUp.as_str());
    assert_eq!("pointerMove", ActionType::PointerMove.as_str());
    assert_eq!("pointerCancel", ActionType::PointerCancel.as_str());
    assert_eq!("scroll", ActionType::Scroll.as_str());
}

#[test]
fn keyboard_ticks_on_the_wire() {
    assert_eq!(r#"{"type":"keyDown","value":"a"}"#, Keyboard::key_down("a").to_json().render());
    assert_eq!(r#"{"type":"keyUp","value":"a"}"#, Keyboard::key_up("a").to_json().render());
    assert_eq!(r#"{"type":"pause","duration":100}"#, Keyboard::pause(100).to_json().render());
    assert_eq!(
        r#"{"type":"keyDown","value":"\""}"#,
        Keyboard::key_down("\"").to_json().render()
    );
}

#[test]
fn wheel_tick_on_the_wire() {
    let w = Wheel {
        _type: ActionType::Scroll,
        x: Some(1),
        y: Some(-2),
        duration: Some(20),
        delta_x: Some(3),
        delta_y: Some(400),
        origin: Some(Origin::Viewport),
    };
    assert_eq!(
        r#"{"type":"scroll","x":1,"y":-2,"duration":20,"deltaX":3,"deltaY":400,"origin":"viewport"}"#,
        w.to_json().render()
    );
}

#[test]
fn special_keys_are_one_private_use_character() {
    assert_eq!("\u{E000}", Key::Null.as_str());
    assert_eq!("\u{E007}", Key::Enter.as_str());
    assert_eq!("\u{E009}", Key::Control.as_str());
    assert_eq!("\u{E012}", Key::ArrowLeft.as_str());
    assert_eq!(Key::ArrowLeft.as_str(), Key::Left.as_str());
    assert_eq!(Key::ArrowUp.as_str(), Key::Up.as_str());
    assert_eq!(Key::ArrowRight.as_str(), Key::Right.as_str());
    assert_eq!(Key::ArrowDown.as_str(), Key::Down.as_str());
    assert_eq!("\u{E01A}", Key::NumPad0.as_str());
    assert_eq!("\u{E023}", Key::NumPad9.as_str());
    assert_eq!("\u{E029}", Key::Divide.as_str());
    assert_eq!("\u{E031}", Key::F1.as_str());
    assert_eq!("\u{E03C}", Key::F12.as_str());
    assert_eq!("\u{E03D}", Key::Command.as_str());
    assert_eq!(Key::Command.as_str(), Key::Meta.as_str());
    assert_eq!("\u{E040}", Key::ZenkakuHankaku.as_str());
}

#[test]
fn keys_of_a_chain_on_the_wire() {
    let a = chain().key_down("a").key_up("a");
    assert_eq!(
        r#"{"actions":[{"actions":[{"type":"keyDown","value":"a"},{"type":"keyUp","value":"a"}],"type":"key","id":"default keyboard"}]}"#,
        body(a)
    );
}

#[test]
fn special_keys_and_pauses_of_a_chain() {
    let a = chain()
        .key_down_special(Key::Control)
        .key_pause(100)
        .key_down("e")
        .key_up("e")
        .key_up_special(Key::Control);
    assert_eq!(5, a.keyboard.len());
    assert_eq!(Some("\u{E009}".to_string()), a.keyboard[0].value);
    assert!(matches!(a.keyboard[0]._type, ActionType::KeyDown));
    assert!(matches!(a.keyboard[1]._type, ActionType::Pause));
    assert_eq!(Some(100), a.keyboard[1].duration);
    assert_eq!(None, a.keyboard[1].value);
    assert_eq!(Some("\u{E009}".to_string()), a.keyboard[4].value);
    assert!(matches!(a.keyboard[4]._type, ActionType::KeyUp));
}

#[test]
fn a_lane_without_ticks_is_not_sent() {
    let wheel_only = chain().scroll(0, 0, 0, 20, 0, Origin::Viewport);
    assert_eq!(
        r#"{"actions":[{"actions":[{"type":"scroll","x":0,"y":0,"duration":0,"deltaX":0,"deltaY":20,"origin":"viewport"}],"type":"wheel","id":"default wheel"}]}"#,
        body(wheel_only)
    );
    assert_eq!(r#"{"actions":[]}"#, body(chain()));

    let two = chain().mouse_pause(5).key_pause(6);
    assert_eq!(
        r#"{"actions":[{"actions":[{"type":"pause","duration":5}],"parameters":{"pointerType":"mouse"},"type":"pointer","id":"default mouse"},{"actions":[{"type":"pause","duration":6}],"type":"key","id":"default keyboard"}]}"#,
        body(two)
    );

    let all = chain().key_pause(1).scroll(1, 2, 3, 4, 5, Origin::Pointer).mouse_pause(2);
    let text = body(all);
    assert_eq!(1, text.matches(r#""type":"pointer""#).count());
    assert_eq!(1, text.matches(r#""type":"key""#).count());
    assert_eq!(1, text.matches(r#""type":"wheel""#).count());
    assert!(!text.contains(r#""actions":[]"#));
}

#[test]
fn clear_empties_the_pointer_lane_only() {
    let a = chain().press(Button::LEFT).key_down("a").scroll(0, 0, 0, 1, 0, Origin::Viewport).clear();
    assert!(a.pointer.is_empty());
    assert_eq!(1, a.keyboard.len());
    assert_eq!(1, a.wheel.len());
}

#[test]
fn ticks_keep_the_order_of_the_calls() {
    let e = element("k", "i");
    let a = chain()
        .move_pointer(&e)
        .press(Button::MIDDLE)
        .mouse_pause(10)
        .release(Button::MIDDLE)
        .add_pointer(Pointer::pause(3));
    assert_eq!(5, a.pointer.len());
    assert!(matches!(a.pointer[0]._type, ActionType::PointerMove));
    assert!(matches!(a.pointer[1].button, Some(Button::MIDDLE)));
    assert_eq!(Some(10), a.pointer[2].duration);
    assert!(matches!(a.pointer[3]._type, ActionType::PointerUp));
    assert_eq!(Some(3), a.pointer[4].duration);
}

#[test]
fn pointer_parameters() {
    assert_eq!(vec![("pointerType".to_string(), "mouse".to_string())], Pointer::parameters());
}
