//! The input-synthesis model: ticks of the pointer, the keyboard and the
//! wheel, gathered in a chain and sent as one request.
use vstd::prelude::*;
use vstd::string::*;
use crate::driver::Session;
use crate::element::Element;
use crate::http::{
    actions_body, session_path, ActionRequest, ActionRequestView, Device, DeviceView, Http, Method,
    MethodView,
};
use crate::json::{
    add_i32, add_member, add_text, add_u32, member_views, optional_number, optional_text,
    optional_view, rendered, wide_i32, wide_u32, Json, JsonView,
};

verus! {

/// A button of the pointer.
#[derive(Clone, Copy, Debug, PartialEq, Eq, Structural)]
pub enum Button {
    LEFT,
    MIDDLE,
    RIGHT,
    BACK,
    FORWARD,
}

impl Button {
    /// The number that stands for the button on the wire.
    pub open spec fn code(self) -> int {
        match self {
            Button::LEFT => 0,
            Button::MIDDLE => 1,
            Button::RIGHT => 2,
            Button::BACK => 3,
            Button::FORWARD => 4,
        }
    }

    /// The number that stands for the button on the wire.
    pub fn number(&self) -> (n: i32)
        ensures
            n == self.code(),
    {
        match self {
            Button::LEFT => 0,
            Button::MIDDLE => 1,
            Button::RIGHT => 2,
            Button::BACK => 3,
            Button::FORWARD => 4,
        }
    }
}

/// What a tick does.
#[derive(Clone, Copy, Debug, PartialEq, Eq, Structural)]
pub enum ActionType {
    KeyDown,
    KeyUp,
    Pause,
    PointerDown,
    PointerUp,
    PointerMove,
    PointerCancel,
    Scroll,
}

impl ActionType {
    /// The name of the tick type on the wire.
    pub open spec fn name(self) -> Seq<char> {
        match self {
            ActionType::KeyDown => "keyDown"@,
            ActionType::KeyUp => "keyUp"@,
            ActionType::Pause => "pause"@,
            ActionType::PointerDown => "pointerDown"@,
            ActionType::PointerUp => "pointerUp"@,
            ActionType::PointerMove => "pointerMove"@,
            ActionType::PointerCancel => "pointerCancel"@,
            ActionType::Scroll => "scroll"@,
        }
    }

    /// The name of the tick type on the wire.
    pub fn as_str(&self) -> (name: &'static str)
        ensures
            name@ == self.name(),
    {
        match self {
            ActionType::KeyDown => "keyDown",
            ActionType::KeyUp => "keyUp",
            ActionType::Pause => "pause",
            ActionType::PointerDown => "pointerDown",
            ActionType::PointerUp => "pointerUp",
            ActionType::PointerMove => "pointerMove",
            ActionType::PointerCancel => "pointerCancel",
            ActionType::Scroll => "scroll",
        }
    }
}

/// What the coordinates of a tick are relative to.
pub enum Origin {
    Viewport,
    Pointer,
    /// An element, by the name of its reference and the reference.
    Element(String, String),
}

/// The mathematical content of an [`Origin`].
pub enum OriginView {
    Viewport,
    Pointer,
    Element(Seq<char>, Seq<char>),
}

impl View for Origin {
    type V = OriginView;

    open spec fn view(&self) -> OriginView {
        match self {
            Origin::Viewport => OriginView::Viewport,
            Origin::Pointer => OriginView::Pointer,
            Origin::Element(identify, id) => OriginView::Element(identify@, id@),
        }
    }
}

/// An origin on the wire. An element is an object that holds the reference
/// twice: under the name it came with, and under the legacy name `ELEMENT`.
pub open spec fn origin_json(origin: OriginView) -> JsonView {
    match origin {
        OriginView::Viewport => JsonView::Text("viewport"@),
        OriginView::Pointer => JsonView::Text("pointer"@),
        OriginView::Element(identify, id) => JsonView::Object(
            seq![(identify, JsonView::Text(id)), ("ELEMENT"@, JsonView::Text(id))],
        ),
    }
}

/// The member `origin`, or no member where there is no origin.
pub open spec fn optional_origin(origin: Option<OriginView>) -> Seq<(Seq<char>, JsonView)> {
    match origin {
        Some(o) => seq![("origin"@, origin_json(o))],
        None => Seq::empty(),
    }
}

/// The content of an optional origin.
pub open spec fn origin_view(origin: Option<Origin>) -> Option<OriginView> {
    match origin {
        Some(o) => Some(o@),
        None => None,
    }
}

impl Origin {
    /// The origin on the wire.
    pub fn to_json(&self) -> (j: Json)
        ensures
            j@ == origin_json(self@),
    {
        match self {
            Origin::Viewport => Json::string("viewport"),
            Origin::Pointer => Json::string("pointer"),
            Origin::Element(identify, id) => {
                let mut members: Vec<(String, Json)> = Vec::new();
                add_member(&mut members, identify.as_str(), Json::string(id.as_str()));
                add_member(&mut members, "ELEMENT", Json::string(id.as_str()));
                assert(member_views(members@) =~= seq![
                    (identify@, JsonView::Text(id@)),
                    ("ELEMENT"@, JsonView::Text(id@)),
                ]);
                Json::object(members)
            },
        }
    }

    /// A second origin with the same content.
    pub fn duplicate(&self) -> (origin: Origin)
        ensures
            origin@ == self@,
    {
        match self {
            Origin::Viewport => Origin::Viewport,
            Origin::Pointer => Origin::Pointer,
            Origin::Element(identify, id) => Origin::Element(identify.clone(), id.clone()),
        }
    }
}

fn add_origin(members: &mut Vec<(String, Json)>, origin: &Option<Origin>)
    ensures
        member_views(final(members)@) == member_views(old(members)@) + optional_origin(
            origin_view(*origin),
        ),
{
    match origin {
        Some(o) => {
            add_member(members, "origin", o.to_json());
            assert(member_views(members@) =~= member_views(old(members)@) + optional_origin(
                origin_view(*origin),
            ));
        },
        None => {
            assert(member_views(members@) =~= member_views(old(members)@) + optional_origin(
                origin_view(*origin),
            ));
        },
    }
}

/// One tick of the pointer.
pub struct Pointer {
    pub _type: ActionType,
    pub origin: Option<Origin>,
    pub button: Option<Button>,
    pub duration: Option<u32>,
    pub x: Option<i32>,
    pub y: Option<i32>,
    pub width: Option<u32>,
    pub height: Option<u32>,
    pub pressure: Option<u32>,
    pub tangential_pressure: Option<u32>,
    pub tilt_x: Option<u32>,
    pub tilt_y: Option<u32>,
    pub twist: Option<i32>,
    pub altitude_angle: Option<i32>,
    pub azimuth_angle: Option<i32>,
}

/// The mathematical content of a [`Pointer`] tick.
pub struct PointerView {
    pub kind: ActionType,
    pub origin: Option<OriginView>,
    pub button: Option<Button>,
    pub duration: Option<u32>,
    pub x: Option<i32>,
    pub y: Option<i32>,
    pub width: Option<u32>,
    pub height: Option<u32>,
    pub pressure: Option<u32>,
    pub tangential_pressure: Option<u32>,
    pub tilt_x: Option<u32>,
    pub tilt_y: Option<u32>,
    pub twist: Option<i32>,
    pub altitude_angle: Option<i32>,
    pub azimuth_angle: Option<i32>,
}

impl View for Pointer {
    type V = PointerView;

    open spec fn view(&self) -> PointerView {
        PointerView {
            kind: self._type,
            origin: origin_view(self.origin),
            button: self.button,
            duration: self.duration,
            x: self.x,
            y: self.y,
            width: self.width,
            height: self.height,
            pressure: self.pressure,
            tangential_pressure: self.tangential_pressure,
            tilt_x: self.tilt_x,
            tilt_y: self.tilt_y,
            twist: self.twist,
            altitude_angle: self.altitude_angle,
            azimuth_angle: self.azimuth_angle,
        }
    }
}

/// The number of an optional button.
pub open spec fn button_code(button: Option<Button>) -> Option<int> {
    match button {
        Some(b) => Some(b.code()),
        None => None,
    }
}

/// A tick with nothing set but its type.
pub open spec fn bare_pointer(kind: ActionType) -> PointerView {
    PointerView {
        kind,
        origin: None,
        button: None,
        duration: None,
        x: None,
        y: None,
        width: None,
        height: None,
        pressure: None,
        tangential_pressure: None,
        tilt_x: None,
        tilt_y: None,
        twist: None,
        altitude_angle: None,
        azimuth_angle: None,
    }
}

/// The tick that presses `button`: the contact has no extent, pressure, tilt
/// or twist.
pub open spec fn press_tick(button: Button) -> PointerView {
    PointerView {
        button: Some(button),
        width: Some(0u32),
        height: Some(0u32),
        pressure: Some(0u32),
        tangential_pressure: Some(0u32),
        tilt_x: Some(0u32),
        tilt_y: Some(0u32),
        twist: Some(0i32),
        altitude_angle: Some(0i32),
        azimuth_angle: Some(0i32),
        ..bare_pointer(ActionType::PointerDown)
    }
}

/// The tick that releases `button`.
pub open spec fn release_tick(button: Button) -> PointerView {
    PointerView { button: Some(button), ..bare_pointer(ActionType::PointerUp) }
}

/// The tick that moves the pointer onto the element with the reference `id`
/// that came under the name `identify`: to the element's origin, within 100
/// milliseconds.
pub open spec fn move_tick(identify: Seq<char>, id: Seq<char>) -> PointerView {
    PointerView {
        origin: Some(OriginView::Element(identify, id)),
        x: Some(0i32),
        y: Some(0i32),
        duration: Some(100u32),
        width: Some(0u32),
        height: Some(0u32),
        pressure: Some(0u32),
        tangential_pressure: Some(0u32),
        tilt_x: Some(0u32),
        tilt_y: Some(0u32),
        twist: Some(0i32),
        altitude_angle: Some(0i32),
        azimuth_angle: Some(0i32),
        ..bare_pointer(ActionType::PointerMove)
    }
}

/// The tick in which the pointer rests for `duration` milliseconds.
pub open spec fn pointer_pause_tick(duration: u32) -> PointerView {
    PointerView { duration: Some(duration), ..bare_pointer(ActionType::Pause) }
}

/// A pointer tick on the wire: the type, then every field that is set, in
/// the order of the fields.
pub open spec fn pointer_json(p: PointerView) -> JsonView {
    JsonView::Object(
        seq![("type"@, JsonView::Text(p.kind.name()))] + optional_origin(p.origin)
            + optional_number("button"@, button_code(p.button)) + optional_number(
            "duration"@,
            wide_u32(p.duration),
        ) + optional_number("x"@, wide_i32(p.x)) + optional_number("y"@, wide_i32(p.y))
            + optional_number("width"@, wide_u32(p.width)) + optional_number(
            "height"@,
            wide_u32(p.height),
        ) + optional_number("pressure"@, wide_u32(p.pressure)) + optional_number(
            "tangentialPressure"@,
            wide_u32(p.tangential_pressure),
        ) + optional_number("tiltX"@, wide_u32(p.tilt_x)) + optional_number(
            "tiltY"@,
            wide_u32(p.tilt_y),
        ) + optional_number("twist"@, wide_i32(p.twist)) + optional_number(
            "altitudeAngle"@,
            wide_i32(p.altitude_angle),
        ) + optional_number("azimuthAngle"@, wide_i32(p.azimuth_angle)),
    )
}

impl Default for Pointer {
    fn default() -> (p: Pointer)
        ensures
            p@ == bare_pointer(ActionType::KeyDown),
    {
        Pointer {
            _type: ActionType::KeyDown,
            origin: None,
            button: None,
            duration: None,
            x: None,
            y: None,
            width: None,
            height: None,
            pressure: None,
            tangential_pressure: None,
            tilt_x: None,
            tilt_y: None,
            twist: None,
            altitude_angle: None,
            azimuth_angle: None,
        }
    }
}

impl Pointer {
    /// The parameters that every pointer lane declares: the pointer is a
    /// mouse.
    pub fn parameters() -> (v: Vec<(String, String)>)
        ensures
            crate::json::pair_views(v@) == seq![("pointerType"@, "mouse"@)],
    {
        let mut v: Vec<(String, String)> = Vec::new();
        v.push((String::from_str("pointerType"), String::from_str("mouse")));
        assert(crate::json::pair_views(v@) =~= seq![("pointerType"@, "mouse"@)]);
        v
    }

    /// The tick that presses `button`.
    pub fn press(button: Button) -> (p: Pointer)
        ensures
            p@ == press_tick(button),
    {
        Pointer {
            _type: ActionType::PointerDown,
            origin: None,
            button: Some(button),
            duration: None,
            x: None,
            y: None,
            width: Some(0),
            height: Some(0),
            pressure: Some(0),
            tangential_pressure: Some(0),
            tilt_x: Some(0),
            tilt_y: Some(0),
            twist: Some(0),
            altitude_angle: Some(0),
            azimuth_angle: Some(0),
        }
    }

    /// The tick that releases `button`.
    pub fn release(button: Button) -> (p: Pointer)
        ensures
            p@ == release_tick(button),
    {
        Pointer {
            _type: ActionType::PointerUp,
            origin: None,
            button: Some(button),
            duration: None,
            x: None,
            y: None,
            width: None,
            height: None,
            pressure: None,
            tangential_pressure: None,
            tilt_x: None,
            tilt_y: None,
            twist: None,
            altitude_angle: None,
            azimuth_angle: None,
        }
    }

    /// The tick that moves the pointer onto `element`.
    pub fn move_pointer(element: &Element) -> (p: Pointer)
        ensures
            p@ == move_tick(element.identify@, element.id@),
    {
        Pointer {
            _type: ActionType::PointerMove,
            origin: Some(Origin::Element(element.identify.clone(), element.id.clone())),
            button: None,
            duration: Some(100),
            x: Some(0),
            y: Some(0),
            width: Some(0),
            height: Some(0),
            pressure: Some(0),
            tangential_pressure: Some(0),
            tilt_x: Some(0),
            tilt_y: Some(0),
            twist: Some(0),
            altitude_angle: Some(0),
            azimuth_angle: Some(0),
        }
    }

    /// The tick in which the pointer rests for `duration` milliseconds.
    pub fn pause(duration: u32) -> (p: Pointer)
        ensures
            p@ == pointer_pause_tick(duration),
    {
        Pointer {
            _type: ActionType::Pause,
            origin: None,
            button: None,
            duration: Some(duration),
            x: None,
            y: None,
            width: None,
            height: None,
            pressure: None,
            tangential_pressure: None,
            tilt_x: None,
            tilt_y: None,
            twist: None,
            altitude_angle: None,
            azimuth_angle: None,
        }
    }

    /// The tick on the wire.
    pub fn to_json(&self) -> (j: Json)
        ensures
            j@ == pointer_json(self@),
    {
        let mut members: Vec<(String, Json)> = Vec::new();
        add_member(&mut members, "type", Json::string(self._type.as_str()));
        assert(member_views(members@) =~= seq![("type"@, JsonView::Text(self._type.name()))]);
        add_origin(&mut members, &self.origin);
        let button = match &self.button {
            Some(b) => Some(b.number()),
            None => None,
        };
        assert(wide_i32(button) == button_code(self.button));
        add_i32(&mut members, "button", button);
        add_u32(&mut members, "duration", self.duration);
        add_i32(&mut members, "x", self.x);
        add_i32(&mut members, "y", self.y);
        add_u32(&mut members, "width", self.width);
        add_u32(&mut members, "height", self.height);
        add_u32(&mut members, "pressure", self.pressure);
        add_u32(&mut members, "tangentialPressure", self.tangential_pressure);
        add_u32(&mut members, "tiltX", self.tilt_x);
        add_u32(&mut members, "tiltY", self.tilt_y);
        add_i32(&mut members, "twist", self.twist);
        add_i32(&mut members, "altitudeAngle", self.altitude_angle);
        add_i32(&mut members, "azimuthAngle", self.azimuth_angle);
        Json::object(members)
    }
}

/// One tick of the keyboard.
pub struct Keyboard {
    pub _type: ActionType,
    pub value: Option<String>,
    pub duration: Option<u32>,
}

/// The mathematical content of a [`Keyboard`] tick.
pub struct KeyboardView {
    pub kind: ActionType,
    pub value: Option<Seq<char>>,
    pub duration: Option<u32>,
}

impl View for Keyboard {
    type V = KeyboardView;

    open spec fn view(&self) -> KeyboardView {
        KeyboardView {
            kind: self._type,
            value: optional_view(self.value),
            duration: self.duration,
        }
    }
}

/// A keyboard tick on the wire: the type, then every field that is set.
pub open spec fn keyboard_json(k: KeyboardView) -> JsonView {
    JsonView::Object(
        seq![("type"@, JsonView::Text(k.kind.name()))] + optional_text("value"@, k.value)
            + optional_number("duration"@, wide_u32(k.duration)),
    )
}

impl Keyboard {
    /// The tick that presses `key`.
    pub fn key_down(key: &str) -> (k: Keyboard)
        ensures
            k@ == (KeyboardView { kind: ActionType::KeyDown, value: Some(key@), duration: None }),
    {
        Keyboard { _type: ActionType::KeyDown, value: Some(String::from_str(key)), duration: None }
    }

    /// The tick that releases `key`.
    pub fn key_up(key: &str) -> (k: Keyboard)
        ensures
            k@ == (KeyboardView { kind: ActionType::KeyUp, value: Some(key@), duration: None }),
    {
        Keyboard { _type: ActionType::KeyUp, value: Some(String::from_str(key)), duration: None }
    }

    /// The tick in which the keyboard rests for `duration` milliseconds.
    pub fn pause(duration: u32) -> (k: Keyboard)
        ensures
            k@ == (KeyboardView {
                kind: ActionType::Pause,
                value: None,
                duration: Some(duration),
            }),
    {
        Keyboard { _type: ActionType::Pause, value: None, duration: Some(duration) }
    }

    /// The tick on the wire.
    pub fn to_json(&self) -> (j: Json)
        ensures
            j@ == keyboard_json(self@),
    {
        let mut members: Vec<(String, Json)> = Vec::new();
        add_member(&mut members, "type", Json::string(self._type.as_str()));
        assert(member_views(members@) =~= seq![("type"@, JsonView::Text(self._type.name()))]);
        add_text(&mut members, "value", &self.value);
        add_u32(&mut members, "duration", self.duration);
        Json::object(members)
    }
}

/// One tick of the wheel.
pub struct Wheel {
    pub _type: ActionType,
    pub x: Option<i32>,
    pub y: Option<i32>,
    pub duration: Option<u32>,
    pub delta_x: Option<i32>,
    pub delta_y: Option<i32>,
    pub origin: Option<Origin>,
}

/// The mathematical content of a [`Wheel`] tick.
pub struct WheelView {
    pub kind: ActionType,
    pub x: Option<i32>,
    pub y: Option<i32>,
    pub duration: Option<u32>,
    pub delta_x: Option<i32>,
    pub delta_y: Option<i32>,
    pub origin: Option<OriginView>,
}

impl View for Wheel {
    type V = WheelView;

    open spec fn view(&self) -> WheelView {
        WheelView {
            kind: self._type,
            x: self.x,
            y: self.y,
            duration: self.duration,
            delta_x: self.delta_x,
            delta_y: self.delta_y,
            origin: origin_view(self.origin),
        }
    }
}

/// A wheel tick on the wire: the type, then every field that is set, in the
/// order of the fields.
pub open spec fn wheel_json(w: WheelView) -> JsonView {
    JsonView::Object(
        seq![("type"@, JsonView::Text(w.kind.name()))] + optional_number("x"@, wide_i32(w.x))
            + optional_number("y"@, wide_i32(w.y)) + optional_number(
            "duration"@,
            wide_u32(w.duration),
        ) + optional_number("deltaX"@, wide_i32(w.delta_x)) + optional_number(
            "deltaY"@,
            wide_i32(w.delta_y),
        ) + optional_origin(w.origin),
    )
}

/// The tick that scrolls by (`delta_x`, `delta_y`) at the point (`x`, `y`)
/// of `origin`, within `duration` milliseconds.
pub open spec fn scroll_tick(
    x: i32,
    y: i32,
    delta_x: i32,
    delta_y: i32,
    duration: u32,
    origin: OriginView,
) -> WheelView {
    WheelView {
        kind: ActionType::Scroll,
        x: Some(x),
        y: Some(y),
        duration: Some(duration),
        delta_x: Some(delta_x),
        delta_y: Some(delta_y),
        origin: Some(origin),
    }
}

impl Wheel {
    /// The tick on the wire.
    pub fn to_json(&self) -> (j: Json)
        ensures
            j@ == wheel_json(self@),
    {
        let mut members: Vec<(String, Json)> = Vec::new();
        add_member(&mut members, "type", Json::string(self._type.as_str()));
        assert(member_views(members@) =~= seq![("type"@, JsonView::Text(self._type.name()))]);
        add_i32(&mut members, "x", self.x);
        add_i32(&mut members, "y", self.y);
        add_u32(&mut members, "duration", self.duration);
        add_i32(&mut members, "deltaX", self.delta_x);
        add_i32(&mut members, "deltaY", self.delta_y);
        add_origin(&mut members, &self.origin);
        Json::object(members)
    }
}

/// The keys that have no character of their own.
#[derive(Clone, Copy, Debug, PartialEq, Eq, Structural)]
pub enum Key {
    Null,
    Cancel,
    Help,
    BackSpace,
    Tab,
    Clear,
    Return,
    Enter,
    Shift,
    Control,
    Alt,
    Pause,
    Escape,
    Space,
    PageUp,
    PageDown,
    End,
    Home,
    ArrowLeft,
    Left,
    ArrowUp,
    Up,
    ArrowRight,
    Right,
    ArrowDown,
    Down,
    Insert,
    Delete,
    Semicolon,
    Equals,
    NumPad0,
    NumPad1,
    NumPad2,
    NumPad3,
    NumPad4,
    NumPad5,
    NumPad6,
    NumPad7,
    NumPad8,
    NumPad9,
    Multiply,
    Add,
    Separator,
    Subtract,
    Decimal,
    Divide,
    F1,
    F2,
    F3,
    F4,
    F5,
    F6,
    F7,
    F8,
    F9,
    F10,
    F11,
    F12,
    Command,
    Meta,
    ZenkakuHankaku,
}

impl Key {
    /// The character that stands for the key on the wire.
    pub open spec fn code(self) -> char {
        match self {
            Key::Null => '\u{E000}',
            Key::Cancel => '\u{E001}',
            Key::Help => '\u{E002}',
            Key::BackSpace => '\u{E003}',
            Key::Tab => '\u{E004}',
            Key::Clear => '\u{E005}',
            Key::Return => '\u{E006}',
            Key::Enter => '\u{E007}',
            Key::Shift => '\u{E008}',
            Key::Control => '\u{E009}',
            Key::Alt => '\u{E00A}',
            Key::Pause => '\u{E00B}',
            Key::Escape => '\u{E00C}',
            Key::Space => '\u{E00D}',
            Key::PageUp => '\u{E00E}',
            Key::PageDown => '\u{E00F}',
            Key::End => '\u{E010}',
            Key::Home => '\u{E011}',
            Key::ArrowLeft => '\u{E012}',
            Key::Left => '\u{E012}',
            Key::ArrowUp => '\u{E013}',
            Key::Up => '\u{E013}',
            Key::ArrowRight => '\u{E014}',
            Key::Right => '\u{E014}',
            Key::ArrowDown => '\u{E015}',
            Key::Down => '\u{E015}',
            Key::Insert => '\u{E016}',
            Key::Delete => '\u{E017}',
            Key::Semicolon => '\u{E018}',
            Key::Equals => '\u{E019}',
            Key::NumPad0 => '\u{E01A}',
            Key::NumPad1 => '\u{E01B}',
            Key::NumPad2 => '\u{E01C}',
            Key::NumPad3 => '\u{E01D}',
            Key::NumPad4 => '\u{E01E}',
            Key::NumPad5 => '\u{E01F}',
            Key::NumPad6 => '\u{E020}',
            Key::NumPad7 => '\u{E021}',
            Key::NumPad8 => '\u{E022}',
            Key::NumPad9 => '\u{E023}',
            Key::Multiply => '\u{E024}',
            Key::Add => '\u{E025}',
            Key::Separator => '\u{E026}',
            Key::Subtract => '\u{E027}',
            Key::Decimal => '\u{E028}',
            Key::Divide => '\u{E029}',
            Key::F1 => '\u{E031}',
            Key::F2 => '\u{E032}',
            Key::F3 => '\u{E033}',
            Key::F4 => '\u{E034}',
            Key::F5 => '\u{E035}',
            Key::F6 => '\u{E036}',
            Key::F7 => '\u{E037}',
            Key::F8 => '\u{E038}',
            Key::F9 => '\u{E039}',
            Key::F10 => '\u{E03A}',
            Key::F11 => '\u{E03B}',
            Key::F12 => '\u{E03C}',
            Key::Command => '\u{E03D}',
            Key::Meta => '\u{E03D}',
            Key::ZenkakuHankaku => '\u{E040}',
        }
    }

    /// The text that stands for the key on the wire: its one character.
    pub fn as_str(&self) -> (text: &'static str)
        ensures
            text@ == seq![self.code()],
    {
        match self {
            Key::Null => {
                proof {
                    reveal_strlit("\u{E000}");
                }
                "\u{E000}"
            },
            Key::Cancel => {
                proof {
                    reveal_strlit("\u{E001}");
                }
                "\u{E001}"
            },
            Key::Help => {
                proof {
                    reveal_strlit("\u{E002}");
                }
                "\u{E002}"
            },
            Key::BackSpace => {
                proof {
                    reveal_strlit("\u{E003}");
                }
                "\u{E003}"
            },
            Key::Tab => {
                proof {
                    reveal_strlit("\u{E004}");
                }
                "\u{E004}"
            },
            Key::Clear => {
                proof {
                    reveal_strlit("\u{E005}");
                }
                "\u{E005}"
            },
            Key::Return => {
                proof {
                    reveal_strlit("\u{E006}");
                }
                "\u{E006}"
            },
            Key::Enter => {
                proof {
                    reveal_strlit("\u{E007}");
                }
                "\u{E007}"
            },
            Key::Shift => {
                proof {
                    reveal_strlit("\u{E008}");
                }
                "\u{E008}"
            },
            Key::Control => {
                proof {
                    reveal_strlit("\u{E009}");
                }
                "\u{E009}"
            },
            Key::Alt => {
                proof {
                    reveal_strlit("\u{E00A}");
                }
                "\u{E00A}"
            },
            Key::Pause => {
                proof {
                    reveal_strlit("\u{E00B}");
                }
                "\u{E00B}"
            },
            Key::Escape => {
                proof {
                    reveal_strlit("\u{E00C}");
                }
                "\u{E00C}"
            },
            Key::Space => {
                proof {
                    reveal_strlit("\u{E00D}");
                }
                "\u{E00D}"
            },
            Key::PageUp => {
                proof {
                    reveal_strlit("\u{E00E}");
                }
                "\u{E00E}"
            },
            Key::PageDown => {
                proof {
                    reveal_strlit("\u{E00F}");
                }
                "\u{E00F}"
            },
            Key::End => {
                proof {
                    reveal_strlit("\u{E010}");
                }
                "\u{E010}"
            },
            Key::Home => {
                proof {
                    reveal_strlit("\u{E011}");
                }
                "\u{E011}"
            },
            Key::ArrowLeft => {
                proof {
                    reveal_strlit("\u{E012}");
                }
                "\u{E012}"
            },
            Key::Left => {
                proof {
                    reveal_strlit("\u{E012}");
                }
                "\u{E012}"
            },
            Key::ArrowUp => {
                proof {
                    reveal_strlit("\u{E013}");
                }
                "\u{E013}"
            },
            Key::Up => {
                proof {
                    reveal_strlit("\u{E013}");
                }
                "\u{E013}"
            },
            Key::ArrowRight => {
                proof {
                    reveal_strlit("\u{E014}");
                }
                "\u{E014}"
            },
            Key::Right => {
                proof {
                    reveal_strlit("\u{E014}");
                }
                "\u{E014}"
            },
            Key::ArrowDown => {
                proof {
                    reveal_strlit("\u{E015}");
                }
                "\u{E015}"
            },
            Key::Down => {
                proof {
                    reveal_strlit("\u{E015}");
                }
                "\u{E015}"
            },
            Key::Insert => {
                proof {
                    reveal_strlit("\u{E016}");
                }
                "\u{E016}"
            },
            Key::Delete => {
                proof {
                    reveal_strlit("\u{E017}");
                }
                "\u{E017}"
            },
            Key::Semicolon => {
                proof {
                    reveal_strlit("\u{E018}");
                }
                "\u{E018}"
            },
            Key::Equals => {
                proof {
                    reveal_strlit("\u{E019}");
                }
                "\u{E019}"
            },
            Key::NumPad0 => {
                proof {
                    reveal_strlit("\u{E01A}");
                }
                "\u{E01A}"
            },
            Key::NumPad1 => {
                proof {
                    reveal_strlit("\u{E01B}");
                }
                "\u{E01B}"
            },
            Key::NumPad2 => {
                proof {
                    reveal_strlit("\u{E01C}");
                }
                "\u{E01C}"
            },
            Key::NumPad3 => {
                proof {
                    reveal_strlit("\u{E01D}");
                }
                "\u{E01D}"
            },
            Key::NumPad4 => {
                proof {
                    reveal_strlit("\u{E01E}");
                }
                "\u{E01E}"
            },
            Key::NumPad5 => {
                proof {
                    reveal_strlit("\u{E01F}");
                }
                "\u{E01F}"
            },
            Key::NumPad6 => {
                proof {
                    reveal_strlit("\u{E020}");
                }
                "\u{E020}"
            },
            Key::NumPad7 => {
                proof {
                    reveal_strlit("\u{E021}");
                }
                "\u{E021}"
            },
            Key::NumPad8 => {
                proof {
                    reveal_strlit("\u{E022}");
                }
                "\u{E022}"
            },
            Key::NumPad9 => {
                proof {
                    reveal_strlit("\u{E023}");
                }
                "\u{E023}"
            },
            Key::Multiply => {
                proof {
                    reveal_strlit("\u{E024}");
                }
                "\u{E024}"
            },
            Key::Add => {
                proof {
                    reveal_strlit("\u{E025}");
                }
                "\u{E025}"
            },
            Key::Separator => {
                proof {
                    reveal_strlit("\u{E026}");
                }
                "\u{E026}"
            },
            Key::Subtract => {
                proof {
                    reveal_strlit("\u{E027}");
                }
                "\u{E027}"
            },
            Key::Decimal => {
                proof {
                    reveal_strlit("\u{E028}");
                }
                "\u{E028}"
            },
            Key::Divide => {
                proof {
                    reveal_strlit("\u{E029}");
                }
                "\u{E029}"
            },
            Key::F1 => {
                proof {
                    reveal_strlit("\u{E031}");
                }
                "\u{E031}"
            },
            Key::F2 => {
                proof {
                    reveal_strlit("\u{E032}");
                }
                "\u{E032}"
            },
            Key::F3 => {
                proof {
                    reveal_strlit("\u{E033}");
                }
                "\u{E033}"
            },
            Key::F4 => {
                proof {
                    reveal_strlit("\u{E034}");
                }
                "\u{E034}"
            },
            Key::F5 => {
                proof {
                    reveal_strlit("\u{E035}");
                }
                "\u{E035}"
            },
            Key::F6 => {
                proof {
                    reveal_strlit("\u{E036}");
                }
                "\u{E036}"
            },
            Key::F7 => {
                proof {
                    reveal_strlit("\u{E037}");
                }
                "\u{E037}"
            },
            Key::F8 => {
                proof {
                    reveal_strlit("\u{E038}");
                }
                "\u{E038}"
            },
            Key::F9 => {
                proof {
                    reveal_strlit("\u{E039}");
                }
                "\u{E039}"
            },
            Key::F10 => {
                proof {
                    reveal_strlit("\u{E03A}");
                }
                "\u{E03A}"
            },
            Key::F11 => {
                proof {
                    reveal_strlit("\u{E03B}");
                }
                "\u{E03B}"
            },
            Key::F12 => {
                proof {
                    reveal_strlit("\u{E03C}");
                }
                "\u{E03C}"
            },
            Key::Command => {
                proof {
                    reveal_strlit("\u{E03D}");
                }
                "\u{E03D}"
            },
            Key::Meta => {
                proof {
                    reveal_strlit("\u{E03D}");
                }
                "\u{E03D}"
            },
            Key::ZenkakuHankaku => {
                proof {
                    reveal_strlit("\u{E040}");
                }
                "\u{E040}"
            },
        }
    }
}

/// A chain of ticks in the making: one lane for each device, and the
/// session that the chain is for.
pub struct Action {
    pub pointer: Vec<Pointer>,
    pub keyboard: Vec<Keyboard>,
    pub wheel: Vec<Wheel>,
    pub session: Session,
    pub http: Http,
}

/// The mathematical content of an [`Action`] chain.
pub struct ActionView {
    pub pointer: Seq<PointerView>,
    pub keyboard: Seq<KeyboardView>,
    pub wheel: Seq<WheelView>,
    pub session_id: Seq<char>,
    pub url: Seq<char>,
    pub timeout: u64,
}

/// The contents of a pointer lane.
pub open spec fn pointer_views(lane: Seq<Pointer>) -> Seq<PointerView> {
    Seq::new(lane.len(), |i: int| lane[i]@)
}

/// The contents of a keyboard lane.
pub open spec fn keyboard_views(lane: Seq<Keyboard>) -> Seq<KeyboardView> {
    Seq::new(lane.len(), |i: int| lane[i]@)
}

/// The contents of a wheel lane.
pub open spec fn wheel_views(lane: Seq<Wheel>) -> Seq<WheelView> {
    Seq::new(lane.len(), |i: int| lane[i]@)
}

impl View for Action {
    type V = ActionView;

    open spec fn view(&self) -> ActionView {
        ActionView {
            pointer: pointer_views(self.pointer@),
            keyboard: keyboard_views(self.keyboard@),
            wheel: wheel_views(self.wheel@),
            session_id: self.session.session_id@,
            url: self.http.url@,
            timeout: self.http.timeout,
        }
    }
}

/// The chain `a` with `tick` at the end of its pointer lane.
pub open spec fn with_pointer(a: ActionView, tick: PointerView) -> ActionView {
    ActionView { pointer: a.pointer.push(tick), ..a }
}

/// The chain `a` with `tick` at the end of its keyboard lane.
pub open spec fn with_keyboard(a: ActionView, tick: KeyboardView) -> ActionView {
    ActionView { keyboard: a.keyboard.push(tick), ..a }
}

/// The chain `a` with `tick` at the end of its wheel lane.
pub open spec fn with_wheel(a: ActionView, tick: WheelView) -> ActionView {
    ActionView { wheel: a.wheel.push(tick), ..a }
}

/// The chain `a` after a move onto `target`, where there is a target.
pub open spec fn moved_onto(a: ActionView, target: Option<(Seq<char>, Seq<char>)>) -> ActionView {
    match target {
        Some(e) => with_pointer(a, move_tick(e.0, e.1)),
        None => a,
    }
}

/// The chain `a` after a click of `button` on `target`: the move onto the
/// target, where there is one, then the press and the release.
pub open spec fn clicked(
    a: ActionView,
    target: Option<(Seq<char>, Seq<char>)>,
    button: Button,
) -> ActionView {
    with_pointer(with_pointer(moved_onto(a, target), press_tick(button)), release_tick(button))
}

/// The name and the reference of an optional element.
pub open spec fn target_of(element: Option<&Element>) -> Option<(Seq<char>, Seq<char>)> {
    match element {
        Some(e) => Some((e.identify@, e.id@)),
        None => None,
    }
}

/// The pointer ticks of a lane, as ticks of a device.
pub open spec fn pointer_devices(lane: Seq<PointerView>) -> Seq<DeviceView> {
    Seq::new(lane.len(), |i: int| DeviceView::Pointer(lane[i]))
}

/// The keyboard ticks of a lane, as ticks of a device.
pub open spec fn keyboard_devices(lane: Seq<KeyboardView>) -> Seq<DeviceView> {
    Seq::new(lane.len(), |i: int| DeviceView::Keyboard(lane[i]))
}

/// The wheel ticks of a lane, as ticks of a device.
pub open spec fn wheel_devices(lane: Seq<WheelView>) -> Seq<DeviceView> {
    Seq::new(lane.len(), |i: int| DeviceView::Wheel(lane[i]))
}

/// What is sent for the pointer lane.
pub open spec fn pointer_request(lane: Seq<PointerView>) -> ActionRequestView {
    ActionRequestView {
        actions: pointer_devices(lane),
        parameters: Some(seq![("pointerType"@, "mouse"@)]),
        kind: "pointer"@,
        id: "default mouse"@,
    }
}

/// What is sent for the keyboard lane.
pub open spec fn keyboard_request(lane: Seq<KeyboardView>) -> ActionRequestView {
    ActionRequestView {
        actions: keyboard_devices(lane),
        parameters: None,
        kind: "key"@,
        id: "default keyboard"@,
    }
}

/// What is sent for the wheel lane.
pub open spec fn wheel_request(lane: Seq<WheelView>) -> ActionRequestView {
    ActionRequestView {
        actions: wheel_devices(lane),
        parameters: None,
        kind: "wheel"@,
        id: "default wheel"@,
    }
}

/// What is sent for a chain: one entry for each lane that holds a tick, the
/// pointer first, then the keyboard, then the wheel. A lane without ticks
/// has no entry.
pub open spec fn lane_requests(a: ActionView) -> Seq<ActionRequestView> {
    (if a.pointer.len() > 0 {
        seq![pointer_request(a.pointer)]
    } else {
        Seq::empty()
    }) + (if a.keyboard.len() > 0 {
        seq![keyboard_request(a.keyboard)]
    } else {
        Seq::empty()
    }) + (if a.wheel.len() > 0 {
        seq![wheel_request(a.wheel)]
    } else {
        Seq::empty()
    })
}

impl Action {
    /// The empty chain for a session.
    pub fn new(http: Http, session: Session) -> (a: Action)
        ensures
            a@ == (ActionView {
                pointer: Seq::empty(),
                keyboard: Seq::empty(),
                wheel: Seq::empty(),
                session_id: session.session_id@,
                url: http.url@,
                timeout: http.timeout,
            }),
    {
        let a = Action {
            pointer: Vec::new(),
            keyboard: Vec::new(),
            wheel: Vec::new(),
            session,
            http,
        };
        assert(a@.pointer =~= Seq::empty());
        assert(a@.keyboard =~= Seq::empty());
        assert(a@.wheel =~= Seq::empty());
        a
    }

    /// Empties the pointer lane; the other lanes stay.
    pub fn clear(self) -> (a: Action)
        ensures
            a@ == (ActionView { pointer: Seq::empty(), ..self@ }),
    {
        let mut a = self;
        a.pointer.clear();
        assert(a@.pointer =~= Seq::empty());
        a
    }

    /// Appends any pointer tick.
    pub fn add_pointer(self, pointer: Pointer) -> (a: Action)
        ensures
            a@ == with_pointer(self@, pointer@),
    {
        let mut a = self;
        a.pointer.push(pointer);
        assert(a@.pointer =~= self@.pointer.push(pointer@));
        a
    }

    fn add_keyboard(self, keyboard: Keyboard) -> (a: Action)
        ensures
            a@ == with_keyboard(self@, keyboard@),
    {
        let mut a = self;
        a.keyboard.push(keyboard);
        assert(a@.keyboard =~= self@.keyboard.push(keyboard@));
        a
    }

    /// Appends the press of `button`.
    pub fn press(self, button: Button) -> (a: Action)
        ensures
            a@ == with_pointer(self@, press_tick(button)),
    {
        self.add_pointer(Pointer::press(button))
    }

    /// Appends the release of `button`.
    pub fn release(self, button: Button) -> (a: Action)
        ensures
            a@ == with_pointer(self@, release_tick(button)),
    {
        self.add_pointer(Pointer::release(button))
    }

    /// Appends the move onto `element`.
    pub fn move_pointer(self, element: &Element) -> (a: Action)
        ensures
            a@ == with_pointer(self@, move_tick(element.identify@, element.id@)),
    {
        self.add_pointer(Pointer::move_pointer(element))
    }

    fn move_onto(self, element: Option<&Element>) -> (a: Action)
        ensures
            a@ == moved_onto(self@, target_of(element)),
    {
        match element {
            Some(e) => self.move_pointer(e),
            None => self,
        }
    }

    /// Appends a click of the left button: the move onto `element`, where
    /// one is given, then the press and the release.
    pub fn click(self, element: Option<&Element>) -> (a: Action)
        ensures
            a@ == clicked(self@, target_of(element), Button::LEFT),
    {
        self.move_onto(element).press(Button::LEFT).release(Button::LEFT)
    }

    /// Appends a double click: a click, then a second press and release of
    /// the left button.
    pub fn double_click(self, element: Option<&Element>) -> (a: Action)
        ensures
            a@ == with_pointer(
                with_pointer(
                    clicked(self@, target_of(element), Button::LEFT),
                    press_tick(Button::LEFT),
                ),
                release_tick(Button::LEFT),
            ),
    {
        self.click(element).press(Button::LEFT).release(Button::LEFT)
    }

    /// Appends a click of the right button: the move onto `element`, where
    /// one is given, then the press and the release.
    pub fn context_click(self, element: Option<&Element>) -> (a: Action)
        ensures
            a@ == clicked(self@, target_of(element), Button::RIGHT),
    {
        self.move_onto(element).press(Button::RIGHT).release(Button::RIGHT)
    }

    /// Appends the press of the key with the text `key`.
    pub fn key_down(self, key: &str) -> (a: Action)
        ensures
            a@ == with_keyboard(
                self@,
                KeyboardView { kind: ActionType::KeyDown, value: Some(key@), duration: None },
            ),
    {
        self.add_keyboard(Keyboard::key_down(key))
    }

    /// Appends the release of the key with the text `key`.
    pub fn key_up(self, key: &str) -> (a: Action)
        ensures
            a@ == with_keyboard(
                self@,
                KeyboardView { kind: ActionType::KeyUp, value: Some(key@), duration: None },
            ),
    {
        self.add_keyboard(Keyboard::key_up(key))
    }

    /// Appends the press of a key that has no character of its own.
    pub fn key_down_special(self, key: Key) -> (a: Action)
        ensures
            a@ == with_keyboard(
                self@,
                KeyboardView {
                    kind: ActionType::KeyDown,
                    value: Some(seq![key.code()]),
                    duration: None,
                },
            ),
    {
        self.add_keyboard(Keyboard::key_down(key.as_str()))
    }

    /// Appends the release of a key that has no character of its own.
    pub fn key_up_special(self, key: Key) -> (a: Action)
        ensures
            a@ == with_keyboard(
                self@,
                KeyboardView {
                    kind: ActionType::KeyUp,
                    value: Some(seq![key.code()]),
                    duration: None,
                },
            ),
    {
        self.add_keyboard(Keyboard::key_up(key.as_str()))
    }

    /// Appends a rest of the keyboard of `duration` milliseconds.
    pub fn key_pause(self, duration: u32) -> (a: Action)
        ensures
            a@ == with_keyboard(
                self@,
                KeyboardView { kind: ActionType::Pause, value: None, duration: Some(duration) },
            ),
    {
        self.add_keyboard(Keyboard::pause(duration))
    }

    /// Appends a rest of the pointer of `duration` milliseconds.
    pub fn mouse_pause(self, duration: u32) -> (a: Action)
        ensures
            a@ == with_pointer(self@, pointer_pause_tick(duration)),
    {
        self.add_pointer(Pointer::pause(duration))
    }

    /// Appends a turn of the wheel.
    pub fn scroll(
        self,
        x: i32,
        y: i32,
        delta_x: i32,
        delta_y: i32,
        duration: u32,
        origin: Origin,
    ) -> (a: Action)
        ensures
            a@ == with_wheel(self@, scroll_tick(x, y, delta_x, delta_y, duration, origin@)),
    {
        let mut a = self;
        let tick = Wheel {
            _type: ActionType::Scroll,
            x: Some(x),
            y: Some(y),
            duration: Some(duration),
            delta_x: Some(delta_x),
            delta_y: Some(delta_y),
            origin: Some(origin),
        };
        a.wheel.push(tick);
        assert(a@.wheel =~= self@.wheel.push(tick@));
        a
    }

    /// The request that performs the chain: one POST to the session's
    /// `actions` address, with an entry for each lane that holds a tick.
    pub fn perform(self) -> (m: Method)
        ensures
            m@ == MethodView::Post(
                session_path(self@.url, self@.session_id, "/actions"@),
                rendered(actions_body(lane_requests(self@))),
            ),
    {
        let mut req: Vec<ActionRequest> = Vec::new();
        if !self.pointer.is_empty() {
            let mut actions: Vec<Device> = Vec::new();
            let mut i: usize = 0;
            while i < self.pointer.len()
                invariant
                    i <= self.pointer.len(),
                    crate::http::device_views(actions@) == pointer_devices(self@.pointer).take(
                        i as int,
                    ),
                decreases self.pointer.len() - i,
            {
                crate::http::add_device(&mut actions, Device::Pointer(&self.pointer[i]));
                assert(crate::http::device_views(actions@) =~= pointer_devices(
                    self@.pointer,
                ).take(i as int + 1));
                i += 1;
            }
            assert(crate::http::device_views(actions@) =~= pointer_devices(self@.pointer));
            req.push(
                ActionRequest {
                    actions,
                    parameters: Some(Pointer::parameters()),
                    _type: String::from_str("pointer"),
                    id: String::from_str("default mouse"),
                },
            );
        }
        assert(crate::http::request_views(req@) =~= if self@.pointer.len() > 0 {
            seq![pointer_request(self@.pointer)]
        } else {
            Seq::empty()
        });
        let ghost after_pointer = crate::http::request_views(req@);
        if !self.keyboard.is_empty() {
            let mut actions: Vec<Device> = Vec::new();
            let mut i: usize = 0;
            while i < self.keyboard.len()
                invariant
                    i <= self.keyboard.len(),
                    crate::http::device_views(actions@) == keyboard_devices(self@.keyboard).take(
                        i as int,
                    ),
                decreases self.keyboard.len() - i,
            {
                crate::http::add_device(&mut actions, Device::Keyboard(&self.keyboard[i]));
                assert(crate::http::device_views(actions@) =~= keyboard_devices(
                    self@.keyboard,
                ).take(i as int + 1));
                i += 1;
            }
            assert(crate::http::device_views(actions@) =~= keyboard_devices(self@.keyboard));
            req.push(
                ActionRequest {
                    actions,
                    parameters: None,
                    _type: String::from_str("key"),
                    id: String::from_str("default keyboard"),
                },
            );
        }
        assert(crate::http::request_views(req@) =~= after_pointer + if self@.keyboard.len() > 0 {
            seq![keyboard_request(self@.keyboard)]
        } else {
            Seq::empty()
        });
        let ghost after_keyboard = crate::http::request_views(req@);
        if !self.wheel.is_empty() {
            let mut actions: Vec<Device> = Vec::new();
            let mut i: usize = 0;
            while i < self.wheel.len()
                invariant
                    i <= self.wheel.len(),
                    crate::http::device_views(actions@) == wheel_devices(self@.wheel).take(
                        i as int,
                    ),
                decreases self.wheel.len() - i,
            {
                crate::http::add_device(&mut actions, Device::Wheel(&self.wheel[i]));
                assert(crate::http::device_views(actions@) =~= wheel_devices(self@.wheel).take(
                    i as int + 1,
                ));
                i += 1;
            }
            assert(crate::http::device_views(actions@) =~= wheel_devices(self@.wheel));
            req.push(
                ActionRequest {
                    actions,
                    parameters: None,
                    _type: String::from_str("wheel"),
                    id: String::from_str("default wheel"),
                },
            );
        }
        assert(crate::http::request_views(req@) =~= after_keyboard + if self@.wheel.len() > 0 {
            seq![wheel_request(self@.wheel)]
        } else {
            Seq::empty()
        });
        self.http.perform_actions(self.session.session_id.as_str(), req)
    }
}

/// The number of lanes of `a` that hold a tick.
pub open spec fn lanes_in_use(a: ActionView) -> nat {
    (if a.pointer.len() > 0 {
        1nat
    } else {
        0nat
    }) + (if a.keyboard.len() > 0 {
        1nat
    } else {
        0nat
    }) + (if a.wheel.len() > 0 {
        1nat
    } else {
        0nat
    })
}

/// Whether one of `requests` is for the device of type `kind`.
pub open spec fn has_device(requests: Seq<ActionRequestView>, kind: Seq<char>) -> bool {
    exists|i: int| 0 <= i < requests.len() && #[trigger] requests[i].kind == kind
}

/// What is sent for a chain holds an entry for exactly the lanes in use:
/// as many entries as lanes that hold a tick, an entry of a device's type
/// if and only if that device's lane holds a tick, and no entry without
/// ticks.
pub proof fn lanes_in_use_are_sent(a: ActionView)
    ensures
        lane_requests(a).len() == lanes_in_use(a),
        has_device(lane_requests(a), "pointer"@) <==> a.pointer.len() > 0,
        has_device(lane_requests(a), "key"@) <==> a.keyboard.len() > 0,
        has_device(lane_requests(a), "wheel"@) <==> a.wheel.len() > 0,
        forall|i: int|
            0 <= i < lane_requests(a).len() ==> (#[trigger] lane_requests(a)[i]).actions.len() > 0,
{
    reveal_strlit("pointer");
    reveal_strlit("key");
    reveal_strlit("wheel");
    let requests = lane_requests(a);
    assert("pointer"@ != "key"@) by {
        assert("pointer"@.len() != "key"@.len());
    }
    assert("pointer"@ != "wheel"@) by {
        assert("pointer"@.len() != "wheel"@.len());
    }
    assert("key"@ != "wheel"@) by {
        assert("key"@.len() != "wheel"@.len());
    }
    if a.pointer.len() > 0 {
        assert(requests[0].kind == "pointer"@);
    }
    if a.keyboard.len() > 0 {
        let at = if a.pointer.len() > 0 {
            1int
        } else {
            0int
        };
        assert(requests[at].kind == "key"@);
    }
    if a.wheel.len() > 0 {
        let at = requests.len() - 1;
        assert(requests[at].kind == "wheel"@);
    }
}

} // verus!
