//! The transport: what is sent for each operation of the protocol, and how
//! the reply is read.
use vstd::prelude::*;
use vstd::string::*;
use crate::actions::{
    keyboard_json, pointer_json, wheel_json, Keyboard, KeyboardView, Pointer, PointerView, Wheel,
    WheelView,
};
use crate::json::{
    add_item, add_member, item_views, member_views, pair_views, rendered, text_members,
    text_object, Json, JsonView,
};
use crate::actions::{origin_json, Origin};
use crate::driver::{By, SwitchToFrame, TimeoutType};
use crate::option::BrowserOption;
use crate::json::text_items;
use crate::text::{concat, decimal, push_char, unsigned_to_text};

verus! {

/// A request to the endpoint: the address, and for a POST the body.
#[derive(Debug)]
pub enum Method {
    Get(String),
    Post(String, String),
    Delete(String),
}

/// The mathematical content of a [`Method`].
pub enum MethodView {
    Get(Seq<char>),
    Post(Seq<char>, Seq<char>),
    Delete(Seq<char>),
}

impl View for Method {
    type V = MethodView;

    open spec fn view(&self) -> MethodView {
        match self {
            Method::Get(uri) => MethodView::Get(uri@),
            Method::Post(uri, body) => MethodView::Post(uri@, body@),
            Method::Delete(uri) => MethodView::Delete(uri@),
        }
    }
}

/// A tick of one of the three devices.
pub enum Device<'a> {
    Pointer(&'a Pointer),
    Keyboard(&'a Keyboard),
    Wheel(&'a Wheel),
}

/// The mathematical content of a [`Device`] tick.
pub enum DeviceView {
    Pointer(PointerView),
    Keyboard(KeyboardView),
    Wheel(WheelView),
}

impl<'a> View for Device<'a> {
    type V = DeviceView;

    open spec fn view(&self) -> DeviceView {
        match self {
            Device::Pointer(p) => DeviceView::Pointer(p@),
            Device::Keyboard(k) => DeviceView::Keyboard(k@),
            Device::Wheel(w) => DeviceView::Wheel(w@),
        }
    }
}

/// A tick on the wire.
pub open spec fn device_json(d: DeviceView) -> JsonView {
    match d {
        DeviceView::Pointer(p) => pointer_json(p),
        DeviceView::Keyboard(k) => keyboard_json(k),
        DeviceView::Wheel(w) => wheel_json(w),
    }
}

/// The contents of a list of ticks.
pub open spec fn device_views(ticks: Seq<Device>) -> Seq<DeviceView> {
    Seq::new(ticks.len(), |i: int| ticks[i]@)
}

/// The ticks of a lane on the wire, in their order.
pub open spec fn tick_items(ticks: Seq<DeviceView>) -> Seq<JsonView> {
    Seq::new(ticks.len(), |i: int| device_json(ticks[i]))
}

/// The ticks of one device: what the request for a chain holds for each lane
/// in use.
pub struct ActionRequest<'a> {
    pub actions: Vec<Device<'a>>,
    pub parameters: Option<Vec<(String, String)>>,
    pub _type: String,
    pub id: String,
}

/// The mathematical content of an [`ActionRequest`].
pub struct ActionRequestView {
    pub actions: Seq<DeviceView>,
    pub parameters: Option<Seq<(Seq<char>, Seq<char>)>>,
    pub kind: Seq<char>,
    pub id: Seq<char>,
}

/// The content of optional parameters.
pub open spec fn parameters_view(parameters: Option<Vec<(String, String)>>) -> Option<
    Seq<(Seq<char>, Seq<char>)>,
> {
    match parameters {
        Some(p) => Some(pair_views(p@)),
        None => None,
    }
}

impl<'a> View for ActionRequest<'a> {
    type V = ActionRequestView;

    open spec fn view(&self) -> ActionRequestView {
        ActionRequestView {
            actions: device_views(self.actions@),
            parameters: parameters_view(self.parameters),
            kind: self._type@,
            id: self.id@,
        }
    }
}

/// The member `parameters`, or no member where there are none.
pub open spec fn optional_parameters(parameters: Option<Seq<(Seq<char>, Seq<char>)>>) -> Seq<
    (Seq<char>, JsonView),
> {
    match parameters {
        Some(p) => seq![("parameters"@, JsonView::Object(text_members(p)))],
        None => Seq::empty(),
    }
}

/// The ticks of one device on the wire: the ticks, the parameters where
/// there are any, the type of the device, and its name.
pub open spec fn request_json(r: ActionRequestView) -> JsonView {
    JsonView::Object(
        seq![("actions"@, JsonView::Array(tick_items(r.actions)))] + optional_parameters(
            r.parameters,
        ) + seq![("type"@, JsonView::Text(r.kind)), ("id"@, JsonView::Text(r.id))],
    )
}

/// The contents of a list of lanes.
pub open spec fn request_views(requests: Seq<ActionRequest>) -> Seq<ActionRequestView> {
    Seq::new(requests.len(), |i: int| requests[i]@)
}

/// The lanes on the wire, in their order.
pub open spec fn request_items(requests: Seq<ActionRequestView>) -> Seq<JsonView> {
    Seq::new(requests.len(), |i: int| request_json(requests[i]))
}

/// The body that performs a chain: the lanes under the name `actions`.
pub open spec fn actions_body(requests: Seq<ActionRequestView>) -> JsonView {
    JsonView::Object(seq![("actions"@, JsonView::Array(request_items(requests)))])
}

/// Appends a tick to the ticks of a lane.
pub fn add_device<'a>(ticks: &mut Vec<Device<'a>>, tick: Device<'a>)
    ensures
        device_views(final(ticks)@) == device_views(old(ticks)@).push(tick@),
{
    ticks.push(tick);
    assert(device_views(ticks@) =~= device_views(old(ticks)@).push(tick@));
}

/// The ticks of a lane as a JSON array.
pub fn serialize_actions(v: &Vec<Device>) -> (j: Json)
    ensures
        j@ == JsonView::Array(tick_items(device_views(v@))),
{
    let mut items: Vec<Json> = Vec::new();
    let mut i: usize = 0;
    while i < v.len()
        invariant
            i <= v.len(),
            item_views(items@) == tick_items(device_views(v@)).take(i as int),
        decreases v.len() - i,
    {
        let item = match &v[i] {
            Device::Pointer(pointer) => pointer.to_json(),
            Device::Keyboard(keyboard) => keyboard.to_json(),
            Device::Wheel(wheel) => wheel.to_json(),
        };
        add_item(&mut items, item);
        assert(item_views(items@) =~= tick_items(device_views(v@)).take(i as int + 1));
        i += 1;
    }
    assert(item_views(items@) =~= tick_items(device_views(v@)));
    Json::array(items)
}

impl<'a> ActionRequest<'a> {
    /// The lane on the wire.
    pub fn to_json(&self) -> (j: Json)
        ensures
            j@ == request_json(self@),
    {
        let mut members: Vec<(String, Json)> = Vec::new();
        add_member(&mut members, "actions", serialize_actions(&self.actions));
        match &self.parameters {
            Some(p) => {
                add_member(&mut members, "parameters", text_object(p));
            },
            None => {},
        }
        add_member(&mut members, "type", Json::string(self._type.as_str()));
        add_member(&mut members, "id", Json::string(self.id.as_str()));
        assert(member_views(members@) =~= seq![
            ("actions"@, JsonView::Array(tick_items(self@.actions))),
        ] + optional_parameters(self@.parameters) + seq![
            ("type"@, JsonView::Text(self@.kind)),
            ("id"@, JsonView::Text(self@.id)),
        ]);
        Json::object(members)
    }
}

/// The endpoint that requests go to, and the timeout, in seconds, that
/// applies to the connect and the read phase of each of them.
pub struct Http {
    pub url: String,
    pub timeout: u64,
}

/// The address of an operation on a session.
pub open spec fn session_path(url: Seq<char>, session_id: Seq<char>, tail: Seq<char>) -> Seq<
    char,
> {
    url + "/session/"@ + session_id + tail
}

/// The address of an operation on an element of a session.
pub open spec fn element_path(
    url: Seq<char>,
    session_id: Seq<char>,
    element_id: Seq<char>,
    tail: Seq<char>,
) -> Seq<char> {
    url + "/session/"@ + session_id + "/element/"@ + element_id + tail
}

/// The address of an operation on a shadow root of a session.
pub open spec fn shadow_path(
    url: Seq<char>,
    session_id: Seq<char>,
    shadow_id: Seq<char>,
    tail: Seq<char>,
) -> Seq<char> {
    url + "/session/"@ + session_id + "/shadow/"@ + shadow_id + tail
}

impl Http {
    /// The transport for the endpoint at `url`.
    pub fn new(url: &str, timeout: u64) -> (http: Http)
        ensures
            http.url@ == url@,
            http.timeout == timeout,
    {
        Http { url: String::from_str(url), timeout }
    }

    /// A second handle on the same endpoint.
    pub fn duplicate(&self) -> (http: Http)
        ensures
            http.url@ == self.url@,
            http.timeout == self.timeout,
    {
        Http { url: self.url.clone(), timeout: self.timeout }
    }

    /// The request that performs a chain of ticks: one POST that carries
    /// every lane.
    pub fn perform_actions(&self, session_id: &str, req: Vec<ActionRequest>) -> (m: Method)
        ensures
            m@ == MethodView::Post(
                session_path(self.url@, session_id@, "/actions"@),
                rendered(actions_body(request_views(req@))),
            ),
    {
        let mut items: Vec<Json> = Vec::new();
        let mut i: usize = 0;
        while i < req.len()
            invariant
                i <= req.len(),
                item_views(items@) == request_items(request_views(req@)).take(i as int),
            decreases req.len() - i,
        {
            add_item(&mut items, req[i].to_json());
            assert(item_views(items@) =~= request_items(request_views(req@)).take(i as int + 1));
            i += 1;
        }
        assert(item_views(items@) =~= request_items(request_views(req@)));
        let mut members: Vec<(String, Json)> = Vec::new();
        add_member(&mut members, "actions", Json::array(items));
        assert(member_views(members@) =~= seq![
            ("actions"@, JsonView::Array(request_items(request_views(req@)))),
        ]);
        let body = Json::object(members).render();
        Method::Post(self.session_uri(session_id, "/actions"), body)
    }

    /// The address of an operation on a session.
    pub fn session_uri(&self, session_id: &str, tail: &str) -> (uri: String)
        ensures
            uri@ == session_path(self.url@, session_id@, tail@),
    {
        let mut uri = concat(self.url.as_str(), "/session/");
        uri.append(session_id);
        uri.append(tail);
        uri
    }

    /// The address of an operation on an element of a session.
    pub fn element_uri(&self, session_id: &str, element_id: &str, tail: &str) -> (uri: String)
        ensures
            uri@ == element_path(self.url@, session_id@, element_id@, tail@),
    {
        let mut uri = concat(self.url.as_str(), "/session/");
        uri.append(session_id);
        uri.append("/element/");
        uri.append(element_id);
        uri.append(tail);
        uri
    }

    /// The address of an operation on a shadow root of a session.
    pub fn shadow_uri(&self, session_id: &str, shadow_id: &str, tail: &str) -> (uri: String)
        ensures
            uri@ == shadow_path(self.url@, session_id@, shadow_id@, tail@),
    {
        let mut uri = concat(self.url.as_str(), "/session/");
        uri.append(session_id);
        uri.append("/shadow/");
        uri.append(shadow_id);
        uri.append(tail);
        uri
    }
}

/// What a new session is asked for.
pub struct Capability<T> {
    pub browser_name: Option<String>,
    pub platform_name: Option<String>,
    pub always_match: Option<T>,
    pub first_match: Vec<T>,
}

/// The body that asks for a new session: nothing that must always match,
/// and one first match, which holds `first`, or is empty where there is
/// none.
pub open spec fn capabilities_text(first: Option<JsonView>) -> Seq<char> {
    "{\"capabilities\":{\"alwaysMatch\":{},\"firstMatch\":["@ + (match first {
        Some(j) => rendered(j),
        None => "{}"@,
    }) + "]}}"@
}

impl<T: BrowserOption> Capability<T> {
    /// The capabilities that the options under `always_match` ask for.
    pub open spec fn asked(&self) -> Option<JsonView> {
        match self.always_match {
            Some(option) => Some(option.capability()),
            None => None,
        }
    }

    /// The body that asks for a new session.
    pub fn to_string(&self) -> (text: String)
        ensures
            text@ == capabilities_text(self.asked()),
    {
        let first = match &self.always_match {
            Some(option) => option.to_json().render(),
            None => String::from_str("{}"),
        };
        framed("{\"capabilities\":{\"alwaysMatch\":{},\"firstMatch\":[", first.as_str(), "]}}")
    }
}

/// A locator on the wire: the strategy and the selector.
pub open spec fn locator_json(by: By) -> JsonView {
    JsonView::Object(
        seq![("using"@, JsonView::Text(by.using())), ("value"@, JsonView::Text(by.value()))],
    )
}

/// The locator on the wire.
pub fn locator(by: &By) -> (j: Json)
    ensures
        j@ == locator_json(*by),
{
    let mut members: Vec<(String, Json)> = Vec::new();
    let (using, value) = match by {
        By::Css(v) => ("css selector", String::from_str(v)),
        By::LinkText(v) => ("link text", String::from_str(v)),
        By::ParitialLinkText(v) => ("partial link text", String::from_str(v)),
        By::TagName(v) => ("tag name", String::from_str(v)),
        By::XPath(v) => ("xpath", String::from_str(v)),
        By::Class(v) => ("css selector", concat(".", v)),
        By::Id(v) => ("css selector", concat("#", v)),
    };
    add_member(&mut members, "using", Json::string(using));
    add_member(&mut members, "value", Json::string(value.as_str()));
    assert(member_views(members@) =~= seq![
        ("using"@, JsonView::Text(by.using())),
        ("value"@, JsonView::Text(by.value())),
    ]);
    Json::object(members)
}

/// The characters of `keys`, each between double quotes, separated by
/// commas.
pub open spec fn quoted_keys(keys: Seq<char>) -> Seq<char>
    decreases keys.len(),
{
    if keys.len() == 0 {
        Seq::empty()
    } else if keys.len() == 1 {
        "\""@ + seq![keys[0]] + "\""@
    } else {
        quoted_keys(keys.drop_last()) + ","@ + "\""@ + seq![keys.last()] + "\""@
    }
}

/// The body that types `keys` into an element: the text as a whole, and its
/// characters one by one.
pub open spec fn keys_body(keys: Seq<char>) -> Seq<char> {
    "{\"text\":\""@ + keys + "\",\"value\":["@ + quoted_keys(keys) + "]}"@
}

/// The contents of a list of borrowed texts.
pub open spec fn str_views(texts: Seq<&str>) -> Seq<Seq<char>> {
    Seq::new(texts.len(), |i: int| texts[i]@)
}

/// The body that runs a script: the script and its arguments.
pub open spec fn script_json(script: Seq<char>, args: Seq<JsonView>) -> JsonView {
    JsonView::Object(
        seq![("script"@, JsonView::Text(script)), ("args"@, JsonView::Array(args))],
    )
}

/// The script that asks whether an element is displayed: `atom`, which is
/// the source of a function, applied to the arguments.
pub open spec fn displayed_script(atom: Seq<char>) -> Seq<char> {
    "return ("@ + atom + ").apply(null, arguments);"@
}

/// The body that switches to a frame.
pub open spec fn frame_body(id: SwitchToFrame) -> Seq<char> {
    match id {
        SwitchToFrame::Null => "{\"id\":null}"@,
        SwitchToFrame::Number(n) => "{\"id\":"@ + decimal(n as nat) + "}"@,
        SwitchToFrame::Element(s) => "{\"id\":\""@ + s@ + "\"}"@,
    }
}

/// The body that sets a timeout of the session.
pub open spec fn timeout_body(timeout: TimeoutType) -> Seq<char> {
    match timeout {
        TimeoutType::Script(t) => "{\"script\":"@ + decimal(t as nat) + "}"@,
        TimeoutType::PageLoad(t) => "{\"pageLoad\":"@ + decimal(t as nat) + "}"@,
        TimeoutType::Implicit(t) => "{\"implicit\":"@ + decimal(t as nat) + "}"@,
    }
}

/// A text between a prefix and a suffix.
pub fn framed(prefix: &str, inner: &str, suffix: &str) -> (r: String)
    ensures
        r@ == prefix@ + inner@ + suffix@,
{
    let mut r = concat(prefix, inner);
    r.append(suffix);
    r
}

fn script_body(script: &str, args: Vec<Json>) -> (body: String)
    ensures
        body@ == rendered(script_json(script@, item_views(args@))),
{
    let mut members: Vec<(String, Json)> = Vec::new();
    add_member(&mut members, "script", Json::string(script));
    add_member(&mut members, "args", Json::array(args));
    assert(member_views(members@) =~= seq![
        ("script"@, JsonView::Text(script@)),
        ("args"@, JsonView::Array(item_views(args@))),
    ]);
    Json::object(members).render()
}

fn text_arguments(args: &[&str]) -> (items: Vec<Json>)
    ensures
        item_views(items@) == text_items(str_views(args@)),
{
    let mut items: Vec<Json> = Vec::new();
    let mut i: usize = 0;
    while i < args.len()
        invariant
            i <= args.len(),
            item_views(items@) == text_items(str_views(args@)).take(i as int),
        decreases args.len() - i,
    {
        add_item(&mut items, Json::string(args[i]));
        assert(item_views(items@) =~= text_items(str_views(args@)).take(i as int + 1));
        i += 1;
    }
    assert(item_views(items@) =~= text_items(str_views(args@)));
    items
}

impl Http {
    /// The request that asks for a new session.
    pub fn new_session<T: BrowserOption>(&self, cap: Capability<T>) -> (m: Method)
        ensures
            m@ == MethodView::Post(self.url@ + "/session"@, capabilities_text(cap.asked())),
    {
        Method::Post(concat(self.url.as_str(), "/session"), cap.to_string())
    }

    /// The request that ends a session.
    pub fn delete_session(&self, session_id: &str) -> (m: Method)
        ensures
            m@ == MethodView::Delete(session_path(self.url@, session_id@, ""@)),
    {
        Method::Delete(self.session_uri(session_id, ""))
    }

    /// The request that loads `url`. The address goes into the body as it is.
    pub fn navigate(&self, session_id: &str, url: &str) -> (m: Method)
        ensures
            m@ == MethodView::Post(
                session_path(self.url@, session_id@, "/url"@),
                "{\"url\":\""@ + url@ + "\"}"@,
            ),
    {
        Method::Post(self.session_uri(session_id, "/url"), framed("{\"url\":\"", url, "\"}"))
    }

    /// The request for the address of the page.
    pub fn get_current_url(&self, session_id: &str) -> (m: Method)
        ensures
            m@ == MethodView::Get(session_path(self.url@, session_id@, "/url"@)),
    {
        Method::Get(self.session_uri(session_id, "/url"))
    }

    /// The request that goes one page back.
    pub fn back(&self, session_id: &str) -> (m: Method)
        ensures
            m@ == MethodView::Post(
                session_path(self.url@, session_id@, "/back"@),
                ""@,
            ),
    {
        Method::Post(self.session_uri(session_id, "/back"), String::from_str(""))
    }

    /// The request that goes one page forward.
    pub fn forward(&self, session_id: &str) -> (m: Method)
        ensures
            m@ == MethodView::Post(
                session_path(self.url@, session_id@, "/forward"@),
                ""@,
            ),
    {
        Method::Post(self.session_uri(session_id, "/forward"), String::from_str(""))
    }

    /// The request that loads the page again.
    pub fn refresh(&self, session_id: &str) -> (m: Method)
        ensures
            m@ == MethodView::Post(
                session_path(self.url@, session_id@, "/refresh"@),
                ""@,
            ),
    {
        Method::Post(self.session_uri(session_id, "/refresh"), String::from_str(""))
    }

    /// The request for the title of the page.
    pub fn get_title(&self, session_id: &str) -> (m: Method)
        ensures
            m@ == MethodView::Get(session_path(self.url@, session_id@, "/title"@)),
    {
        Method::Get(self.session_uri(session_id, "/title"))
    }

    /// The request for the handle of the window.
    pub fn get_window_handle(&self, session_id: &str) -> (m: Method)
        ensures
            m@ == MethodView::Get(session_path(self.url@, session_id@, "/window"@)),
    {
        Method::Get(self.session_uri(session_id, "/window"))
    }

    /// The request that closes the window; the reply lists the handles that
    /// are left.
    pub fn close_window(&self, session_id: &str) -> (m: Method)
        ensures
            m@ == MethodView::Delete(session_path(self.url@, session_id@, "/window"@)),
    {
        Method::Delete(self.session_uri(session_id, "/window"))
    }

    /// The request that switches to the window with `handle`.
    pub fn switch_to_window(&self, session_id: &str, handle: &str) -> (m: Method)
        ensures
            m@ == MethodView::Post(
                session_path(self.url@, session_id@, "/window"@),
                "{\"handle\":\""@ + handle@ + "\"}"@,
            ),
    {
        Method::Post(
            self.session_uri(session_id, "/window"),
            framed("{\"handle\":\"", handle, "\"}"),
        )
    }

    /// The request for the handles of all windows.
    pub fn get_window_handles(&self, session_id: &str) -> (m: Method)
        ensures
            m@ == MethodView::Get(session_path(self.url@, session_id@, "/window/handles"@)),
    {
        Method::Get(self.session_uri(session_id, "/window/handles"))
    }

    /// The request that opens a window; `window_type` is `tab` or `window`.
    pub fn new_window(&self, session_id: &str, window_type: &str) -> (m: Method)
        ensures
            m@ == MethodView::Post(
                session_path(self.url@, session_id@, "/window/new"@),
                "{\"type\":\""@ + window_type@ + "\"}"@,
            ),
    {
        Method::Post(
            self.session_uri(session_id, "/window/new"),
            framed("{\"type\":\"", window_type, "\"}"),
        )
    }

    /// The request that switches to a frame.
    pub fn switch_to_frame(&self, session_id: &str, id: SwitchToFrame) -> (m: Method)
        ensures
            m@ == MethodView::Post(
                session_path(self.url@, session_id@, "/frame"@),
                frame_body(id),
            ),
    {
        let body = match id {
            SwitchToFrame::Null => String::from_str("{\"id\":null}"),
            SwitchToFrame::Number(n) => {
                let digits = unsigned_to_text(n as u64);
                framed("{\"id\":", digits.as_str(), "}")
            },
            SwitchToFrame::Element(s) => framed("{\"id\":\"", s.as_str(), "\"}"),
        };
        Method::Post(self.session_uri(session_id, "/frame"), body)
    }

    /// The request that switches to the frame above the current one.
    pub fn switch_to_parent_frame(&self, session_id: &str) -> (m: Method)
        ensures
            m@ == MethodView::Post(
                session_path(self.url@, session_id@, "/frame/parent"@),
                "{}"@,
            ),
    {
        Method::Post(self.session_uri(session_id, "/frame/parent"), String::from_str("{}"))
    }

    /// The request for the place and the size of the window.
    pub fn get_window_rect(&self, session_id: &str) -> (m: Method)
        ensures
            m@ == MethodView::Get(session_path(self.url@, session_id@, "/window/rect"@)),
    {
        Method::Get(self.session_uri(session_id, "/window/rect"))
    }

    /// The request that places and sizes the window; `rect` is the rectangle
    /// as JSON text.
    pub fn set_window_rect(&self, session_id: &str, rect: &str) -> (m: Method)
        ensures
            m@ == MethodView::Post(
                session_path(self.url@, session_id@, "/window/rect"@),
                rect@,
            ),
    {
        Method::Post(self.session_uri(session_id, "/window/rect"), String::from_str(rect))
    }

    /// The request that makes the window as large as the screen.
    pub fn maximize_window(&self, session_id: &str) -> (m: Method)
        ensures
            m@ == MethodView::Post(
                session_path(self.url@, session_id@, "/window/maximize"@),
                ""@,
            ),
    {
        Method::Post(self.session_uri(session_id, "/window/maximize"), String::from_str(""))
    }

    /// The request that hides the window.
    pub fn minimize_window(&self, session_id: &str) -> (m: Method)
        ensures
            m@ == MethodView::Post(
                session_path(self.url@, session_id@, "/window/minimize"@),
                ""@,
            ),
    {
        Method::Post(self.session_uri(session_id, "/window/minimize"), String::from_str(""))
    }

    /// The request that lets the window fill the screen.
    pub fn fullscreen_window(&self, session_id: &str) -> (m: Method)
        ensures
            m@ == MethodView::Post(
                session_path(self.url@, session_id@, "/window/fullscreen"@),
                ""@,
            ),
    {
        Method::Post(self.session_uri(session_id, "/window/fullscreen"), String::from_str(""))
    }

    /// The request that looks for one element in the page.
    pub fn find_element(&self, session_id: &str, by: By<'_>) -> (m: Method)
        ensures
            m@ == MethodView::Post(
                session_path(self.url@, session_id@, "/element"@),
                rendered(locator_json(by)),
            ),
    {
        Method::Post(self.session_uri(session_id, "/element"), locator(&by).render())
    }

    /// The request that looks for all matching elements in the page.
    pub fn find_elements(&self, session_id: &str, by: By<'_>) -> (m: Method)
        ensures
            m@ == MethodView::Post(
                session_path(self.url@, session_id@, "/elements"@),
                rendered(locator_json(by)),
            ),
    {
        Method::Post(self.session_uri(session_id, "/elements"), locator(&by).render())
    }

    /// The request that looks for one element below an element.
    pub fn find_element_from_element(
        &self,
        session_id: &str,
        element_id: &str,
        by: By<'_>,
    ) -> (m: Method)
        ensures
            m@ == MethodView::Post(
                element_path(self.url@, session_id@, element_id@, "/element"@),
                rendered(locator_json(by)),
            ),
    {
        Method::Post(self.element_uri(session_id, element_id, "/element"), locator(&by).render())
    }

    /// The request that looks for all matching elements below an element.
    pub fn find_elements_from_element(
        &self,
        session_id: &str,
        element_id: &str,
        by: By<'_>,
    ) -> (m: Method)
        ensures
            m@ == MethodView::Post(
                element_path(self.url@, session_id@, element_id@, "/elements"@),
                rendered(locator_json(by)),
            ),
    {
        Method::Post(self.element_uri(session_id, element_id, "/elements"), locator(&by).render())
    }

    /// The request for the element that has the focus.
    pub fn get_active_element(&self, session_id: &str) -> (m: Method)
        ensures
            m@ == MethodView::Get(session_path(self.url@, session_id@, "/element/active"@)),
    {
        Method::Get(self.session_uri(session_id, "/element/active"))
    }

    /// The request for the shadow root of an element.
    pub fn get_element_shadow_root(&self, session_id: &str, element_id: &str) -> (m: Method)
        ensures
            m@ == MethodView::Get(element_path(self.url@, session_id@, element_id@, "/shadow"@)),
    {
        Method::Get(self.element_uri(session_id, element_id, "/shadow"))
    }

    /// The request that looks for one element below a shadow root.
    pub fn find_element_from_shadow_root(
        &self,
        session_id: &str,
        shadow_id: &str,
        by: By<'_>,
    ) -> (m: Method)
        ensures
            m@ == MethodView::Post(
                shadow_path(self.url@, session_id@, shadow_id@, "/element"@),
                rendered(locator_json(by)),
            ),
    {
        Method::Post(self.shadow_uri(session_id, shadow_id, "/element"), locator(&by).render())
    }

    /// The request that looks for all matching elements below a shadow root.
    pub fn find_elements_from_shadow_root(
        &self,
        session_id: &str,
        shadow_id: &str,
        by: By<'_>,
    ) -> (m: Method)
        ensures
            m@ == MethodView::Post(
                shadow_path(self.url@, session_id@, shadow_id@, "/elements"@),
                rendered(locator_json(by)),
            ),
    {
        Method::Post(self.shadow_uri(session_id, shadow_id, "/elements"), locator(&by).render())
    }

    /// The request that asks whether an element is selected.
    pub fn is_element_selected(&self, session_id: &str, element_id: &str) -> (m: Method)
        ensures
            m@ == MethodView::Get(element_path(self.url@, session_id@, element_id@, "/selected"@)),
    {
        Method::Get(self.element_uri(session_id, element_id, "/selected"))
    }

    /// The request for an attribute of an element.
    pub fn get_element_attribute(&self, session_id: &str, element_id: &str, name: &str) -> (m: Method)
        ensures
            m@ == MethodView::Get(
                element_path(self.url@, session_id@, element_id@, "/attribute/"@ + name@),
            ),
    {
        let mut uri = self.element_uri(session_id, element_id, "/attribute/");
        uri.append(name);
        assert(uri@ =~= element_path(self.url@, session_id@, element_id@, "/attribute/"@ + name@));
        Method::Get(uri)
    }

    /// The request for a property of an element.
    pub fn get_element_property(&self, session_id: &str, element_id: &str, name: &str) -> (m: Method)
        ensures
            m@ == MethodView::Get(
                element_path(self.url@, session_id@, element_id@, "/property/"@ + name@),
            ),
    {
        let mut uri = self.element_uri(session_id, element_id, "/property/");
        uri.append(name);
        assert(uri@ =~= element_path(self.url@, session_id@, element_id@, "/property/"@ + name@));
        Method::Get(uri)
    }

    /// The request for a computed style of an element.
    pub fn get_element_css_value(&self, session_id: &str, element_id: &str, name: &str) -> (m: Method)
        ensures
            m@ == MethodView::Get(
                element_path(self.url@, session_id@, element_id@, "/css/"@ + name@),
            ),
    {
        let mut uri = self.element_uri(session_id, element_id, "/css/");
        uri.append(name);
        assert(uri@ =~= element_path(self.url@, session_id@, element_id@, "/css/"@ + name@));
        Method::Get(uri)
    }

    /// The request for the text of an element.
    pub fn get_element_text(&self, session_id: &str, element_id: &str) -> (m: Method)
        ensures
            m@ == MethodView::Get(element_path(self.url@, session_id@, element_id@, "/text"@)),
    {
        Method::Get(self.element_uri(session_id, element_id, "/text"))
    }

    /// The request for the tag name of an element.
    pub fn get_element_tag_name(&self, session_id: &str, element_id: &str) -> (m: Method)
        ensures
            m@ == MethodView::Get(element_path(self.url@, session_id@, element_id@, "/name"@)),
    {
        Method::Get(self.element_uri(session_id, element_id, "/name"))
    }

    /// The request for the place and the size of an element.
    pub fn get_element_rect(&self, session_id: &str, element_id: &str) -> (m: Method)
        ensures
            m@ == MethodView::Get(element_path(self.url@, session_id@, element_id@, "/rect"@)),
    {
        Method::Get(self.element_uri(session_id, element_id, "/rect"))
    }

    /// The request that asks whether an element is enabled.
    pub fn is_element_enabled(&self, session_id: &str, element_id: &str) -> (m: Method)
        ensures
            m@ == MethodView::Get(element_path(self.url@, session_id@, element_id@, "/enabled"@)),
    {
        Method::Get(self.element_uri(session_id, element_id, "/enabled"))
    }

    /// The request that clicks an element.
    pub fn element_click(&self, session_id: &str, element_id: &str) -> (m: Method)
        ensures
            m@ == MethodView::Post(
                element_path(self.url@, session_id@, element_id@, "/click"@),
                "{}"@,
            ),
    {
        Method::Post(self.element_uri(session_id, element_id, "/click"), String::from_str("{}"))
    }

    /// The request that empties an element.
    pub fn element_clear(&self, session_id: &str, element_id: &str) -> (m: Method)
        ensures
            m@ == MethodView::Post(
                element_path(self.url@, session_id@, element_id@, "/clear"@),
                "{}"@,
            ),
    {
        Method::Post(self.element_uri(session_id, element_id, "/clear"), String::from_str("{}"))
    }

    /// The request that types `keys` into an element. The characters go into
    /// the body as they are.
    pub fn element_send_keys(&self, session_id: &str, element_id: &str, keys: &str) -> (m: Method)
        ensures
            m@ == MethodView::Post(
                element_path(self.url@, session_id@, element_id@, "/value"@),
                keys_body(keys@),
            ),
    {
        let mut body = framed("{\"text\":\"", keys, "\",\"value\":[");
        let ghost head = body@;
        let n = keys.unicode_len();
        let mut i: usize = 0;
        while i < n
            invariant
                n == keys@.len(),
                i <= n,
                body@ == head + quoted_keys(keys@.take(i as int)),
            decreases n - i,
        {
            if i > 0 {
                body.append(",");
            }
            body.append("\"");
            push_char(&mut body, keys.get_char(i));
            body.append("\"");
            proof {
                assert(keys@.take(i as int + 1).drop_last() =~= keys@.take(i as int));
                assert(keys@.take(i as int + 1).last() == keys@[i as int]);
                assert(keys@.take(i as int + 1)[0] == keys@[0]);
                assert(body@ =~= head + quoted_keys(keys@.take(i as int + 1)));
            }
            i += 1;
        }
        assert(keys@.take(n as int) =~= keys@);
        body.append("]}");
        Method::Post(self.element_uri(session_id, element_id, "/value"), body)
    }

    /// The request for the source of the page.
    pub fn get_page_source(&self, session_id: &str) -> (m: Method)
        ensures
            m@ == MethodView::Get(session_path(self.url@, session_id@, "/source"@)),
    {
        Method::Get(self.session_uri(session_id, "/source"))
    }

    /// The request that runs a script and waits for its result.
    pub fn execute_script(&self, session_id: &str, script: &str, args: &[&str]) -> (m: Method)
        ensures
            m@ == MethodView::Post(
                session_path(self.url@, session_id@, "/execute/sync"@),
                rendered(script_json(script@, text_items(str_views(args@)))),
            ),
    {
        Method::Post(
            self.session_uri(session_id, "/execute/sync"),
            script_body(script, text_arguments(args)),
        )
    }

    /// The request that runs a script which reports its result through a
    /// callback.
    pub fn execute_async_script(&self, session_id: &str, script: &str, args: &[&str]) -> (m: Method)
        ensures
            m@ == MethodView::Post(
                session_path(self.url@, session_id@, "/execute/async"@),
                rendered(script_json(script@, text_items(str_views(args@)))),
            ),
    {
        Method::Post(
            self.session_uri(session_id, "/execute/async"),
            script_body(script, text_arguments(args)),
        )
    }

    /// The request that sets a timeout of the session.
    pub fn set_timeouts(&self, session_id: &str, timeout: TimeoutType) -> (m: Method)
        ensures
            m@ == MethodView::Post(
                session_path(self.url@, session_id@, "/timeouts"@),
                timeout_body(timeout),
            ),
    {
        let body = match timeout {
            TimeoutType::Script(t) => {
                let digits = unsigned_to_text(t as u64);
                framed("{\"script\":", digits.as_str(), "}")
            },
            TimeoutType::PageLoad(t) => {
                let digits = unsigned_to_text(t as u64);
                framed("{\"pageLoad\":", digits.as_str(), "}")
            },
            TimeoutType::Implicit(t) => {
                let digits = unsigned_to_text(t as u64);
                framed("{\"implicit\":", digits.as_str(), "}")
            },
        };
        Method::Post(self.session_uri(session_id, "/timeouts"), body)
    }

    /// The request for the timeouts of the session.
    pub fn get_timouts(&self, session_id: &str) -> (m: Method)
        ensures
            m@ == MethodView::Get(session_path(self.url@, session_id@, "/timeouts"@)),
    {
        Method::Get(self.session_uri(session_id, "/timeouts"))
    }

    /// The request that dismisses the open dialog.
    pub fn dismiss_alert(&self, session_id: &str) -> (m: Method)
        ensures
            m@ == MethodView::Post(
                session_path(self.url@, session_id@, "/alert/dismiss"@),
                "{}"@,
            ),
    {
        Method::Post(self.session_uri(session_id, "/alert/dismiss"), String::from_str("{}"))
    }

    /// The request that accepts the open dialog.
    pub fn accept_alert(&self, session_id: &str) -> (m: Method)
        ensures
            m@ == MethodView::Post(
                session_path(self.url@, session_id@, "/alert/accept"@),
                "{}"@,
            ),
    {
        Method::Post(self.session_uri(session_id, "/alert/accept"), String::from_str("{}"))
    }

    /// The request for the text of the open dialog.
    pub fn get_alert_text(&self, session_id: &str) -> (m: Method)
        ensures
            m@ == MethodView::Get(session_path(self.url@, session_id@, "/alert/text"@)),
    {
        Method::Get(self.session_uri(session_id, "/alert/text"))
    }

    /// The request that types `text` into the open prompt.
    pub fn send_alert_text(&self, session_id: &str, text: &str) -> (m: Method)
        ensures
            m@ == MethodView::Post(
                session_path(self.url@, session_id@, "/alert/text"@),
                "{\"text\":\""@ + text@ + "\"}"@,
            ),
    {
        Method::Post(
            self.session_uri(session_id, "/alert/text"),
            framed("{\"text\":\"", text, "\"}"),
        )
    }

    /// The request for a picture of the page.
    pub fn take_screenshot(&self, session_id: &str) -> (m: Method)
        ensures
            m@ == MethodView::Get(session_path(self.url@, session_id@, "/screenshot"@)),
    {
        Method::Get(self.session_uri(session_id, "/screenshot"))
    }

    /// The request for a picture of an element.
    pub fn take_element_screenshot(&self, session_id: &str, element_id: &str) -> (m: Method)
        ensures
            m@ == MethodView::Get(
                element_path(self.url@, session_id@, element_id@, "/screenshot"@),
            ),
    {
        Method::Get(self.element_uri(session_id, element_id, "/screenshot"))
    }

    /// The request that asks whether an element is displayed, by running
    /// `atom`, the source of the function that decides it, on the element.
    pub fn is_element_displayed(&self, session_id: &str, element: Origin, atom: &str) -> (m: Method)
        ensures
            m@ == MethodView::Post(
                session_path(self.url@, session_id@, "/execute/sync"@),
                rendered(script_json(displayed_script(atom@), seq![origin_json(element@)])),
            ),
    {
        let script = framed("return (", atom, ").apply(null, arguments);");
        let mut args: Vec<Json> = Vec::new();
        add_item(&mut args, element.to_json());
        assert(item_views(args@) =~= seq![origin_json(element@)]);
        Method::Post(
            self.session_uri(session_id, "/execute/sync"),
            script_body(script.as_str(), args),
        )
    }

}

} // verus!
