//! The options of Chrome.
use vstd::prelude::*;
use vstd::string::*;
use crate::json::{rendered, Json, JsonView};
use crate::option::{
    capability_json, initial_settings, well_formed, with_entry, Browser, BrowserOption, MultipleTypeMapValue,
    PrefView, Proxy, Settings, SettingsView,
};

verus! {

/// Gathers the options of Chrome.
pub struct ChromeBuilder {
    pub settings: Settings,
}

/// The options of Chrome, as a session is asked for with them.
pub struct ChromeOption {
    pub settings: Settings,
}

impl View for ChromeBuilder {
    type V = SettingsView;

    open spec fn view(&self) -> SettingsView {
        self.settings@
    }
}

impl View for ChromeOption {
    type V = SettingsView;

    open spec fn view(&self) -> SettingsView {
        self.settings@
    }
}

impl ChromeBuilder {
    /// A builder with nothing set and a timeout of ten seconds.
    pub fn new() -> (b: ChromeBuilder)
        ensures
            b@ == initial_settings(),
            well_formed(b@),
    {
        ChromeBuilder { settings: Settings::new() }
    }

    /// Sets the address of a remote endpoint. It takes precedence over a
    /// driver.
    pub fn url(self, url: &str) -> (b: ChromeBuilder)
        ensures
            b@ == (SettingsView { url: Some(url@), ..self@ }),
            well_formed(b@),
    {
        ChromeBuilder { settings: self.settings.with_url(url) }
    }

    /// Sets the path of the driver executable.
    pub fn driver(self, path: &str) -> (b: ChromeBuilder)
        ensures
            b@ == (SettingsView { driver: Some(path@), ..self@ }),
            well_formed(b@),
    {
        ChromeBuilder { settings: self.settings.with_driver(path) }
    }

    /// Sets the path of the browser executable.
    pub fn binary(self, binary: &str) -> (b: ChromeBuilder)
        ensures
            b@ == (SettingsView { binary: Some(binary@), ..self@ }),
            well_formed(b@),
    {
        ChromeBuilder { settings: self.settings.with_binary(binary) }
    }

    /// Sets the proxy.
    pub fn proxy(self, proxy: Proxy) -> (b: ChromeBuilder)
        ensures
            b@ == (SettingsView { proxy: Some(proxy@), ..self@ }),
            well_formed(b@),
    {
        ChromeBuilder { settings: self.settings.with_proxy(proxy) }
    }

    /// Sets the timeout of each request, in seconds.
    pub fn timeout(self, timeout: u64) -> (b: ChromeBuilder)
        ensures
            b@ == (SettingsView { timeout, ..self@ }),
            well_formed(b@),
    {
        ChromeBuilder { settings: self.settings.with_timeout(timeout) }
    }

    /// Sets a variable of the driver's environment, which is otherwise
    /// inherited.
    pub fn add_env(self, key: &str, value: &str) -> (b: ChromeBuilder)
        ensures
            b@ == (SettingsView { env: with_entry(self@.env, key@, value@), ..self@ }),
            well_formed(b@),
    {
        ChromeBuilder { settings: self.settings.add_env(key, value) }
    }

    /// The options that were gathered.
    pub fn build(self) -> (o: ChromeOption)
        ensures
            o@ == self@,
            well_formed(o@),
    {
        ChromeOption { settings: self.settings.sealed() }
    }

    /// Appends an argument for the command line of the browser.
    pub fn add_argument(self, arg: &str) -> (b: ChromeBuilder)
        ensures
            b@ == (SettingsView { arguments: self@.arguments.push(arg@), ..self@ }),
            well_formed(b@),
    {
        ChromeBuilder { settings: self.settings.add_argument(arg) }
    }

    /// Sets a preference to a number.
    pub fn add_pref_i32(self, key: &str, value: i32) -> (b: ChromeBuilder)
        ensures
            b@ == (SettingsView {
                pref: with_entry(self@.pref, key@, PrefView::Number(value)),
                ..self@
            }),
            well_formed(b@),
    {
        ChromeBuilder { settings: self.settings.add_pref(key, MultipleTypeMapValue::Number(value)) }
    }

    /// Sets a preference to a text.
    pub fn add_pref_string(self, key: &str, value: &str) -> (b: ChromeBuilder)
        ensures
            b@ == (SettingsView {
                pref: with_entry(self@.pref, key@, PrefView::String(value@)),
                ..self@
            }),
            well_formed(b@),
    {
        ChromeBuilder {
            settings: self.settings.add_pref(
                key,
                MultipleTypeMapValue::String(String::from_str(value)),
            ),
        }
    }

    /// Lets the browser run without a window.
    pub fn head_less(self) -> (b: ChromeBuilder)
        ensures
            b@ == (SettingsView { arguments: self@.arguments.push("--headless=new"@), ..self@ }),
            well_formed(b@),
    {
        self.add_argument("--headless=new")
    }

    /// Lets the browser run in private mode.
    pub fn private(self) -> (b: ChromeBuilder)
        ensures
            b@ == (SettingsView { arguments: self@.arguments.push("--incognito"@), ..self@ }),
            well_formed(b@),
    {
        self.add_argument("--incognito")
    }
}

impl BrowserOption for ChromeOption {
    open spec fn spec_url(&self) -> Option<Seq<char>> {
        self@.url
    }

    open spec fn spec_driver(&self) -> Option<Seq<char>> {
        self@.driver
    }

    open spec fn spec_env(&self) -> Seq<(Seq<char>, Seq<char>)> {
        self@.env
    }

    open spec fn spec_browser(&self) -> Browser {
        Browser::Chrome
    }

    open spec fn spec_timeout(&self) -> u64 {
        self@.timeout
    }

    open spec fn capability(&self) -> JsonView {
        capability_json(Browser::Chrome, self@)
    }

    fn url(&self) -> (r: Option<&str>) {
        self.settings.url()
    }

    fn driver(&self) -> (r: Option<&str>) {
        self.settings.driver()
    }

    fn env(&self) -> (r: &Vec<(String, String)>) {
        self.settings.env()
    }

    fn browser(&self) -> (r: Browser) {
        Browser::Chrome
    }

    fn timeout(&self) -> (r: u64) {
        self.settings.timeout()
    }

    fn to_json(&self) -> (j: Json) {
        self.settings.capability(Browser::Chrome)
    }
}

impl ChromeOption {
    /// The capabilities that ask for the browser, as compact JSON text.
    pub fn to_string(&self) -> (text: String)
        ensures
            text@ == rendered(capability_json(Browser::Chrome, self@)),
    {
        self.settings.capability(Browser::Chrome).render()
    }
}

} // verus!
