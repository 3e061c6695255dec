//! The options of Safari.
use vstd::prelude::*;
use vstd::string::*;
use crate::json::{rendered, Json, JsonView};
use crate::option::{
    capability_json, initial_settings, well_formed, with_entry, Browser, BrowserOption, Proxy, Settings,
    SettingsView,
};

verus! {

/// Gathers the options of Safari.
pub struct SafariBuilder {
    pub settings: Settings,
}

/// The options of Safari, as a session is asked for with them.
pub struct SafariOption {
    pub settings: Settings,
}

impl View for SafariBuilder {
    type V = SettingsView;

    open spec fn view(&self) -> SettingsView {
        self.settings@
    }
}

impl View for SafariOption {
    type V = SettingsView;

    open spec fn view(&self) -> SettingsView {
        self.settings@
    }
}

impl SafariBuilder {
    /// A builder with nothing set and a timeout of ten seconds.
    pub fn new() -> (b: SafariBuilder)
        ensures
            b@ == initial_settings(),
            well_formed(b@),
    {
        SafariBuilder { settings: Settings::new() }
    }

    /// Sets the address of a remote endpoint. It takes precedence over a
    /// driver.
    pub fn url(self, url: &str) -> (b: SafariBuilder)
        ensures
            b@ == (SettingsView { url: Some(url@), ..self@ }),
            well_formed(b@),
    {
        SafariBuilder { settings: self.settings.with_url(url) }
    }

    /// Sets the path of the driver executable.
    pub fn driver(self, path: &str) -> (b: SafariBuilder)
        ensures
            b@ == (SettingsView { driver: Some(path@), ..self@ }),
            well_formed(b@),
    {
        SafariBuilder { settings: self.settings.with_driver(path) }
    }

    /// Sets the path of the browser executable.
    pub fn binary(self, binary: &str) -> (b: SafariBuilder)
        ensures
            b@ == (SettingsView { binary: Some(binary@), ..self@ }),
            well_formed(b@),
    {
        SafariBuilder { settings: self.settings.with_binary(binary) }
    }

    /// Sets the proxy.
    pub fn proxy(self, proxy: Proxy) -> (b: SafariBuilder)
        ensures
            b@ == (SettingsView { proxy: Some(proxy@), ..self@ }),
            well_formed(b@),
    {
        SafariBuilder { settings: self.settings.with_proxy(proxy) }
    }

    /// Sets the timeout of each request, in seconds.
    pub fn timeout(self, timeout: u64) -> (b: SafariBuilder)
        ensures
            b@ == (SettingsView { timeout, ..self@ }),
            well_formed(b@),
    {
        SafariBuilder { settings: self.settings.with_timeout(timeout) }
    }

    /// Sets a variable of the driver's environment, which is otherwise
    /// inherited.
    pub fn add_env(self, key: &str, value: &str) -> (b: SafariBuilder)
        ensures
            b@ == (SettingsView { env: with_entry(self@.env, key@, value@), ..self@ }),
            well_formed(b@),
    {
        SafariBuilder { settings: self.settings.add_env(key, value) }
    }

    /// The options that were gathered.
    pub fn build(self) -> (o: SafariOption)
        ensures
            o@ == self@,
            well_formed(o@),
    {
        SafariOption { settings: self.settings.sealed() }
    }
}

impl BrowserOption for SafariOption {
    open spec fn spec_url(&self) -> Option<Seq<char>> {
        self@.url
    }

    open spec fn spec_driver(&self) -> Option<Seq<char>> {
        self@.driver
    }

    open spec fn spec_env(&self) -> Seq<(Seq<char>, Seq<char>)> {
        self@.env
    }

    open spec fn spec_browser(&self) -> Browser {
        Browser::Safari
    }

    open spec fn spec_timeout(&self) -> u64 {
        self@.timeout
    }

    open spec fn capability(&self) -> JsonView {
        capability_json(Browser::Safari, self@)
    }

    fn url(&self) -> (r: Option<&str>) {
        self.settings.url()
    }

    fn driver(&self) -> (r: Option<&str>) {
        self.settings.driver()
    }

    fn env(&self) -> (r: &Vec<(String, String)>) {
        self.settings.env()
    }

    fn browser(&self) -> (r: Browser) {
        Browser::Safari
    }

    fn timeout(&self) -> (r: u64) {
        self.settings.timeout()
    }

    fn to_json(&self) -> (j: Json) {
        self.settings.capability(Browser::Safari)
    }
}

impl SafariOption {
    /// The capabilities that ask for the browser, as compact JSON text.
    pub fn to_string(&self) -> (text: String)
        ensures
            text@ == rendered(capability_json(Browser::Safari, self@)),
    {
        self.settings.capability(Browser::Safari).render()
    }
}

} // verus!
