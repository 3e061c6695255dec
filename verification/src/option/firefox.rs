//! The options of Firefox.
use vstd::prelude::*;
use vstd::string::*;
use crate::base64::{encode, encoded};
use crate::http::framed;
use crate::json::{rendered, text_views, Json, JsonView};
use crate::option::{
    capability_json, initial_settings, pref_views, well_formed, with_entry, Browser, BrowserOption, MultipleTypeMapValue,
    PrefView, Proxy, Settings, SettingsView,
};
use crate::profile::{archived, file_views, names_differ, pack, packed, takes};
use crate::text::{append_part, joined, joined_push, signed_decimal, signed_to_text};
use crate::SError;

verus! {

/// Gathers the options of Firefox.
pub struct FirefoxBuilder {
    pub settings: Settings,
}

/// The options of Firefox, as a session is asked for with them.
pub struct FirefoxOption {
    pub settings: Settings,
}

impl View for FirefoxBuilder {
    type V = SettingsView;

    open spec fn view(&self) -> SettingsView {
        self.settings@
    }
}

impl View for FirefoxOption {
    type V = SettingsView;

    open spec fn view(&self) -> SettingsView {
        self.settings@
    }
}

/// A preference value in short: a number as it is, a text between double
/// quotes.
pub open spec fn brief_value(value: PrefView) -> Seq<char> {
    match value {
        PrefView::Number(n) => signed_decimal(n as int),
        PrefView::String(s) => "\""@ + s + "\""@,
    }
}

/// The preferences in short: each a name between double quotes, a colon, a
/// space and the value.
pub open spec fn brief_prefs(pref: Seq<(Seq<char>, PrefView)>) -> Seq<Seq<char>> {
    Seq::new(pref.len(), |i: int| "\""@ + pref[i].0 + "\": "@ + brief_value(pref[i].1))
}

/// The arguments in short: each between double quotes.
pub open spec fn brief_arguments(arguments: Seq<Seq<char>>) -> Seq<Seq<char>> {
    Seq::new(arguments.len(), |i: int| "\""@ + arguments[i] + "\""@)
}

/// The preferences and the arguments of Firefox in short.
pub open spec fn brief_text(s: SettingsView) -> Seq<char> {
    "{\"browserName\": \"firefox\",\"moz:firefoxOptions\":{\"prefs\": { "@ + joined(
        brief_prefs(s.pref),
        ","@,
    ) + " },\"args\":["@ + joined(brief_arguments(s.arguments), ","@) + "] }}"@
}

impl FirefoxBuilder {
    /// A builder with nothing set and a timeout of ten seconds.
    pub fn new() -> (b: FirefoxBuilder)
        ensures
            b@ == initial_settings(),
            well_formed(b@),
    {
        FirefoxBuilder { settings: Settings::new() }
    }

    /// Sets the address of a remote endpoint. It takes precedence over a
    /// driver.
    pub fn url(self, url: &str) -> (b: FirefoxBuilder)
        ensures
            b@ == (SettingsView { url: Some(url@), ..self@ }),
            well_formed(b@),
    {
        FirefoxBuilder { settings: self.settings.with_url(url) }
    }

    /// Sets the path of the driver executable.
    pub fn driver(self, path: &str) -> (b: FirefoxBuilder)
        ensures
            b@ == (SettingsView { driver: Some(path@), ..self@ }),
            well_formed(b@),
    {
        FirefoxBuilder { settings: self.settings.with_driver(path) }
    }

    /// Sets the path of the browser executable.
    pub fn binary(self, binary: &str) -> (b: FirefoxBuilder)
        ensures
            b@ == (SettingsView { binary: Some(binary@), ..self@ }),
            well_formed(b@),
    {
        FirefoxBuilder { settings: self.settings.with_binary(binary) }
    }

    /// Sets the proxy.
    pub fn proxy(self, proxy: Proxy) -> (b: FirefoxBuilder)
        ensures
            b@ == (SettingsView { proxy: Some(proxy@), ..self@ }),
            well_formed(b@),
    {
        FirefoxBuilder { settings: self.settings.with_proxy(proxy) }
    }

    /// Sets the timeout of each request, in seconds.
    pub fn timeout(self, timeout: u64) -> (b: FirefoxBuilder)
        ensures
            b@ == (SettingsView { timeout, ..self@ }),
            well_formed(b@),
    {
        FirefoxBuilder { settings: self.settings.with_timeout(timeout) }
    }

    /// Sets a variable of the driver's environment, which is otherwise
    /// inherited.
    pub fn add_env(self, key: &str, value: &str) -> (b: FirefoxBuilder)
        ensures
            b@ == (SettingsView { env: with_entry(self@.env, key@, value@), ..self@ }),
            well_formed(b@),
    {
        FirefoxBuilder { settings: self.settings.add_env(key, value) }
    }

    /// The options that were gathered.
    pub fn build(self) -> (o: FirefoxOption)
        ensures
            o@ == self@,
            well_formed(o@),
    {
        FirefoxOption { settings: self.settings.sealed() }
    }

    /// Appends an argument for the command line of the browser.
    pub fn add_argument(self, arg: &str) -> (b: FirefoxBuilder)
        ensures
            b@ == (SettingsView { arguments: self@.arguments.push(arg@), ..self@ }),
            well_formed(b@),
    {
        FirefoxBuilder { settings: self.settings.add_argument(arg) }
    }

    /// Sets a preference to a number.
    pub fn add_pref_i32(self, key: &str, value: i32) -> (b: FirefoxBuilder)
        ensures
            b@ == (SettingsView {
                pref: with_entry(self@.pref, key@, PrefView::Number(value)),
                ..self@
            }),
            well_formed(b@),
    {
        FirefoxBuilder { settings: self.settings.add_pref(key, MultipleTypeMapValue::Number(value)) }
    }

    /// Sets a preference to a text.
    pub fn add_pref_string(self, key: &str, value: &str) -> (b: FirefoxBuilder)
        ensures
            b@ == (SettingsView {
                pref: with_entry(self@.pref, key@, PrefView::String(value@)),
                ..self@
            }),
            well_formed(b@),
    {
        FirefoxBuilder {
            settings: self.settings.add_pref(
                key,
                MultipleTypeMapValue::String(String::from_str(value)),
            ),
        }
    }

    /// Lets the browser run without a window.
    pub fn head_less(self) -> (b: FirefoxBuilder)
        ensures
            b@ == (SettingsView { arguments: self@.arguments.push("-headless"@), ..self@ }),
            well_formed(b@),
    {
        self.add_argument("-headless")
    }

    /// Lets the browser run without a window.
    pub fn head_leass(self) -> (b: FirefoxBuilder)
        ensures
            b@ == (SettingsView { arguments: self@.arguments.push("-headless"@), ..self@ }),
            well_formed(b@),
    {
        self.add_argument("-headless")
    }

    /// Lets the browser run in private mode.
    pub fn private(self) -> (b: FirefoxBuilder)
        ensures
            b@ == (SettingsView { arguments: self@.arguments.push("--private-window"@), ..self@ }),
            well_formed(b@),
    {
        self.add_argument("--private-window")
    }

    /// Keeps style sheets from loading.
    pub fn disable_css(self) -> (b: FirefoxBuilder)
        ensures
            b@ == (SettingsView {
                pref: with_entry(self@.pref, "permissions.default.stylesheet"@, PrefView::Number(2)),
                ..self@
            }),
            well_formed(b@),
    {
        self.add_pref_i32("permissions.default.stylesheet", 2)
    }

    /// Keeps images from loading.
    pub fn disable_image(self) -> (b: FirefoxBuilder)
        ensures
            b@ == (SettingsView {
                pref: with_entry(self@.pref, "permissions.default.image"@, PrefView::Number(2)),
                ..self@
            }),
            well_formed(b@),
    {
        self.add_pref_i32("permissions.default.image", 2)
    }

    /// Switches JavaScript off.
    pub fn disable_javascript(self) -> (b: FirefoxBuilder)
        ensures
            b@ == (SettingsView {
                pref: with_entry(self@.pref, "javascript.enabled"@, PrefView::String("false"@)),
                ..self@
            }),
            well_formed(b@),
    {
        self.add_pref_string("javascript.enabled", "false")
    }

    /// Sets the host of a remote endpoint.
    pub fn host(self, host: &str) -> (b: FirefoxBuilder)
        ensures
            b@ == (SettingsView { host: Some(host@), ..self@ }),
            well_formed(b@),
    {
        FirefoxBuilder { settings: self.settings.with_host(host) }
    }

    /// Sets the port of a remote endpoint.
    pub fn port(self, port: u32) -> (b: FirefoxBuilder)
        ensures
            b@ == (SettingsView { port: Some(port), ..self@ }),
            well_formed(b@),
    {
        FirefoxBuilder { settings: self.settings.with_port(port) }
    }

    /// Sets the path of the browser executable.
    pub fn execute(self, path: &str) -> (b: FirefoxBuilder)
        ensures
            b@ == (SettingsView { binary: Some(path@), ..self@ }),
            well_formed(b@),
    {
        self.binary(path)
    }

    /// Sets the profile to a zip archive of a profile directory: the options
    /// carry it as base64.
    pub fn profile_archive(self, archive: &[u8]) -> (b: FirefoxBuilder)
        ensures
            b@ == (SettingsView { profile: Some(encoded(archive@)), ..self@ }),
            well_formed(b@),
    {
        FirefoxBuilder { settings: self.settings.with_profile(encode(archive)) }
    }

    /// Sets the profile to the files of a profile directory, each with its
    /// path below the directory and its content: they are packed into a zip
    /// archive, which the options carry as base64.
    ///
    /// Whether the archive can be written is for the archiver to say.
    pub fn set_profile(self, files: &Vec<(String, Vec<u8>)>) -> (r: Result<FirefoxBuilder, SError>)
        ensures
            r is Ok <==> takes(archived(file_views(files@))),
            r is Ok ==> names_differ(archived(file_views(files@))),
            match r {
                Ok(b) => b@ == (SettingsView {
                    profile: Some(encoded(packed(archived(file_views(files@)))->Some_0)),
                    ..self@
                }),
                Err(e) => e@ is Message,
            },
    {
        match pack(files) {
            Ok(archive) => Ok(self.profile_archive(archive.as_slice())),
            Err(e) => Err(e),
        }
    }
}

impl BrowserOption for FirefoxOption {
    open spec fn spec_url(&self) -> Option<Seq<char>> {
        self@.url
    }

    open spec fn spec_driver(&self) -> Option<Seq<char>> {
        self@.driver
    }

    open spec fn spec_env(&self) -> Seq<(Seq<char>, Seq<char>)> {
        self@.env
    }

    open spec fn spec_browser(&self) -> Browser {
        Browser::Firefox
    }

    open spec fn spec_timeout(&self) -> u64 {
        self@.timeout
    }

    open spec fn capability(&self) -> JsonView {
        capability_json(Browser::Firefox, self@)
    }

    fn url(&self) -> (r: Option<&str>) {
        self.settings.url()
    }

    fn driver(&self) -> (r: Option<&str>) {
        self.settings.driver()
    }

    fn env(&self) -> (r: &Vec<(String, String)>) {
        self.settings.env()
    }

    fn browser(&self) -> (r: Browser) {
        Browser::Firefox
    }

    fn timeout(&self) -> (r: u64) {
        self.settings.timeout()
    }

    fn to_json(&self) -> (j: Json) {
        self.settings.capability(Browser::Firefox)
    }
}

impl FirefoxOption {
    /// The capabilities that ask for the browser, as compact JSON text.
    pub fn to_string(&self) -> (text: String)
        ensures
            text@ == rendered(capability_json(Browser::Firefox, self@)),
    {
        self.settings.capability(Browser::Firefox).render()
    }

    /// The host of a remote endpoint.
    pub fn host(&self) -> (r: Option<&str>)
        ensures
            match r {
                Some(host) => self@.host == Some(host@),
                None => self@.host is None,
            },
    {
        self.settings.host()
    }

    /// The port of a remote endpoint.
    pub fn port(&self) -> (r: Option<u32>)
        ensures
            r == self@.port,
    {
        self.settings.port()
    }

    /// The arguments for the command line of the browser.
    pub fn arguments(&self) -> (r: &Vec<String>)
        ensures
            text_views(r@) == self@.arguments,
    {
        self.settings.arguments()
    }

    /// The path of the browser executable.
    pub fn execute(&self) -> (r: Option<&str>)
        ensures
            match r {
                Some(path) => self@.binary == Some(path@),
                None => self@.binary is None,
            },
    {
        self.settings.binary()
    }

    /// The preferences and the arguments in short: the values as they are,
    /// without escaping.
    pub fn brief(&self) -> (text: String)
        ensures
            text@ == brief_text(self@),
    {
        let mut text = String::from_str(
            "{\"browserName\": \"firefox\",\"moz:firefoxOptions\":{\"prefs\": { ",
        );
        let prefs = self.settings.pref();
        let arguments = self.settings.arguments();
        let ghost head = text@;
        let mut i: usize = 0;
        assert(brief_prefs(self@.pref).take(0) =~= Seq::empty());
        while i < prefs.len()
            invariant
                i <= prefs.len(),
                pref_views(prefs@) == self@.pref,
                text@ == head + joined(brief_prefs(self@.pref).take(i as int), ","@),
            decreases prefs.len() - i,
        {
            let mut part = framed("\"", prefs[i].0.as_str(), "\": ");
            match &prefs[i].1 {
                MultipleTypeMapValue::Number(n) => {
                    let digits = signed_to_text(*n as i64);
                    part.append(digits.as_str());
                },
                MultipleTypeMapValue::String(v) => {
                    let quoted = framed("\"", v.as_str(), "\"");
                    part.append(quoted.as_str());
                },
            }
            proof {
                let parts = brief_prefs(self@.pref);
                assert(part@ =~= parts[i as int]);
                joined_push(parts.take(i as int), part@, ","@);
                assert(parts.take(i as int).push(part@) =~= parts.take(i as int + 1));
            }
            append_part(&mut text, part.as_str(), ",", i == 0);
            assert(text@ =~= head + joined(brief_prefs(self@.pref).take(i as int + 1), ","@));
            i += 1;
        }
        assert(brief_prefs(self@.pref).take(i as int) =~= brief_prefs(self@.pref));
        text.append(" },\"args\":[");
        let ghost head = text@;
        let mut i: usize = 0;
        assert(brief_arguments(self@.arguments).take(0) =~= Seq::empty());
        while i < arguments.len()
            invariant
                i <= arguments.len(),
                text_views(arguments@) == self@.arguments,
                text@ == head + joined(brief_arguments(self@.arguments).take(i as int), ","@),
            decreases arguments.len() - i,
        {
            let part = framed("\"", arguments[i].as_str(), "\"");
            proof {
                let parts = brief_arguments(self@.arguments);
                assert(part@ =~= parts[i as int]);
                joined_push(parts.take(i as int), part@, ","@);
                assert(parts.take(i as int).push(part@) =~= parts.take(i as int + 1));
            }
            append_part(&mut text, part.as_str(), ",", i == 0);
            assert(text@ =~= head + joined(
                brief_arguments(self@.arguments).take(i as int + 1),
                ","@,
            ));
            i += 1;
        }
        assert(brief_arguments(self@.arguments).take(i as int) =~= brief_arguments(
            self@.arguments,
        ));
        text.append("] }}");
        text
    }
}

} // verus!
