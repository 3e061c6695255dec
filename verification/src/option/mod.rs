//! What a session is asked for: the browser, how to reach or start its
//! driver, and the browser's own options, as they go into the capabilities
//! of a new session.
use vstd::prelude::*;
use vstd::string::*;
use crate::json::{
    add_member, add_text, add_u32, member_views, optional_number, optional_text, optional_view,
    pair_views, text_array, text_items, text_members, text_object, text_views, wide_u32, Json,
    JsonView,
};
use crate::text::{same_text, signed_decimal};

pub mod chrome;
pub mod edge;
pub mod firefox;
pub mod safari;

pub use chrome::ChromeBuilder;
pub use chrome::ChromeOption;
pub use edge::EdgeBuilder;
pub use edge::EdgeOption;
pub use firefox::FirefoxBuilder;
pub use firefox::FirefoxOption;
pub use safari::SafariBuilder;
pub use safari::SafariOption;

verus! {

/// The browsers that the client knows.
#[derive(Clone, Copy, Debug, PartialEq, Eq, Structural)]
pub enum Browser {
    Firefox,
    Chrome,
    Safari,
    Edge,
}

impl Browser {
    /// The name of the browser in lower case.
    pub open spec fn name(self) -> Seq<char> {
        match self {
            Browser::Firefox => "firefox"@,
            Browser::Chrome => "chrome"@,
            Browser::Safari => "safari"@,
            Browser::Edge => "edge"@,
        }
    }

    /// The name under which the capabilities ask for the browser.
    pub open spec fn browser_name(self) -> Seq<char> {
        match self {
            Browser::Firefox => "firefox"@,
            Browser::Chrome => "chrome"@,
            Browser::Safari => "Safari"@,
            Browser::Edge => "MicrosoftEdge"@,
        }
    }

    /// The name of the browser in lower case.
    pub fn to_string(&self) -> (name: String)
        ensures
            name@ == self.name(),
    {
        match self {
            Browser::Firefox => String::from_str("firefox"),
            Browser::Chrome => String::from_str("chrome"),
            Browser::Safari => String::from_str("safari"),
            Browser::Edge => String::from_str("edge"),
        }
    }
}

/// The value of a preference: a number or a text.
#[derive(Debug)]
pub enum MultipleTypeMapValue {
    Number(i32),
    String(String),
}

/// The mathematical content of a [`MultipleTypeMapValue`].
pub enum PrefView {
    Number(i32),
    String(Seq<char>),
}

impl View for MultipleTypeMapValue {
    type V = PrefView;

    open spec fn view(&self) -> PrefView {
        match self {
            MultipleTypeMapValue::Number(n) => PrefView::Number(*n),
            MultipleTypeMapValue::String(s) => PrefView::String(s@),
        }
    }
}

/// A preference value on the wire.
pub open spec fn pref_json(value: PrefView) -> JsonView {
    match value {
        PrefView::Number(n) => JsonView::Number(signed_decimal(n as int)),
        PrefView::String(s) => JsonView::Text(s),
    }
}

/// The contents of a list of preferences.
pub open spec fn pref_views(prefs: Seq<(String, MultipleTypeMapValue)>) -> Seq<
    (Seq<char>, PrefView),
> {
    Seq::new(prefs.len(), |i: int| (prefs[i].0@, prefs[i].1@))
}

/// The members of the object of the preferences.
pub open spec fn pref_members(prefs: Seq<(Seq<char>, PrefView)>) -> Seq<(Seq<char>, JsonView)> {
    Seq::new(prefs.len(), |i: int| (prefs[i].0, pref_json(prefs[i].1)))
}

impl MultipleTypeMapValue {
    /// The value on the wire.
    pub fn to_json(&self) -> (j: Json)
        ensures
            j@ == pref_json(self@),
    {
        match self {
            MultipleTypeMapValue::Number(n) => Json::integer(*n as i64),
            MultipleTypeMapValue::String(s) => Json::string(s.as_str()),
        }
    }
}

/// The place of the first entry of `names` that is `name`, and the length
/// of `names` where there is none.
pub open spec fn index_of(names: Seq<Seq<char>>, name: Seq<char>) -> int
    decreases names.len(),
{
    if names.len() == 0 {
        0
    } else if names[0] == name {
        0
    } else {
        1 + index_of(names.drop_first(), name)
    }
}

/// The names of a list of entries.
pub open spec fn names_of<V>(entries: Seq<(String, V)>) -> Seq<Seq<char>> {
    Seq::new(entries.len(), |i: int| entries[i].0@)
}

/// The names of a list of named values.
pub open spec fn names_in<V>(entries: Seq<(Seq<char>, V)>) -> Seq<Seq<char>> {
    Seq::new(entries.len(), |i: int| entries[i].0)
}

/// The entries after `name` was set to `value`: the first entry of that name
/// takes the value and keeps its place; where there is none, a new entry is
/// the last.
pub open spec fn with_entry<V>(entries: Seq<(Seq<char>, V)>, name: Seq<char>, value: V) -> Seq<
    (Seq<char>, V),
> {
    let at = index_of(names_in(entries), name);
    if at < entries.len() {
        entries.update(at, (name, value))
    } else {
        entries.push((name, value))
    }
}

/// Whether no name occurs twice.
pub open spec fn distinct_names(names: Seq<Seq<char>>) -> bool {
    forall|i: int, j: int| 0 <= i < j < names.len() ==> names[i] != names[j]
}

/// The place that `index_of` gives lies within the names or just behind
/// them; no name before it is `name`, and the name at it, if there is one,
/// is.
pub proof fn index_of_finds(names: Seq<Seq<char>>, name: Seq<char>)
    ensures
        0 <= index_of(names, name) <= names.len(),
        forall|k: int| 0 <= k < index_of(names, name) ==> names[k] != name,
        index_of(names, name) < names.len() ==> names[index_of(names, name)] == name,
    decreases names.len(),
{
    if names.len() > 0 && names[0] != name {
        let rest = names.drop_first();
        index_of_finds(rest, name);
        assert forall|k: int| 0 <= k < index_of(names, name) implies names[k] != name by {
            if k > 0 {
                assert(rest[k - 1] == names[k]);
            }
        }
        if index_of(names, name) < names.len() {
            assert(rest[index_of(rest, name)] == names[index_of(names, name)]);
        }
    }
}

/// Setting a name keeps the names apart: where no name occurred twice
/// before, none does after, and the value that is found under the name is
/// the one that was set.
pub proof fn with_entry_keeps_names_distinct<V>(
    entries: Seq<(Seq<char>, V)>,
    name: Seq<char>,
    value: V,
)
    requires
        distinct_names(names_in(entries)),
    ensures
        distinct_names(names_in(with_entry(entries, name, value))),
        index_of(names_in(with_entry(entries, name, value)), name) < with_entry(
            entries,
            name,
            value,
        ).len(),
        with_entry(entries, name, value)[index_of(
            names_in(with_entry(entries, name, value)),
            name,
        )] == (name, value),
{
    let names = names_in(entries);
    let at = index_of(names, name);
    index_of_finds(names, name);
    let after = with_entry(entries, name, value);
    let names_after = names_in(after);
    assert forall|i: int, j: int| 0 <= i < j < names_after.len() implies names_after[i]
        != names_after[j] by {
        if i < names.len() {
            assert(names[i] == entries[i].0);
        }
        if j < names.len() {
            assert(names[j] == entries[j].0);
        }
    }
    assert forall|k: int| 0 <= k < at implies names_after[k] != name by {
        assert(names[k] == entries[k].0);
    }
    assert(names_after[at] == name);
    index_of_is_first(names_after, name, at);
}

/// The first place at which `name` stands is the one before which it does
/// not stand.
pub proof fn index_of_is_first(names: Seq<Seq<char>>, name: Seq<char>, at: int)
    requires
        0 <= at <= names.len(),
        forall|k: int| 0 <= k < at ==> names[k] != name,
        at < names.len() ==> names[at] == name,
    ensures
        index_of(names, name) == at,
    decreases names.len(),
{
    if names.len() > 0 && at > 0 {
        let rest = names.drop_first();
        assert forall|k: int| 0 <= k < at - 1 implies rest[k] != name by {
            assert(rest[k] == names[k + 1]);
        }
        index_of_is_first(rest, name, at - 1);
    }
}

/// Sets `name` to `value` in a list of entries: the first entry of that name
/// takes the value, and where there is none a new entry is appended. Gives
/// the place of the entry.
pub fn upsert<V>(entries: &mut Vec<(String, V)>, name: &str, value: V) -> (at: usize)
    ensures
        at == index_of(names_of(old(entries)@), name@),
        at < final(entries)@.len(),
        final(entries)@[at as int].0@ == name@,
        final(entries)@[at as int].1 == value,
        final(entries)@.len() == if at < old(entries)@.len() {
            old(entries)@.len()
        } else {
            old(entries)@.len() + 1
        },
        forall|k: int|
            0 <= k < old(entries)@.len() && k != at ==> final(entries)@[k] == old(entries)@[k],
        distinct_names(names_of(old(entries)@)) ==> distinct_names(names_of(final(entries)@)),
{
    let mut i: usize = 0;
    while i < entries.len()
        invariant
            i <= entries.len(),
            *entries == *old(entries),
            forall|k: int| 0 <= k < i ==> names_of(entries@)[k] != name@,
        decreases entries.len() - i,
    {
        if same_text(entries[i].0.as_str(), name) {
            proof {
                index_of_is_first(names_of(entries@), name@, i as int);
            }
            entries.set(i, (String::from_str(name), value));
            proof {
                let before = names_of(old(entries)@);
                let after = names_of(entries@);
                assert(after =~= before);
            }
            return i;
        }
        i += 1;
    }
    proof {
        index_of_is_first(names_of(entries@), name@, i as int);
    }
    entries.push((String::from_str(name), value));
    proof {
        let before = names_of(old(entries)@);
        let after = names_of(entries@);
        assert(after =~= before.push(name@));
        if distinct_names(before) {
            assert forall|a: int, b: int| 0 <= a < b < after.len() implies after[a] != after[b] by {
                if b < before.len() {
                    assert(after[a] == before[a] && after[b] == before[b]);
                } else {
                    assert(after[a] == before[a]);
                }
            }
        }
    }
    i
}

/// How the browser reaches the network.
#[derive(Clone, Copy, Debug, PartialEq, Eq, Structural)]
pub enum ProxyType {
    /// By a proxy auto-configuration file.
    Pac,
    /// Without a proxy.
    Direct,
    /// By a proxy that the browser detects.
    AutoDetect,
    /// By the settings of the system.
    System,
    /// By the proxies named here.
    Manual,
}

impl ProxyType {
    /// The name of the type on the wire.
    pub open spec fn name(self) -> Seq<char> {
        match self {
            ProxyType::Pac => "pac"@,
            ProxyType::Direct => "direct"@,
            ProxyType::AutoDetect => "autodetect"@,
            ProxyType::System => "system"@,
            ProxyType::Manual => "manual"@,
        }
    }

    /// The name of the type on the wire.
    pub fn as_str(&self) -> (name: &'static str)
        ensures
            name@ == self.name(),
    {
        match self {
            ProxyType::Pac => "pac",
            ProxyType::Direct => "direct",
            ProxyType::AutoDetect => "autodetect",
            ProxyType::System => "system",
            ProxyType::Manual => "manual",
        }
    }
}

/// The proxy settings of a session.
pub struct Proxy {
    pub proxy_type: ProxyType,
    /// The address of the auto-configuration file, for the type `Pac`.
    pub proxy_autoconfig_url: Option<String>,
    /// The proxy for FTP, for the type `Manual`.
    pub ftp_proxy: Option<String>,
    /// The proxy for HTTP, for the type `Manual`.
    pub http_proxy: Option<String>,
    /// The addresses that bypass the proxy, for the type `Manual`.
    pub no_proxy: Vec<String>,
    /// The proxy for TLS, for the type `Manual`.
    pub ssl_proxy: Option<String>,
    /// The SOCKS proxy, for the type `Manual`.
    pub socks_proxy: Option<String>,
    /// The version of SOCKS, for the type `Manual`.
    pub socks_version: Option<u8>,
}

/// The mathematical content of a [`Proxy`].
pub struct ProxyView {
    pub proxy_type: ProxyType,
    pub proxy_autoconfig_url: Option<Seq<char>>,
    pub ftp_proxy: Option<Seq<char>>,
    pub http_proxy: Option<Seq<char>>,
    pub no_proxy: Seq<Seq<char>>,
    pub ssl_proxy: Option<Seq<char>>,
    pub socks_proxy: Option<Seq<char>>,
    pub socks_version: Option<u8>,
}

impl View for Proxy {
    type V = ProxyView;

    open spec fn view(&self) -> ProxyView {
        ProxyView {
            proxy_type: self.proxy_type,
            proxy_autoconfig_url: optional_view(self.proxy_autoconfig_url),
            ftp_proxy: optional_view(self.ftp_proxy),
            http_proxy: optional_view(self.http_proxy),
            no_proxy: text_views(self.no_proxy@),
            ssl_proxy: optional_view(self.ssl_proxy),
            socks_proxy: optional_view(self.socks_proxy),
            socks_version: self.socks_version,
        }
    }
}

/// The proxy of type `proxy_type` with nothing else set.
pub open spec fn bare_proxy(proxy_type: ProxyType) -> ProxyView {
    ProxyView {
        proxy_type,
        proxy_autoconfig_url: None,
        ftp_proxy: None,
        http_proxy: None,
        no_proxy: Seq::empty(),
        ssl_proxy: None,
        socks_proxy: None,
        socks_version: None,
    }
}

/// The member `noProxy`, or no member where no address bypasses the proxy.
pub open spec fn optional_bypass(no_proxy: Seq<Seq<char>>) -> Seq<(Seq<char>, JsonView)> {
    if no_proxy.len() > 0 {
        seq![("noProxy"@, JsonView::Array(text_items(no_proxy)))]
    } else {
        Seq::empty()
    }
}

/// The version of SOCKS as an integer.
pub open spec fn wide_u8(value: Option<u8>) -> Option<int> {
    match value {
        Some(n) => Some(n as int),
        None => None,
    }
}

/// The proxy settings on the wire: the type, and with it only what belongs
/// to that type.
pub open spec fn proxy_json(p: ProxyView) -> JsonView {
    let head = seq![("proxyType"@, JsonView::Text(p.proxy_type.name()))];
    match p.proxy_type {
        ProxyType::Pac => JsonView::Object(
            head + optional_text("proxyAutoconfigUrl"@, p.proxy_autoconfig_url),
        ),
        ProxyType::Manual => JsonView::Object(
            head + optional_text("ftpProxy"@, p.ftp_proxy) + optional_text(
                "httpProxy"@,
                p.http_proxy,
            ) + optional_text("sslProxy"@, p.ssl_proxy) + optional_text(
                "socksProxy"@,
                p.socks_proxy,
            ) + optional_bypass(p.no_proxy) + optional_number(
                "socksVersion"@,
                wide_u8(p.socks_version),
            ),
        ),
        _ => JsonView::Object(head),
    }
}

impl Proxy {
    fn of_type(proxy_type: ProxyType) -> (p: Proxy)
        ensures
            p@ == bare_proxy(proxy_type),
    {
        let p = Proxy {
            proxy_type,
            proxy_autoconfig_url: None,
            ftp_proxy: None,
            http_proxy: None,
            no_proxy: Vec::new(),
            ssl_proxy: None,
            socks_proxy: None,
            socks_version: None,
        };
        assert(p@.no_proxy =~= Seq::empty());
        p
    }

    /// The settings of the system.
    pub fn system() -> (p: Proxy)
        ensures
            p@ == bare_proxy(ProxyType::System),
    {
        Proxy::of_type(ProxyType::System)
    }

    /// A proxy that the browser detects.
    pub fn auto_detect() -> (p: Proxy)
        ensures
            p@ == bare_proxy(ProxyType::AutoDetect),
    {
        Proxy::of_type(ProxyType::AutoDetect)
    }

    /// No proxy: a direct connection.
    pub fn detect() -> (p: Proxy)
        ensures
            p@ == bare_proxy(ProxyType::Direct),
    {
        Proxy::of_type(ProxyType::Direct)
    }

    /// The auto-configuration file at `url`.
    pub fn pac(url: &str) -> (p: Proxy)
        ensures
            p@ == (ProxyView { proxy_autoconfig_url: Some(url@), ..bare_proxy(ProxyType::Pac) }),
    {
        let mut p = Proxy::of_type(ProxyType::Pac);
        p.proxy_autoconfig_url = Some(String::from_str(url));
        p
    }

    /// Proxies named one by one.
    pub fn manual() -> (p: Proxy)
        ensures
            p@ == bare_proxy(ProxyType::Manual),
    {
        Proxy::of_type(ProxyType::Manual)
    }

    /// Sets the address of the auto-configuration file; only the type `Pac`
    /// takes it.
    pub fn proxy_autoconfig_url(self, url: &str) -> (p: Proxy)
        ensures
            p@ == if self@.proxy_type == ProxyType::Pac {
                ProxyView { proxy_autoconfig_url: Some(url@), ..self@ }
            } else {
                self@
            },
    {
        let mut p = self;
        if let ProxyType::Pac = p.proxy_type {
            p.proxy_autoconfig_url = Some(String::from_str(url));
        }
        p
    }

    /// Sets the proxy for FTP; only the type `Manual` takes it.
    pub fn ftp_proxy(self, ftp_proxy: &str) -> (p: Proxy)
        ensures
            p@ == if self@.proxy_type == ProxyType::Manual {
                ProxyView { ftp_proxy: Some(ftp_proxy@), ..self@ }
            } else {
                self@
            },
    {
        let mut p = self;
        if let ProxyType::Manual = p.proxy_type {
            p.ftp_proxy = Some(String::from_str(ftp_proxy));
        }
        p
    }

    /// Sets the proxy for HTTP; only the type `Manual` takes it.
    pub fn http_proxy(self, http_proxy: &str) -> (p: Proxy)
        ensures
            p@ == if self@.proxy_type == ProxyType::Manual {
                ProxyView { http_proxy: Some(http_proxy@), ..self@ }
            } else {
                self@
            },
    {
        let mut p = self;
        if let ProxyType::Manual = p.proxy_type {
            p.http_proxy = Some(String::from_str(http_proxy));
        }
        p
    }

    /// Sets the proxy for TLS; only the type `Manual` takes it.
    pub fn ssl_proxy(self, ssl_proxy: &str) -> (p: Proxy)
        ensures
            p@ == if self@.proxy_type == ProxyType::Manual {
                ProxyView { ssl_proxy: Some(ssl_proxy@), ..self@ }
            } else {
                self@
            },
    {
        let mut p = self;
        if let ProxyType::Manual = p.proxy_type {
            p.ssl_proxy = Some(String::from_str(ssl_proxy));
        }
        p
    }

    /// Sets the SOCKS proxy; only the type `Manual` takes it.
    pub fn socks_proxy(self, socks_proxy: &str) -> (p: Proxy)
        ensures
            p@ == if self@.proxy_type == ProxyType::Manual {
                ProxyView { socks_proxy: Some(socks_proxy@), ..self@ }
            } else {
                self@
            },
    {
        let mut p = self;
        if let ProxyType::Manual = p.proxy_type {
            p.socks_proxy = Some(String::from_str(socks_proxy));
        }
        p
    }

    /// Sets the version of SOCKS; only the type `Manual` takes it.
    pub fn socks_version(self, socks_version: u8) -> (p: Proxy)
        ensures
            p@ == if self@.proxy_type == ProxyType::Manual {
                ProxyView { socks_version: Some(socks_version), ..self@ }
            } else {
                self@
            },
    {
        let mut p = self;
        if let ProxyType::Manual = p.proxy_type {
            p.socks_version = Some(socks_version);
        }
        p
    }

    /// Adds addresses that bypass the proxy, behind those already there;
    /// only the type `Manual` takes them.
    pub fn no_proxy(self, no_proxy: Vec<String>) -> (p: Proxy)
        ensures
            p@ == if self@.proxy_type == ProxyType::Manual {
                ProxyView { no_proxy: self@.no_proxy + text_views(no_proxy@), ..self@ }
            } else {
                self@
            },
    {
        let mut p = self;
        if let ProxyType::Manual = p.proxy_type {
            let mut more = no_proxy;
            p.no_proxy.append(&mut more);
            assert(p@.no_proxy =~= self@.no_proxy + text_views(no_proxy@));
        }
        p
    }

    /// The settings on the wire.
    pub fn to_json(&self) -> (j: Json)
        ensures
            j@ == proxy_json(self@),
    {
        let mut members: Vec<(String, Json)> = Vec::new();
        add_member(&mut members, "proxyType", Json::string(self.proxy_type.as_str()));
        assert(member_views(members@) =~= seq![
            ("proxyType"@, JsonView::Text(self.proxy_type.name())),
        ]);
        match self.proxy_type {
            ProxyType::Pac => {
                add_text(&mut members, "proxyAutoconfigUrl", &self.proxy_autoconfig_url);
            },
            ProxyType::Manual => {
                add_text(&mut members, "ftpProxy", &self.ftp_proxy);
                add_text(&mut members, "httpProxy", &self.http_proxy);
                add_text(&mut members, "sslProxy", &self.ssl_proxy);
                add_text(&mut members, "socksProxy", &self.socks_proxy);
                let ghost before = member_views(members@);
                if !self.no_proxy.is_empty() {
                    add_member(&mut members, "noProxy", text_array(&self.no_proxy));
                }
                assert(member_views(members@) =~= before + optional_bypass(self@.no_proxy));
                let version = match self.socks_version {
                    Some(v) => Some(v as u32),
                    None => None,
                };
                assert(wide_u32(version) == wide_u8(self.socks_version));
                add_u32(&mut members, "socksVersion", version);
            },
            _ => {},
        }
        Json::object(members)
    }
}

/// What a builder gathers and an option holds, for every browser. No name
/// occurs twice among the variables of the environment, nor among the
/// preferences.
pub struct Settings {
    /// The address of a remote endpoint. It takes precedence over `driver`.
    url: Option<String>,
    /// The path of the driver executable to start.
    driver: Option<String>,
    /// The path of the browser executable.
    binary: Option<String>,
    /// Variables for the environment of the driver, over those inherited.
    env: Vec<(String, String)>,
    proxy: Option<Proxy>,
    /// The timeout of each request, in seconds.
    timeout: u64,
    /// Arguments for the command line of the browser.
    arguments: Vec<String>,
    /// Preferences of the browser.
    pref: Vec<(String, MultipleTypeMapValue)>,
    /// A profile: a zip archive as base64.
    profile: Option<String>,
    /// The host of a remote endpoint.
    host: Option<String>,
    /// The port of a remote endpoint.
    port: Option<u32>,
}

/// The mathematical content of [`Settings`].
pub struct SettingsView {
    pub url: Option<Seq<char>>,
    pub driver: Option<Seq<char>>,
    pub binary: Option<Seq<char>>,
    pub env: Seq<(Seq<char>, Seq<char>)>,
    pub proxy: Option<ProxyView>,
    pub timeout: u64,
    pub arguments: Seq<Seq<char>>,
    pub pref: Seq<(Seq<char>, PrefView)>,
    pub profile: Option<Seq<char>>,
    pub host: Option<Seq<char>>,
    pub port: Option<u32>,
}

/// The content of an optional proxy.
pub open spec fn proxy_view(proxy: Option<Proxy>) -> Option<ProxyView> {
    match proxy {
        Some(p) => Some(p@),
        None => None,
    }
}

impl View for Settings {
    type V = SettingsView;

    closed spec fn view(&self) -> SettingsView {
        SettingsView {
            url: optional_view(self.url),
            driver: optional_view(self.driver),
            binary: optional_view(self.binary),
            env: pair_views(self.env@),
            proxy: proxy_view(self.proxy),
            timeout: self.timeout,
            arguments: text_views(self.arguments@),
            pref: pref_views(self.pref@),
            profile: optional_view(self.profile),
            host: optional_view(self.host),
            port: self.port,
        }
    }
}

/// The settings that a builder starts from: nothing is set, and the timeout
/// is ten seconds.
pub open spec fn initial_settings() -> SettingsView {
    SettingsView {
        url: None,
        driver: None,
        binary: None,
        env: Seq::empty(),
        proxy: None,
        timeout: 10,
        arguments: Seq::empty(),
        pref: Seq::empty(),
        profile: None,
        host: None,
        port: None,
    }
}

/// What holds of all settings: no name occurs twice among the variables of
/// the environment, nor among the preferences.
pub open spec fn well_formed(s: SettingsView) -> bool {
    distinct_names(names_in(s.env)) && distinct_names(names_in(s.pref))
}

/// The member `proxy`, or no member where there is no proxy.
pub open spec fn optional_proxy(proxy: Option<ProxyView>) -> Seq<(Seq<char>, JsonView)> {
    match proxy {
        Some(p) => seq![("proxy"@, proxy_json(p))],
        None => Seq::empty(),
    }
}

/// The member `args`, or no member where there are no arguments.
pub open spec fn optional_arguments(arguments: Seq<Seq<char>>) -> Seq<(Seq<char>, JsonView)> {
    if arguments.len() > 0 {
        seq![("args"@, JsonView::Array(text_items(arguments)))]
    } else {
        Seq::empty()
    }
}

/// The member `env`, or no member where there are no variables.
pub open spec fn optional_env(env: Seq<(Seq<char>, Seq<char>)>) -> Seq<(Seq<char>, JsonView)> {
    if env.len() > 0 {
        seq![("env"@, JsonView::Object(text_members(env)))]
    } else {
        Seq::empty()
    }
}

/// The member `prefs`, or no member where there are no preferences.
pub open spec fn optional_prefs(pref: Seq<(Seq<char>, PrefView)>) -> Seq<(Seq<char>, JsonView)> {
    if pref.len() > 0 {
        seq![("prefs"@, JsonView::Object(pref_members(pref)))]
    } else {
        Seq::empty()
    }
}

/// The capabilities that ask for Firefox: the browser's name, its options
/// (what is set of the arguments, the binary, the environment, the
/// preferences and the profile, in that order), and the proxy.
pub open spec fn firefox_capability(s: SettingsView) -> JsonView {
    JsonView::Object(
        seq![
            ("browserName"@, JsonView::Text("firefox"@)),
            (
                "moz:firefoxOptions"@,
                JsonView::Object(
                    optional_arguments(s.arguments) + optional_text("binary"@, s.binary)
                        + optional_env(s.env) + optional_prefs(s.pref) + optional_text(
                        "profile"@,
                        s.profile,
                    ),
                ),
            ),
        ] + optional_proxy(s.proxy),
    )
}

/// The capabilities that ask for Chrome: the browser's name, its options
/// (what is set of the arguments, the binary and the preferences), and the
/// environment.
pub open spec fn chrome_capability(s: SettingsView) -> JsonView {
    JsonView::Object(
        seq![
            ("browserName"@, JsonView::Text("chrome"@)),
            (
                "goog:chromeOptions"@,
                JsonView::Object(
                    optional_arguments(s.arguments) + optional_text("binary"@, s.binary)
                        + optional_prefs(s.pref),
                ),
            ),
        ] + optional_env(s.env),
    )
}

/// The capabilities that ask for Edge: the browser's name, its options (the
/// arguments), and the proxy.
pub open spec fn edge_capability(s: SettingsView) -> JsonView {
    JsonView::Object(
        seq![
            ("browserName"@, JsonView::Text("MicrosoftEdge"@)),
            ("ms:edgeOptions"@, JsonView::Object(optional_arguments(s.arguments))),
        ] + optional_proxy(s.proxy),
    )
}

/// The capabilities that ask for Safari: the browser's name and the proxy.
pub open spec fn safari_capability(s: SettingsView) -> JsonView {
    JsonView::Object(seq![("browserName"@, JsonView::Text("Safari"@))] + optional_proxy(s.proxy))
}

/// The capabilities that ask for `browser` with the settings `s`.
pub open spec fn capability_json(browser: Browser, s: SettingsView) -> JsonView {
    match browser {
        Browser::Firefox => firefox_capability(s),
        Browser::Chrome => chrome_capability(s),
        Browser::Safari => safari_capability(s),
        Browser::Edge => edge_capability(s),
    }
}

fn add_arguments(members: &mut Vec<(String, Json)>, arguments: &Vec<String>)
    ensures
        member_views(final(members)@) == member_views(old(members)@) + optional_arguments(
            text_views(arguments@),
        ),
{
    if !arguments.is_empty() {
        add_member(members, "args", text_array(arguments));
    }
    assert(member_views(members@) =~= member_views(old(members)@) + optional_arguments(
        text_views(arguments@),
    ));
}

fn add_env(members: &mut Vec<(String, Json)>, env: &Vec<(String, String)>)
    ensures
        member_views(final(members)@) == member_views(old(members)@) + optional_env(
            pair_views(env@),
        ),
{
    if !env.is_empty() {
        add_member(members, "env", text_object(env));
    }
    assert(member_views(members@) =~= member_views(old(members)@) + optional_env(
        pair_views(env@),
    ));
}

fn add_prefs(members: &mut Vec<(String, Json)>, pref: &Vec<(String, MultipleTypeMapValue)>)
    ensures
        member_views(final(members)@) == member_views(old(members)@) + optional_prefs(
            pref_views(pref@),
        ),
{
    if !pref.is_empty() {
        let mut inner: Vec<(String, Json)> = Vec::new();
        let mut i: usize = 0;
        while i < pref.len()
            invariant
                i <= pref.len(),
                member_views(inner@) == pref_members(pref_views(pref@)).take(i as int),
            decreases pref.len() - i,
        {
            add_member(&mut inner, pref[i].0.as_str(), pref[i].1.to_json());
            assert(member_views(inner@) =~= pref_members(pref_views(pref@)).take(i as int + 1));
            i += 1;
        }
        assert(member_views(inner@) =~= pref_members(pref_views(pref@)));
        add_member(members, "prefs", Json::object(inner));
    }
    assert(member_views(members@) =~= member_views(old(members)@) + optional_prefs(
        pref_views(pref@),
    ));
}

fn add_proxy(members: &mut Vec<(String, Json)>, proxy: &Option<Proxy>)
    ensures
        member_views(final(members)@) == member_views(old(members)@) + optional_proxy(
            proxy_view(*proxy),
        ),
{
    match proxy {
        Some(p) => {
            add_member(members, "proxy", p.to_json());
        },
        None => {},
    }
    assert(member_views(members@) =~= member_views(old(members)@) + optional_proxy(
        proxy_view(*proxy),
    ));
}

fn named(name: &str) -> (members: Vec<(String, Json)>)
    ensures
        member_views(members@) == seq![("browserName"@, JsonView::Text(name@))],
{
    let mut members: Vec<(String, Json)> = Vec::new();
    add_member(&mut members, "browserName", Json::string(name));
    assert(member_views(members@) =~= seq![("browserName"@, JsonView::Text(name@))]);
    members
}

impl Settings {
    #[verifier::type_invariant]
    spec fn names_occur_once(self) -> bool {
        distinct_names(names_of(self.env@)) && distinct_names(names_of(self.pref@))
    }

    pub(crate) fn sealed(self) -> (s: Settings)
        ensures
            s@ == self@,
            well_formed(s@),
    {
        proof {
            use_type_invariant(&self);
            assert(names_of(self.env@) =~= names_in(self@.env));
            assert(names_of(self.pref@) =~= names_in(self@.pref));
        }
        self
    }

    /// The settings that a builder starts from.
    pub fn new() -> (s: Settings)
        ensures
            s@ == initial_settings(),
            well_formed(s@),
    {
        let s = Settings {
            url: None,
            driver: None,
            binary: None,
            env: Vec::new(),
            proxy: None,
            timeout: 10,
            arguments: Vec::new(),
            pref: Vec::new(),
            profile: None,
            host: None,
            port: None,
        };
        assert(s@.env =~= Seq::empty());
        assert(s@.arguments =~= Seq::empty());
        assert(s@.pref =~= Seq::empty());
        s.sealed()
    }

    /// Sets the address of a remote endpoint.
    pub fn with_url(self, url: &str) -> (s: Settings)
        ensures
            s@ == (SettingsView { url: Some(url@), ..self@ }),
            well_formed(s@),
    {
        proof {
            use_type_invariant(&self);
        }
        let mut s = self;
        s.url = Some(String::from_str(url));
        s.sealed()
    }

    /// Sets the path of the driver executable.
    pub fn with_driver(self, path: &str) -> (s: Settings)
        ensures
            s@ == (SettingsView { driver: Some(path@), ..self@ }),
            well_formed(s@),
    {
        proof {
            use_type_invariant(&self);
        }
        let mut s = self;
        s.driver = Some(String::from_str(path));
        s.sealed()
    }

    /// Sets the path of the browser executable.
    pub fn with_binary(self, binary: &str) -> (s: Settings)
        ensures
            s@ == (SettingsView { binary: Some(binary@), ..self@ }),
            well_formed(s@),
    {
        proof {
            use_type_invariant(&self);
        }
        let mut s = self;
        s.binary = Some(String::from_str(binary));
        s.sealed()
    }

    /// Sets the proxy.
    pub fn with_proxy(self, proxy: Proxy) -> (s: Settings)
        ensures
            s@ == (SettingsView { proxy: Some(proxy@), ..self@ }),
            well_formed(s@),
    {
        proof {
            use_type_invariant(&self);
        }
        let mut s = self;
        s.proxy = Some(proxy);
        s.sealed()
    }

    /// Sets the timeout of each request, in seconds.
    pub fn with_timeout(self, timeout: u64) -> (s: Settings)
        ensures
            s@ == (SettingsView { timeout: timeout, ..self@ }),
            well_formed(s@),
    {
        proof {
            use_type_invariant(&self);
        }
        let mut s = self;
        s.timeout = timeout;
        s.sealed()
    }

    /// Sets the profile: a zip archive as base64.
    pub fn with_profile(self, profile: String) -> (s: Settings)
        ensures
            s@ == (SettingsView { profile: Some(profile@), ..self@ }),
            well_formed(s@),
    {
        proof {
            use_type_invariant(&self);
        }
        let mut s = self;
        s.profile = Some(profile);
        s.sealed()
    }

    /// Sets the host of a remote endpoint.
    pub fn with_host(self, host: &str) -> (s: Settings)
        ensures
            s@ == (SettingsView { host: Some(host@), ..self@ }),
            well_formed(s@),
    {
        proof {
            use_type_invariant(&self);
        }
        let mut s = self;
        s.host = Some(String::from_str(host));
        s.sealed()
    }

    /// Sets the port of a remote endpoint.
    pub fn with_port(self, port: u32) -> (s: Settings)
        ensures
            s@ == (SettingsView { port: Some(port), ..self@ }),
            well_formed(s@),
    {
        proof {
            use_type_invariant(&self);
        }
        let mut s = self;
        s.port = Some(port);
        s.sealed()
    }

    /// The address of the remote endpoint, if one is set.
    pub fn url(&self) -> (r: Option<&str>)
        ensures
            match r {
                Some(text) => self@.url == Some(text@),
                None => self@.url is None,
            },
    {
        match &self.url {
            Some(text) => Some(text.as_str()),
            None => None,
        }
    }

    /// The path of the driver executable, if one is set.
    pub fn driver(&self) -> (r: Option<&str>)
        ensures
            match r {
                Some(text) => self@.driver == Some(text@),
                None => self@.driver is None,
            },
    {
        match &self.driver {
            Some(text) => Some(text.as_str()),
            None => None,
        }
    }

    /// The path of the browser executable, if one is set.
    pub fn binary(&self) -> (r: Option<&str>)
        ensures
            match r {
                Some(text) => self@.binary == Some(text@),
                None => self@.binary is None,
            },
    {
        match &self.binary {
            Some(text) => Some(text.as_str()),
            None => None,
        }
    }

    /// The host of a remote endpoint, if one is set.
    pub fn host(&self) -> (r: Option<&str>)
        ensures
            match r {
                Some(text) => self@.host == Some(text@),
                None => self@.host is None,
            },
    {
        match &self.host {
            Some(text) => Some(text.as_str()),
            None => None,
        }
    }

    /// The port of a remote endpoint, if one is set.
    pub fn port(&self) -> (r: Option<u32>)
        ensures
            r == self@.port,
    {
        self.port
    }

    /// The timeout of each request, in seconds.
    pub fn timeout(&self) -> (r: u64)
        ensures
            r == self@.timeout,
    {
        self.timeout
    }

    /// The variables for the environment of the driver: no name occurs
    /// twice.
    pub fn env(&self) -> (r: &Vec<(String, String)>)
        ensures
            pair_views(r@) == self@.env,
            distinct_names(names_in(pair_views(r@))),
    {
        proof {
            use_type_invariant(self);
            assert(names_of(self.env@) =~= names_in(self@.env));
        }
        &self.env
    }

    /// The arguments for the command line of the browser.
    pub fn arguments(&self) -> (r: &Vec<String>)
        ensures
            text_views(r@) == self@.arguments,
    {
        &self.arguments
    }

    /// The preferences of the browser: no name occurs twice.
    pub fn pref(&self) -> (r: &Vec<(String, MultipleTypeMapValue)>)
        ensures
            pref_views(r@) == self@.pref,
            distinct_names(names_in(pref_views(r@))),
    {
        proof {
            use_type_invariant(self);
            assert(names_of(self.pref@) =~= names_in(self@.pref));
        }
        &self.pref
    }

    /// Appends an argument for the command line of the browser.
    pub fn add_argument(self, arg: &str) -> (s: Settings)
        ensures
            s@ == (SettingsView { arguments: self@.arguments.push(arg@), ..self@ }),
            well_formed(s@),
    {
        proof {
            use_type_invariant(&self);
        }
        let Settings { url, driver, binary, env, proxy, timeout, arguments, pref, profile, host, port } = self;
        let mut arguments = arguments;
        arguments.push(String::from_str(arg));
        let s = Settings { url, driver, binary, env, proxy, timeout, arguments, pref, profile, host, port };
        assert(s@.arguments =~= self@.arguments.push(arg@));
        s.sealed()
    }

    /// Sets a variable of the driver's environment.
    pub fn add_env(self, key: &str, value: &str) -> (s: Settings)
        ensures
            s@ == (SettingsView { env: with_entry(self@.env, key@, value@), ..self@ }),
            well_formed(s@),
    {
        proof {
            use_type_invariant(&self);
        }
        let Settings { url, driver, binary, env, proxy, timeout, arguments, pref, profile, host, port } = self;
        let mut env = env;
        upsert(&mut env, key, String::from_str(value));
        let s = Settings { url, driver, binary, env, proxy, timeout, arguments, pref, profile, host, port };
        proof {
            assert(names_of(self.env@) =~= names_in(self@.env));
            assert(s@.env =~= with_entry(self@.env, key@, value@));
        }
        s.sealed()
    }

    /// Sets a preference of the browser.
    pub fn add_pref(self, key: &str, value: MultipleTypeMapValue) -> (s: Settings)
        ensures
            s@ == (SettingsView { pref: with_entry(self@.pref, key@, value@), ..self@ }),
            well_formed(s@),
    {
        proof {
            use_type_invariant(&self);
        }
        let Settings { url, driver, binary, env, proxy, timeout, arguments, pref, profile, host, port } = self;
        let mut pref = pref;
        upsert(&mut pref, key, value);
        let s = Settings { url, driver, binary, env, proxy, timeout, arguments, pref, profile, host, port };
        proof {
            assert(names_of(self.pref@) =~= names_in(self@.pref));
            assert(s@.pref =~= with_entry(self@.pref, key@, value@));
        }
        s.sealed()
    }

    fn firefox(&self) -> (j: Json)
        ensures
            j@ == firefox_capability(self@),
    {
        let mut options: Vec<(String, Json)> = Vec::new();
        assert(member_views(options@) =~= Seq::empty());
        add_arguments(&mut options, &self.arguments);
        add_text(&mut options, "binary", &self.binary);
        add_env(&mut options, &self.env);
        add_prefs(&mut options, &self.pref);
        add_text(&mut options, "profile", &self.profile);
        assert(member_views(options@) =~= optional_arguments(self@.arguments) + optional_text(
            "binary"@,
            self@.binary,
        ) + optional_env(self@.env) + optional_prefs(self@.pref) + optional_text(
            "profile"@,
            self@.profile,
        ));
        let inner = Json::object(options);
        let mut members = named("firefox");
        add_member(&mut members, "moz:firefoxOptions", inner);
        assert(member_views(members@) =~= seq![
            ("browserName"@, JsonView::Text("firefox"@)),
            ("moz:firefoxOptions"@, inner@),
        ]);
        add_proxy(&mut members, &self.proxy);
        Json::object(members)
    }

    fn chrome(&self) -> (j: Json)
        ensures
            j@ == chrome_capability(self@),
    {
        let mut options: Vec<(String, Json)> = Vec::new();
        assert(member_views(options@) =~= Seq::empty());
        add_arguments(&mut options, &self.arguments);
        add_text(&mut options, "binary", &self.binary);
        add_prefs(&mut options, &self.pref);
        assert(member_views(options@) =~= optional_arguments(self@.arguments) + optional_text(
            "binary"@,
            self@.binary,
        ) + optional_prefs(self@.pref));
        let inner = Json::object(options);
        let mut members = named("chrome");
        add_member(&mut members, "goog:chromeOptions", inner);
        assert(member_views(members@) =~= seq![
            ("browserName"@, JsonView::Text("chrome"@)),
            ("goog:chromeOptions"@, inner@),
        ]);
        add_env(&mut members, &self.env);
        Json::object(members)
    }

    fn edge(&self) -> (j: Json)
        ensures
            j@ == edge_capability(self@),
    {
        let mut options: Vec<(String, Json)> = Vec::new();
        assert(member_views(options@) =~= Seq::empty());
        add_arguments(&mut options, &self.arguments);
        assert(member_views(options@) =~= optional_arguments(self@.arguments));
        let inner = Json::object(options);
        let mut members = named("MicrosoftEdge");
        add_member(&mut members, "ms:edgeOptions", inner);
        assert(member_views(members@) =~= seq![
            ("browserName"@, JsonView::Text("MicrosoftEdge"@)),
            ("ms:edgeOptions"@, inner@),
        ]);
        add_proxy(&mut members, &self.proxy);
        Json::object(members)
    }

    fn safari(&self) -> (j: Json)
        ensures
            j@ == safari_capability(self@),
    {
        let mut members = named("Safari");
        add_proxy(&mut members, &self.proxy);
        Json::object(members)
    }

    /// The capabilities that ask for `browser` with these settings.
    pub fn capability(&self, browser: Browser) -> (j: Json)
        ensures
            j@ == capability_json(browser, self@),
    {
        match browser {
            Browser::Firefox => self.firefox(),
            Browser::Chrome => self.chrome(),
            Browser::Edge => self.edge(),
            Browser::Safari => self.safari(),
        }
    }
}

/// What `Driver::new` needs to know of the options of a browser.
pub trait BrowserOption {
    /// The address of the remote endpoint, if one is to be used.
    spec fn spec_url(&self) -> Option<Seq<char>>;

    /// The path of the driver executable, if one is to be started.
    spec fn spec_driver(&self) -> Option<Seq<char>>;

    /// The variables for the environment of the driver.
    spec fn spec_env(&self) -> Seq<(Seq<char>, Seq<char>)>;

    /// The browser that is asked for.
    spec fn spec_browser(&self) -> Browser;

    /// The timeout of each request, in seconds.
    spec fn spec_timeout(&self) -> u64;

    /// The capabilities that ask for the browser.
    spec fn capability(&self) -> JsonView;

    /// The address of the remote endpoint, if one is to be used.
    fn url(&self) -> (r: Option<&str>)
        ensures
            match r {
                Some(url) => self.spec_url() == Some(url@),
                None => self.spec_url() is None,
            },
    ;

    /// The path of the driver executable, if one is to be started.
    fn driver(&self) -> (r: Option<&str>)
        ensures
            match r {
                Some(path) => self.spec_driver() == Some(path@),
                None => self.spec_driver() is None,
            },
    ;

    /// The variables for the environment of the driver.
    fn env(&self) -> (r: &Vec<(String, String)>)
        ensures
            pair_views(r@) == self.spec_env(),
    ;

    /// The browser that is asked for.
    fn browser(&self) -> (r: Browser)
        ensures
            r == self.spec_browser(),
    ;

    /// The timeout of each request, in seconds.
    fn timeout(&self) -> (r: u64)
        ensures
            r == self.spec_timeout(),
    ;

    /// The capabilities that ask for the browser.
    fn to_json(&self) -> (j: Json)
        ensures
            j@ == self.capability(),
    ;
}

} // verus!
