//! The deployment configuration and how it is read from a TOML document.
use vstd::prelude::*;

use crate::text::{
    is_white_space, lemma_blank_trims_to_empty, lowercased, str_eq, to_lowercase, trim, trimmed,
};

verus! {

/// A top-level value of the configuration document, as far as the
/// configuration reads it.
pub enum ConfigValue {
    Str(String),
    Int(i64),
    Bool(bool),
    /// An array; each element is `Some` when it is a string.
    List(Vec<Option<String>>),
    /// A floating-point number (never a valid setting).
    Float,
    Datetime(String),
    Table,
}

/// The mathematical value of a [`ConfigValue`].
pub enum ConfigValueView {
    Str(Seq<char>),
    Int(i64),
    Bool(bool),
    List(Seq<Option<Seq<char>>>),
    Float,
    Datetime(Seq<char>),
    Table,
}

pub open spec fn opt_string_view(o: Option<String>) -> Option<Seq<char>> {
    match o {
        Some(s) => Some(s@),
        None => None,
    }
}

impl DeepView for ConfigValue {
    type V = ConfigValueView;

    open spec fn deep_view(&self) -> ConfigValueView {
        match self {
            ConfigValue::Str(s) => ConfigValueView::Str(s@),
            ConfigValue::Int(i) => ConfigValueView::Int(*i),
            ConfigValue::Bool(b) => ConfigValueView::Bool(*b),
            ConfigValue::List(l) => ConfigValueView::List(
                l@.map_values(|o: Option<String>| opt_string_view(o)),
            ),
            ConfigValue::Float => ConfigValueView::Float,
            ConfigValue::Datetime(s) => ConfigValueView::Datetime(s@),
            ConfigValue::Table => ConfigValueView::Table,
        }
    }
}

/// The key/value pairs of a parsed configuration document, in key order.
pub type ConfigTableView = Seq<(Seq<char>, ConfigValueView)>;

/// What `toml::Parser::parse` makes of a document: `None` when it is not valid
/// TOML, else its top-level table.
pub uninterp spec fn toml_top_level(text: Seq<char>) -> Option<ConfigTableView>;

/// `toml::Parser::new(text).parse()`, with the top-level table's values
/// converted one for one into [`ConfigValue`]. The parse itself is named, not
/// restated: the contract says only that the result is the parser's verdict on
/// `text`.
#[verifier::external_body]
fn parse_toml(text: &str) -> (r: Option<Vec<(String, ConfigValue)>>)
    ensures
        r.deep_view() == toml_top_level(text@),
{
    toml::Parser::new(text).parse().map(|t| t.into_iter().map(|(k, v)| (k, match v {
        toml::Value::String(s) => ConfigValue::Str(s),
        toml::Value::Integer(i) => ConfigValue::Int(i),
        toml::Value::Boolean(b) => ConfigValue::Bool(b),
        toml::Value::Array(a) => ConfigValue::List(a.into_iter().map(|e| match e {
            toml::Value::String(s) => Some(s),
            _ => None,
        }).collect()),
        toml::Value::Float(_) => ConfigValue::Float,
        toml::Value::Datetime(s) => ConfigValue::Datetime(s),
        toml::Value::Table(_) => ConfigValue::Table,
    })).collect())
}

/// The value stored under `key`, if any (the first entry with that key).
pub open spec fn lookup(t: ConfigTableView, key: Seq<char>) -> Option<ConfigValueView>
    decreases t.len(),
{
    if t.len() == 0 {
        None
    } else if t[0].0 == key {
        Some(t[0].1)
    } else {
        lookup(t.drop_first(), key)
    }
}

pub open spec fn is_str(v: Option<ConfigValueView>) -> bool {
    v matches Some(ConfigValueView::Str(_))
}

pub open spec fn str_of(v: Option<ConfigValueView>) -> Seq<char> {
    match v {
        Some(ConfigValueView::Str(s)) => s,
        _ => Seq::empty(),
    }
}

pub open spec fn is_bool(v: Option<ConfigValueView>) -> bool {
    v matches Some(ConfigValueView::Bool(_))
}

pub open spec fn bool_of(v: Option<ConfigValueView>) -> bool {
    match v {
        Some(ConfigValueView::Bool(b)) => b,
        _ => false,
    }
}

pub open spec fn is_string_list(v: Option<ConfigValueView>) -> bool {
    match v {
        Some(ConfigValueView::List(l)) => forall|i: int| 0 <= i < l.len() ==> (#[trigger] l[i]) is Some,
        _ => false,
    }
}

pub open spec fn list_of(v: Option<ConfigValueView>) -> Seq<Seq<char>> {
    match v {
        Some(ConfigValueView::List(l)) => l.map_values(|o: Option<Seq<char>>| o.unwrap()),
        _ => Seq::empty(),
    }
}

/// The web server port: 8000 when the key is absent.
pub open spec fn port_of(v: Option<ConfigValueView>) -> u16 {
    match v {
        Some(ConfigValueView::Int(i)) => i as u16,
        _ => 8000,
    }
}

pub open spec fn port_ok(v: Option<ConfigValueView>) -> bool {
    match v {
        None => true,
        Some(ConfigValueView::Int(i)) => 0 <= i <= 65535,
        _ => false,
    }
}

pub open spec fn optional_str_ok(v: Option<ConfigValueView>) -> bool {
    v is None || is_str(v)
}

pub open spec fn optional_str_of(v: Option<ConfigValueView>) -> Option<Seq<char>> {
    match v {
        Some(ConfigValueView::Str(s)) => Some(s),
        _ => None,
    }
}

pub open spec fn smtp_port_of(v: Option<ConfigValueView>) -> u16 {
    match v {
        Some(ConfigValueView::Int(i)) => i as u16,
        _ => 0,
    }
}

/// The keys whose value must be a string.
pub open spec fn required_str_keys() -> Seq<Seq<char>> {
    seq![
        "class"@, "db_addr"@, "db_name"@, "db_user"@, "db_password"@, "template_dir"@,
        "resource_dir"@, "secret"@, "anthropic_api_key"@, "smtp_server"@, "smtp_user"@,
        "smtp_password"@, "smtp_from"@,
    ]
}

/// A table from which a configuration can be read: every required setting is
/// present with the right type, and the optional ones are absent or well typed.
pub open spec fn config_table_ok(t: ConfigTableView) -> bool {
    &&& forall|i: int| 0 <= i < required_str_keys().len() ==> is_str(lookup(t, #[trigger] required_str_keys()[i]))
    &&& port_ok(lookup(t, "port"@))
    &&& is_string_list(lookup(t, "admins"@))
    &&& is_string_list(lookup(t, "staff"@))
    &&& optional_str_ok(lookup(t, "email_domain"@))
    &&& is_bool(lookup(t, "send_emails"@))
    &&& lookup(t, "smtp_port"@) matches Some(ConfigValueView::Int(_))
    &&& is_bool(lookup(t, "prime"@))
}

/// Deployment settings.
#[derive(Debug, Clone)]
pub struct Config {
    /// Textual identifier for class
    pub class: String,
    /// TCP port the web server listens on
    pub port: u16,
    /// Database server address, as `host` or `host:port`
    pub db_addr: String,
    /// Database name
    pub db_name: String,
    /// Database user
    pub db_user: String,
    /// Database password
    pub db_password: String,
    /// System admin addresses
    pub admins: Vec<String>,
    /// Staff email addresses
    pub staff: Vec<String>,
    /// Email domain registrations are restricted to (e.g. "@bu.edu");
    /// `None` accepts any address
    pub email_domain: Option<String>,
    /// Web template directory
    pub template_dir: String,
    /// Web resource root directory
    pub resource_dir: String,
    /// Secret (for API key generation)
    pub secret: String,
    /// API key for the admin automated-analysis endpoint
    pub anthropic_api_key: String,
    /// Whether to send emails
    pub send_emails: bool,
    /// SMTP server used to send emails
    pub smtp_server: String,
    /// SMTP server port
    pub smtp_port: u16,
    /// SMTP user (empty for an unauthenticated relay)
    pub smtp_user: String,
    /// SMTP password
    pub smtp_password: String,
    /// Address that emails are sent from
    pub smtp_from: String,
    /// Whether to reset and prime db
    pub prime: bool,
}

/// The mathematical value of a [`Config`].
pub struct ConfigView {
    pub class: Seq<char>,
    pub port: u16,
    pub db_addr: Seq<char>,
    pub db_name: Seq<char>,
    pub db_user: Seq<char>,
    pub db_password: Seq<char>,
    pub admins: Seq<Seq<char>>,
    pub staff: Seq<Seq<char>>,
    pub email_domain: Option<Seq<char>>,
    pub template_dir: Seq<char>,
    pub resource_dir: Seq<char>,
    pub secret: Seq<char>,
    pub anthropic_api_key: Seq<char>,
    pub send_emails: bool,
    pub smtp_server: Seq<char>,
    pub smtp_port: u16,
    pub smtp_user: Seq<char>,
    pub smtp_password: Seq<char>,
    pub smtp_from: Seq<char>,
    pub prime: bool,
}

pub open spec fn strings_view(v: Seq<String>) -> Seq<Seq<char>> {
    v.map_values(|s: String| s@)
}

impl View for Config {
    type V = ConfigView;

    open spec fn view(&self) -> ConfigView {
        ConfigView {
            class: self.class@,
            port: self.port,
            db_addr: self.db_addr@,
            db_name: self.db_name@,
            db_user: self.db_user@,
            db_password: self.db_password@,
            admins: strings_view(self.admins@),
            staff: strings_view(self.staff@),
            email_domain: opt_string_view(self.email_domain),
            template_dir: self.template_dir@,
            resource_dir: self.resource_dir@,
            secret: self.secret@,
            anthropic_api_key: self.anthropic_api_key@,
            send_emails: self.send_emails,
            smtp_server: self.smtp_server@,
            smtp_port: self.smtp_port,
            smtp_user: self.smtp_user@,
            smtp_password: self.smtp_password@,
            smtp_from: self.smtp_from@,
            prime: self.prime,
        }
    }
}

/// The configuration that a well-formed table describes.
pub open spec fn config_from_table(t: ConfigTableView) -> ConfigView {
    ConfigView {
        class: str_of(lookup(t, "class"@)),
        port: port_of(lookup(t, "port"@)),
        db_addr: str_of(lookup(t, "db_addr"@)),
        db_name: str_of(lookup(t, "db_name"@)),
        db_user: str_of(lookup(t, "db_user"@)),
        db_password: str_of(lookup(t, "db_password"@)),
        admins: list_of(lookup(t, "admins"@)),
        staff: list_of(lookup(t, "staff"@)),
        email_domain: optional_str_of(lookup(t, "email_domain"@)),
        template_dir: str_of(lookup(t, "template_dir"@)),
        resource_dir: str_of(lookup(t, "resource_dir"@)),
        secret: str_of(lookup(t, "secret"@)),
        anthropic_api_key: str_of(lookup(t, "anthropic_api_key"@)),
        send_emails: bool_of(lookup(t, "send_emails"@)),
        smtp_server: str_of(lookup(t, "smtp_server"@)),
        smtp_port: smtp_port_of(lookup(t, "smtp_port"@)),
        smtp_user: str_of(lookup(t, "smtp_user"@)),
        smtp_password: str_of(lookup(t, "smtp_password"@)),
        smtp_from: str_of(lookup(t, "smtp_from"@)),
        prime: bool_of(lookup(t, "prime"@)),
    }
}

/// Each setting of the configuration is the value stored under its own key in
/// the document: each text setting its text; the port its integer (8000 when
/// absent); the SMTP port its integer cut to 16 bits; each list its strings in
/// order; the email domain its text, or none when absent; each flag its
/// boolean.
pub proof fn lemma_settings_are_their_keys(t: ConfigTableView, s: Seq<char>, i: i64, b: bool, l: Seq<Option<Seq<char>>>)
    ensures
        lookup(t, "class"@) == Some(ConfigValueView::Str(s)) ==> config_from_table(t).class == s,
        lookup(t, "db_addr"@) == Some(ConfigValueView::Str(s)) ==> config_from_table(t).db_addr == s,
        lookup(t, "db_name"@) == Some(ConfigValueView::Str(s)) ==> config_from_table(t).db_name == s,
        lookup(t, "db_user"@) == Some(ConfigValueView::Str(s)) ==> config_from_table(t).db_user == s,
        lookup(t, "db_password"@) == Some(ConfigValueView::Str(s)) ==> config_from_table(t).db_password == s,
        lookup(t, "template_dir"@) == Some(ConfigValueView::Str(s)) ==> config_from_table(t).template_dir == s,
        lookup(t, "resource_dir"@) == Some(ConfigValueView::Str(s)) ==> config_from_table(t).resource_dir == s,
        lookup(t, "secret"@) == Some(ConfigValueView::Str(s)) ==> config_from_table(t).secret == s,
        lookup(t, "anthropic_api_key"@) == Some(ConfigValueView::Str(s)) ==> config_from_table(t).anthropic_api_key == s,
        lookup(t, "smtp_server"@) == Some(ConfigValueView::Str(s)) ==> config_from_table(t).smtp_server == s,
        lookup(t, "smtp_user"@) == Some(ConfigValueView::Str(s)) ==> config_from_table(t).smtp_user == s,
        lookup(t, "smtp_password"@) == Some(ConfigValueView::Str(s)) ==> config_from_table(t).smtp_password == s,
        lookup(t, "smtp_from"@) == Some(ConfigValueView::Str(s)) ==> config_from_table(t).smtp_from == s,
        lookup(t, "port"@) is None ==> config_from_table(t).port == 8000,
        lookup(t, "port"@) == Some(ConfigValueView::Int(i)) && 0 <= i <= 65535 ==> config_from_table(t).port == i,
        lookup(t, "smtp_port"@) == Some(ConfigValueView::Int(i)) ==> config_from_table(t).smtp_port == i as u16,
        lookup(t, "send_emails"@) == Some(ConfigValueView::Bool(b)) ==> config_from_table(t).send_emails == b,
        lookup(t, "prime"@) == Some(ConfigValueView::Bool(b)) ==> config_from_table(t).prime == b,
        lookup(t, "email_domain"@) is None ==> config_from_table(t).email_domain is None,
        lookup(t, "email_domain"@) == Some(ConfigValueView::Str(s)) ==> config_from_table(t).email_domain == Some(s),
        lookup(t, "admins"@) == Some(ConfigValueView::List(l)) && (forall|k: int| 0 <= k < l.len() ==> (#[trigger] l[k]) is Some)
            ==> config_from_table(t).admins.len() == l.len() && forall|k: int|
            0 <= k < l.len() ==> Some(#[trigger] config_from_table(t).admins[k]) == l[k],
        lookup(t, "staff"@) == Some(ConfigValueView::List(l)) && (forall|k: int| 0 <= k < l.len() ==> (#[trigger] l[k]) is Some)
            ==> config_from_table(t).staff.len() == l.len() && forall|k: int|
            0 <= k < l.len() ==> Some(#[trigger] config_from_table(t).staff[k]) == l[k],
{
}

/// Why a configuration document was refused.
#[derive(Debug, Clone, Copy, PartialEq, Eq)]
pub enum ConfigError {
    /// The document is not valid TOML ("failed to parse config!").
    Unparsable,
    /// A setting is missing or of the wrong type.
    Invalid,
}

pub open spec fn table_view(t: Seq<(String, ConfigValue)>) -> ConfigTableView {
    t.map_values(|e: (String, ConfigValue)| (e.0@, e.1.deep_view()))
}

/// The index of the entry that `lookup` finds.
fn find(t: &Vec<(String, ConfigValue)>, key: &str) -> (r: Option<usize>)
    ensures
        match r {
            Some(i) => i < t@.len() && lookup(table_view(t@), key@) == Some(t@[i as int].1.deep_view()),
            None => lookup(table_view(t@), key@) is None,
        },
{
    let ghost tv = table_view(t@);
    assert(tv.skip(0) =~= tv);
    let mut i: usize = 0;
    while i < t.len()
        invariant
            i <= t@.len(),
            tv == table_view(t@),
            lookup(tv, key@) == lookup(tv.skip(i as int), key@),
        decreases t@.len() - i,
    {
        assert(tv.skip(i as int).drop_first() =~= tv.skip(i + 1));
        if str_eq(t[i].0.as_str(), key) {
            return Some(i);
        }
        i = i + 1;
    }
    assert(tv.skip(i as int).len() == 0);
    None
}

fn get_str(t: &Vec<(String, ConfigValue)>, key: &str) -> (r: Option<String>)
    ensures
        r is Some == is_str(lookup(table_view(t@), key@)),
        r matches Some(s) ==> s@ == str_of(lookup(table_view(t@), key@)),
{
    match find(t, key) {
        Some(i) => match &t[i].1 {
            ConfigValue::Str(s) => Some(s.clone()),
            _ => None,
        },
        None => None,
    }
}

fn get_bool(t: &Vec<(String, ConfigValue)>, key: &str) -> (r: Option<bool>)
    ensures
        r is Some == is_bool(lookup(table_view(t@), key@)),
        r matches Some(b) ==> b == bool_of(lookup(table_view(t@), key@)),
{
    match find(t, key) {
        Some(i) => match &t[i].1 {
            ConfigValue::Bool(b) => Some(*b),
            _ => None,
        },
        None => None,
    }
}

/// `Ok(None)` when the key is absent, `Ok(Some(i))` for an integer, `Err` for
/// another type.
fn get_int(t: &Vec<(String, ConfigValue)>, key: &str) -> (r: Result<Option<i64>, ()>)
    ensures
        match r {
            Ok(None) => lookup(table_view(t@), key@) is None,
            Ok(Some(i)) => lookup(table_view(t@), key@) == Some(ConfigValueView::Int(i)),
            Err(_) => lookup(table_view(t@), key@) matches Some(v) && !(v is Int),
        },
{
    match find(t, key) {
        Some(i) => match &t[i].1 {
            ConfigValue::Int(v) => Ok(Some(*v)),
            _ => Err(()),
        },
        None => Ok(None),
    }
}

fn get_list(t: &Vec<(String, ConfigValue)>, key: &str) -> (r: Option<Vec<String>>)
    ensures
        r is Some == is_string_list(lookup(table_view(t@), key@)),
        r matches Some(l) ==> strings_view(l@) == list_of(lookup(table_view(t@), key@)),
{
    let i = match find(t, key) {
        Some(i) => i,
        None => return None,
    };
    let items = match &t[i].1 {
        ConfigValue::List(items) => items,
        _ => return None,
    };
    let ghost lv = items@.map_values(|o: Option<String>| opt_string_view(o));
    assert(lookup(table_view(t@), key@) == Some(ConfigValueView::List(lv)));
    let mut out: Vec<String> = Vec::new();
    let mut j: usize = 0;
    while j < items.len()
        invariant
            j <= items@.len(),
            lv == items@.map_values(|o: Option<String>| opt_string_view(o)),
            lookup(table_view(t@), key@) == Some(ConfigValueView::List(lv)),
            out@.len() == j,
            forall|k: int| 0 <= k < j ==> lv[k] is Some && out@[k]@ == lv[k]->0,
        decreases items@.len() - j,
    {
        match &items[j] {
            Some(s) => out.push(s.clone()),
            None => {
                assert(lv[j as int] is None);
                return None;
            },
        }
        j = j + 1;
    }
    assert(strings_view(out@) =~= lv.map_values(|o: Option<Seq<char>>| o.unwrap()));
    Some(out)
}

/// Whether a configuration can be read from the table.
pub fn config_table_check(t: &Vec<(String, ConfigValue)>) -> (r: bool)
    ensures
        r == config_table_ok(table_view(t@)),
{
    let ghost tv = table_view(t@);
    let strs_ok = get_str(t, "class").is_some() && get_str(t, "db_addr").is_some()
        && get_str(t, "db_name").is_some() && get_str(t, "db_user").is_some()
        && get_str(t, "db_password").is_some() && get_str(t, "template_dir").is_some()
        && get_str(t, "resource_dir").is_some() && get_str(t, "secret").is_some()
        && get_str(t, "anthropic_api_key").is_some() && get_str(t, "smtp_server").is_some()
        && get_str(t, "smtp_user").is_some() && get_str(t, "smtp_password").is_some()
        && get_str(t, "smtp_from").is_some();
    let ghost keys = required_str_keys();
    assert(strs_ok == forall|i: int| 0 <= i < keys.len() ==> is_str(lookup(tv, #[trigger] keys[i]))) by {
        if strs_ok {
            assert forall|i: int| 0 <= i < keys.len() implies is_str(lookup(tv, #[trigger] keys[i])) by {
                assert(0 <= i < 13);
            }
        } else {
            assert(!is_str(lookup(tv, keys[0])) || !is_str(lookup(tv, keys[1]))
                || !is_str(lookup(tv, keys[2])) || !is_str(lookup(tv, keys[3]))
                || !is_str(lookup(tv, keys[4])) || !is_str(lookup(tv, keys[5]))
                || !is_str(lookup(tv, keys[6])) || !is_str(lookup(tv, keys[7]))
                || !is_str(lookup(tv, keys[8])) || !is_str(lookup(tv, keys[9]))
                || !is_str(lookup(tv, keys[10])) || !is_str(lookup(tv, keys[11]))
                || !is_str(lookup(tv, keys[12])));
        }
    }
    let port_ok = match get_int(t, "port") {
        Ok(None) => true,
        Ok(Some(p)) => 0 <= p && p <= 65535,
        Err(_) => false,
    };
    let smtp_port_ok = match get_int(t, "smtp_port") {
        Ok(Some(_)) => true,
        _ => false,
    };
    let domain_ok = match find(t, "email_domain") {
        None => true,
        Some(i) => match &t[i].1 {
            ConfigValue::Str(_) => true,
            _ => false,
        },
    };
    strs_ok && port_ok && get_list(t, "admins").is_some() && get_list(t, "staff").is_some()
        && domain_ok && get_bool(t, "send_emails").is_some() && smtp_port_ok
        && get_bool(t, "prime").is_some()
}

/// The suffix a registering address has to end in: the configured domain,
/// trimmed and lowercased, or `None` when no (or an empty) domain is set.
pub open spec fn domain_suffix(email_domain: Option<Seq<char>>) -> Option<Seq<char>> {
    match email_domain {
        None => None,
        Some(d) => if trimmed(d).len() == 0 {
            None
        } else {
            Some(lowercased(trimmed(d)))
        },
    }
}

/// A configured domain that is empty or only whitespace restricts nothing, as
/// an absent one does.
pub proof fn lemma_blank_domain_is_unrestricted(d: Seq<char>)
    requires
        forall|i: int| 0 <= i < d.len() ==> is_white_space(#[trigger] d[i]),
    ensures
        domain_suffix(Some(d)) is None,
{
    lemma_blank_trims_to_empty(d);
}

impl Config {
    /// The suffix an address has to end in, or `None` if registration is
    /// unrestricted. The config states the domain with its `@` (`"@bu.edu"`),
    /// so the value is already the suffix; it is only trimmed and lowercased
    /// here, to match addresses case insensitively.
    pub fn email_domain_suffix(&self) -> (r: Option<String>)
        ensures
            opt_string_view(r) == domain_suffix(self@.email_domain),
    {
        match &self.email_domain {
            None => None,
            Some(d) => {
                let t = trim(d.as_str());
                if t.as_str().is_empty() {
                    None
                } else {
                    Some(to_lowercase(t.as_str()))
                }
            },
        }
    }

    /// Reads a configuration from the text of a TOML document. The document
    /// is refused with `Unparsable` when it is not TOML, and with `Invalid`
    /// when a required setting is missing, a setting has the wrong type, or
    /// the port is outside 0..=65535. Such a document yields no configuration
    /// at all: the server that reads it stops before it starts, and this
    /// function reports why instead of stopping the program itself.
    pub fn parse(text: &str) -> (r: Result<Config, ConfigError>)
        ensures
            match toml_top_level(text@) {
                None => r == Err::<Config, ConfigError>(ConfigError::Unparsable),
                Some(t) => match r {
                    Ok(c) => config_table_ok(t) && c@ == config_from_table(t),
                    Err(e) => !config_table_ok(t) && e == ConfigError::Invalid,
                },
            },
    {
        match parse_toml(text) {
            None => Err(ConfigError::Unparsable),
            Some(t) => {
                proof {
                    assert(table_view(t@) == t.deep_view());
                }
                if config_table_check(&t) {
                    Ok(Config::from_table(&t))
                } else {
                    Err(ConfigError::Invalid)
                }
            },
        }
    }

    /// The configuration that a well-formed table describes.
    pub fn from_table(t: &Vec<(String, ConfigValue)>) -> (c: Config)
        requires
            config_table_ok(table_view(t@)),
        ensures
            c@ == config_from_table(table_view(t@)),
    {
        let ghost tv = table_view(t@);
        assert(is_str(lookup(tv, required_str_keys()[0])));
        assert(is_str(lookup(tv, required_str_keys()[1])));
        assert(is_str(lookup(tv, required_str_keys()[2])));
        assert(is_str(lookup(tv, required_str_keys()[3])));
        assert(is_str(lookup(tv, required_str_keys()[4])));
        assert(is_str(lookup(tv, required_str_keys()[5])));
        assert(is_str(lookup(tv, required_str_keys()[6])));
        assert(is_str(lookup(tv, required_str_keys()[7])));
        assert(is_str(lookup(tv, required_str_keys()[8])));
        assert(is_str(lookup(tv, required_str_keys()[9])));
        assert(is_str(lookup(tv, required_str_keys()[10])));
        assert(is_str(lookup(tv, required_str_keys()[11])));
        assert(is_str(lookup(tv, required_str_keys()[12])));
        let port = match get_int(t, "port") {
            Ok(Some(p)) => p as u16,
            _ => 8000,
        };
        let smtp_port = match get_int(t, "smtp_port") {
            Ok(Some(p)) => p as u16,
            _ => 0,
        };
        let email_domain = match find(t, "email_domain") {
            Some(i) => match &t[i].1 {
                ConfigValue::Str(s) => Some(s.clone()),
                _ => None,
            },
            None => None,
        };
        Config {
            class: get_str(t, "class").unwrap(),
            port,
            db_addr: get_str(t, "db_addr").unwrap(),
            db_name: get_str(t, "db_name").unwrap(),
            db_user: get_str(t, "db_user").unwrap(),
            db_password: get_str(t, "db_password").unwrap(),
            admins: get_list(t, "admins").unwrap(),
            staff: get_list(t, "staff").unwrap(),
            email_domain,
            template_dir: get_str(t, "template_dir").unwrap(),
            resource_dir: get_str(t, "resource_dir").unwrap(),
            secret: get_str(t, "secret").unwrap(),
            anthropic_api_key: get_str(t, "anthropic_api_key").unwrap(),
            send_emails: get_bool(t, "send_emails").unwrap(),
            smtp_server: get_str(t, "smtp_server").unwrap(),
            smtp_port,
            smtp_user: get_str(t, "smtp_user").unwrap(),
            smtp_password: get_str(t, "smtp_password").unwrap(),
            smtp_from: get_str(t, "smtp_from").unwrap(),
            prime: get_bool(t, "prime").unwrap(),
        }
    }
}

} // verus!
