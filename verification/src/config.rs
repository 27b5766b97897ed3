//! Server configuration, read from the values of the `LOOM_SERVER_*`
//! environment variables.
//!
//! Reading the environment is I/O; the caller hands over each variable's
//! value (`None` when it is unset or not Unicode) in a [`ConfigVars`].

use vstd::prelude::*;
use vstd::string::StringExecFns;
use crate::num::{IntErrorKind, dec_of, dec_string, int_error_message, int_error_text, parse_unsigned, parse_unsigned_exec};
use crate::text::{chars_of, list_items, split_on, split_trimmed_nonempty, string_views};

verus! {

broadcast use vstd::string::group_string_axioms;

/// The value of each configuration variable, `None` where it is unset.
#[derive(Debug)]
pub struct ConfigVars {
    /// `LOOM_SERVER_HOST`
    pub host: Option<String>,
    /// `LOOM_SERVER_PORT`
    pub port: Option<String>,
    /// `LOOM_SERVER_DATABASE_URL`
    pub database_url: Option<String>,
    /// `LOOM_SERVER_BASE_URL`
    pub base_url: Option<String>,
    /// `LOOM_SERVER_LOG_LEVEL`
    pub log_level: Option<String>,
    /// `LOOM_SERVER_BIN_DIR`
    pub bin_dir: Option<String>,
    /// `LOOM_SERVER_WEAVER_ENABLED`
    pub weaver_enabled: Option<String>,
    /// `LOOM_SERVER_WEAVER_K8S_NAMESPACE`
    pub weaver_namespace: Option<String>,
    /// `LOOM_SERVER_WEAVER_CLEANUP_INTERVAL_SECS`
    pub weaver_cleanup_interval_secs: Option<String>,
    /// `LOOM_SERVER_WEAVER_DEFAULT_TTL_HOURS`
    pub weaver_default_ttl_hours: Option<String>,
    /// `LOOM_SERVER_WEAVER_MAX_TTL_HOURS`
    pub weaver_max_ttl_hours: Option<String>,
    /// `LOOM_SERVER_WEAVER_MAX_CONCURRENT`
    pub weaver_max_concurrent: Option<String>,
    /// `LOOM_SERVER_WEAVER_READY_TIMEOUT_SECS`
    pub weaver_ready_timeout_secs: Option<String>,
    /// `LOOM_SERVER_WEAVER_WEBHOOKS`
    pub weaver_webhooks: Option<String>,
    /// `LOOM_SERVER_WEAVER_IMAGE_PULL_SECRETS`
    pub weaver_image_pull_secrets: Option<String>,
    /// `LOOM_SERVER_SMTP_HOST`
    pub smtp_host: Option<String>,
    /// `LOOM_SERVER_SMTP_PORT`
    pub smtp_port: Option<String>,
    /// `LOOM_SERVER_SMTP_USERNAME`
    pub smtp_username: Option<String>,
    /// `LOOM_SERVER_SMTP_PASSWORD`
    pub smtp_password: Option<String>,
    /// `LOOM_SERVER_SMTP_FROM_ADDRESS`
    pub smtp_from_address: Option<String>,
    /// `LOOM_SERVER_SMTP_FROM_NAME`
    pub smtp_from_name: Option<String>,
    /// `LOOM_SERVER_SMTP_USE_TLS`
    pub smtp_use_tls: Option<String>,
    /// `LOOM_SERVER_DEFAULT_LOCALE`
    pub default_locale: Option<String>,
    /// `LOOM_SERVER_JOB_ALERT_ENABLED`
    pub job_alert_enabled: Option<String>,
    /// `LOOM_SERVER_JOB_ALERT_RECIPIENTS`
    pub job_alert_recipients: Option<String>,
    /// `LOOM_SERVER_JOB_HISTORY_RETENTION_DAYS`
    pub job_history_retention_days: Option<String>,
    /// `LOOM_SERVER_SESSION_CLEANUP_INTERVAL_SECS`
    pub session_cleanup_interval_secs: Option<String>,
    /// `LOOM_SERVER_OAUTH_STATE_CLEANUP_INTERVAL_SECS`
    pub oauth_state_cleanup_interval_secs: Option<String>,
}

impl ConfigVars {
    /// Every variable unset.
    pub open spec fn is_empty(self) -> bool {
        &&& self.host is None && self.port is None && self.database_url is None
        &&& self.base_url is None && self.log_level is None && self.bin_dir is None
        &&& self.weaver_enabled is None && self.weaver_namespace is None
        &&& self.weaver_cleanup_interval_secs is None && self.weaver_default_ttl_hours is None
        &&& self.weaver_max_ttl_hours is None && self.weaver_max_concurrent is None
        &&& self.weaver_ready_timeout_secs is None && self.weaver_webhooks is None
        &&& self.weaver_image_pull_secrets is None && self.smtp_host is None && self.smtp_port is None
        &&& self.smtp_username is None && self.smtp_password is None && self.smtp_from_address is None
        &&& self.smtp_from_name is None && self.smtp_use_tls is None && self.default_locale is None
        &&& self.job_alert_enabled is None && self.job_alert_recipients is None
        &&& self.job_history_retention_days is None && self.session_cleanup_interval_secs is None
        &&& self.oauth_state_cleanup_interval_secs is None
    }

    /// An environment with no configuration variable set.
    pub fn unset() -> (v: ConfigVars)
        ensures
            v.is_empty(),
    {
        ConfigVars {
            host: None,
            port: None,
            database_url: None,
            base_url: None,
            log_level: None,
            bin_dir: None,
            weaver_enabled: None,
            weaver_namespace: None,
            weaver_cleanup_interval_secs: None,
            weaver_default_ttl_hours: None,
            weaver_max_ttl_hours: None,
            weaver_max_concurrent: None,
            weaver_ready_timeout_secs: None,
            weaver_webhooks: None,
            weaver_image_pull_secrets: None,
            smtp_host: None,
            smtp_port: None,
            smtp_username: None,
            smtp_password: None,
            smtp_from_address: None,
            smtp_from_name: None,
            smtp_use_tls: None,
            default_locale: None,
            job_alert_enabled: None,
            job_alert_recipients: None,
            job_history_retention_days: None,
            session_cleanup_interval_secs: None,
            oauth_state_cleanup_interval_secs: None,
        }
    }
}

/// Server configuration.
#[derive(Debug)]
pub struct ServerConfig {
    /// Host address to bind to.
    pub host: String,
    /// Port to listen on.
    pub port: u16,
    /// SQLite database URL.
    pub database_url: String,
    /// Public base URL for links.
    pub base_url: String,
    /// Log level filter.
    pub log_level: String,
    /// Directory containing platform binaries.
    pub bin_dir: String,
    /// Whether weaver provisioning is enabled.
    pub weaver_enabled: bool,
    /// Kubernetes namespace for weavers.
    pub weaver_namespace: String,
    /// Cleanup interval in seconds.
    pub weaver_cleanup_interval_secs: u64,
    /// Default weaver TTL in hours.
    pub weaver_default_ttl_hours: u32,
    /// Maximum weaver TTL in hours.
    pub weaver_max_ttl_hours: u32,
    /// Maximum concurrent weavers.
    pub weaver_max_concurrent: u32,
    /// Timeout waiting for a weaver's ready state, in seconds.
    pub weaver_ready_timeout_secs: u64,
    /// Webhooks JSON configuration.
    pub weaver_webhooks: String,
    /// Comma-separated image pull secret names.
    pub weaver_image_pull_secrets: String,
    /// SMTP server host name.
    pub smtp_host: Option<String>,
    /// SMTP server port.
    pub smtp_port: u16,
    /// SMTP user name.
    pub smtp_username: Option<String>,
    /// SMTP password.
    pub smtp_password: Option<String>,
    /// Address to send mail from.
    pub smtp_from_address: Option<String>,
    /// Display name for sent mail.
    pub smtp_from_name: String,
    /// Whether to use TLS for SMTP.
    pub smtp_use_tls: bool,
    /// Default locale for emails and API responses.
    pub default_locale: String,
    /// Whether job failures are mailed.
    pub job_alert_enabled: bool,
    /// Recipients of job alerts.
    pub job_alert_recipients: Vec<String>,
    /// Days of job run history to keep.
    pub job_history_retention_days: u32,
    /// Session cleanup interval in seconds.
    pub session_cleanup_interval_secs: u64,
    /// OAuth state cleanup interval in seconds.
    pub oauth_state_cleanup_interval_secs: u64,
}

/// Configuration errors.
#[derive(Debug)]
pub enum ConfigError {
    /// The port is not a number that fits in 16 bits; the message says why.
    InvalidPort(String),
    /// The named setting is not a number of its type; the message says why.
    InvalidValue(String, String),
}

impl ConfigError {
    /// The error as (setting name, message); no name for the port.
    pub open spec fn view_parts(self) -> (Option<Seq<char>>, Seq<char>) {
        match self {
            ConfigError::InvalidPort(m) => (None, m@),
            ConfigError::InvalidValue(n, m) => (Some(n@), m@),
        }
    }
}

/// The variable's value, or `default` when it is unset.
pub open spec fn or_default(v: Option<String>, default: Seq<char>) -> Seq<char> {
    match v {
        Some(s) => s@,
        None => default,
    }
}

/// The code of `c` lowered if it is an ASCII capital.
pub open spec fn ascii_lower(c: char) -> int {
    if 'A' <= c <= 'Z' {
        c as int + 32
    } else {
        c as int
    }
}

/// `a` and `b` are equal up to ASCII case (`str::eq_ignore_ascii_case`).
pub open spec fn eq_ignore_ascii_case(a: Seq<char>, b: Seq<char>) -> bool {
    a.len() == b.len() && forall|i: int| 0 <= i < a.len() ==> ascii_lower(a[i]) == ascii_lower(b[i])
}

/// A boolean setting: `true` (in any ASCII case) or `1` turn it on, any
/// other value turns it off, and an unset variable leaves the default.
pub open spec fn flag_of(v: Option<String>, default: bool) -> bool {
    match v {
        Some(s) => eq_ignore_ascii_case(s@, "true"@) || s@ == "1"@,
        None => default,
    }
}

/// The text `true` in any mix of ASCII cases.
pub open spec fn spells_true(s: Seq<char>) -> bool {
    &&& s.len() == 4
    &&& (s[0] == 't' || s[0] == 'T')
    &&& (s[1] == 'r' || s[1] == 'R')
    &&& (s[2] == 'u' || s[2] == 'U')
    &&& (s[3] == 'e' || s[3] == 'E')
}

/// A boolean setting is on exactly when it is set to `true`, in any ASCII
/// case, or to `1`; any other value (`false`, `0`, `yes`, the empty text)
/// turns it off, and an unset setting keeps its default.
pub proof fn lemma_boolean_settings(s: String, default: bool)
    ensures
        flag_of(Some(s), default) <==> (spells_true(s@) || s@ == seq!['1']),
        flag_of(None, default) == default,
{
    reveal_strlit("true");
    reveal_strlit("1");
    let t = s@;
    if eq_ignore_ascii_case(t, "true"@) {
        assert(ascii_lower(t[0]) == ascii_lower('t'));
        assert(ascii_lower(t[1]) == ascii_lower('r'));
        assert(ascii_lower(t[2]) == ascii_lower('u'));
        assert(ascii_lower(t[3]) == ascii_lower('e'));
    }
    if spells_true(t) {
        assert forall|i: int| 0 <= i < t.len() implies ascii_lower(t[i]) == ascii_lower("true"@[i]) by {}
    }
    if t == seq!['1'] {
        assert(t =~= "1"@);
    }
    if t == "1"@ {
        assert(t =~= seq!['1']);
    }
}

fn ascii_lower_exec(c: char) -> (r: u32)
    ensures
        r == ascii_lower(c),
{
    if 'A' <= c && c <= 'Z' {
        (c as u32) + 32
    } else {
        c as u32
    }
}

fn eq_ignore_ascii_case_exec(a: &str, b: &str) -> (r: bool)
    ensures
        r == eq_ignore_ascii_case(a@, b@),
{
    let x = chars_of(a);
    let y = chars_of(b);
    if x.len() != y.len() {
        return false;
    }
    let mut i: usize = 0;
    while i < x.len()
        invariant
            x@ == a@,
            y@ == b@,
            x.len() == y.len(),
            i <= x.len(),
            forall|k: int| 0 <= k < i ==> ascii_lower(a@[k]) == ascii_lower(b@[k]),
        decreases x.len() - i,
    {
        if ascii_lower_exec(x[i]) != ascii_lower_exec(y[i]) {
            return false;
        }
        i = i + 1;
    }
    true
}

fn flag_value(v: &Option<String>, default: bool) -> (r: bool)
    ensures
        r == flag_of(*v, default),
{
    match v {
        Some(s) => eq_ignore_ascii_case_exec(s.as_str(), "true") || crate::text::str_eq(s.as_str(), "1"),
        None => default,
    }
}

fn text_or(v: &Option<String>, default: &str) -> (r: String)
    ensures
        r@ == or_default(*v, default@),
{
    match v {
        Some(s) => s.clone(),
        None => default.to_string(),
    }
}

fn opt_clone(v: &Option<String>) -> (r: Option<String>)
    ensures
        r == *v,
{
    match v {
        Some(s) => Some(s.clone()),
        None => None,
    }
}

/// The largest `u16`.
pub open spec fn u16_max() -> nat {
    0xffff
}

/// The largest `u32`.
pub open spec fn u32_max() -> nat {
    0xffff_ffff
}

/// The largest `u64`.
pub open spec fn u64_max() -> nat {
    0xffff_ffff_ffff_ffff
}

/// A numeric setting: its name, the text it is read from, and the largest
/// value its type holds.
pub open spec fn numeric_settings(v: ConfigVars) -> Seq<(Seq<char>, Seq<char>, nat)> {
    seq![
        ("weaver_cleanup_interval_secs"@, or_default(v.weaver_cleanup_interval_secs, "1800"@), u64_max()),
        ("weaver_default_ttl_hours"@, or_default(v.weaver_default_ttl_hours, "4"@), u32_max()),
        ("weaver_max_ttl_hours"@, or_default(v.weaver_max_ttl_hours, "48"@), u32_max()),
        ("weaver_max_concurrent"@, or_default(v.weaver_max_concurrent, "64"@), u32_max()),
        ("weaver_ready_timeout_secs"@, or_default(v.weaver_ready_timeout_secs, "60"@), u64_max()),
        ("smtp_port"@, or_default(v.smtp_port, "587"@), u16_max()),
        ("job_history_retention_days"@, or_default(v.job_history_retention_days, "90"@), u32_max()),
        ("session_cleanup_interval_secs"@, or_default(v.session_cleanup_interval_secs, "3600"@), u64_max()),
        ("oauth_state_cleanup_interval_secs"@, or_default(v.oauth_state_cleanup_interval_secs, "900"@), u64_max()),
    ]
}

/// The first numeric setting, from `i` on, that does not read, as
/// (name, message).
pub open spec fn first_bad_setting(s: Seq<(Seq<char>, Seq<char>, nat)>, i: int) -> Option<(Seq<char>, Seq<char>)>
    decreases s.len() - i,
{
    if i < 0 || i >= s.len() {
        None
    } else {
        match parse_unsigned(s[i].1, s[i].2) {
            Err(k) => Some((s[i].0, int_error_message(k))),
            Ok(_) => first_bad_setting(s, i + 1),
        }
    }
}

/// The error that reading the configuration stops at, if any: the port is
/// checked first, then the other numeric settings in order.
pub open spec fn config_error(v: ConfigVars) -> Option<(Option<Seq<char>>, Seq<char>)> {
    match parse_unsigned(or_default(v.port, "8080"@), u16_max()) {
        Err(k) => Some((None, int_error_message(k))),
        Ok(_) => match first_bad_setting(numeric_settings(v), 0) {
            Some((n, m)) => Some((Some(n), m)),
            None => None,
        },
    }
}

/// The number a setting reads as (meaningful when it reads).
pub open spec fn num_of(v: Option<String>, default: Seq<char>, max: nat) -> nat {
    match parse_unsigned(or_default(v, default), max) {
        Ok(n) => n,
        Err(_) => 0,
    }
}

/// `c` is the configuration that the variables `v` describe.
pub open spec fn config_from(c: ServerConfig, v: ConfigVars) -> bool {
    let port = num_of(v.port, "8080"@, u16_max());
    &&& c.host@ == or_default(v.host, "0.0.0.0"@)
    &&& c.port == port
    &&& c.database_url@ == or_default(v.database_url, "sqlite:./loom.db"@)
    &&& c.base_url@ == or_default(v.base_url, "http://localhost:"@ + dec_of(port))
    &&& c.log_level@ == or_default(v.log_level, "info"@)
    &&& c.bin_dir@ == or_default(v.bin_dir, "./bin"@)
    &&& c.weaver_enabled == flag_of(v.weaver_enabled, false)
    &&& c.weaver_namespace@ == or_default(v.weaver_namespace, "loom-weavers"@)
    &&& c.weaver_cleanup_interval_secs == num_of(v.weaver_cleanup_interval_secs, "1800"@, u64_max())
    &&& c.weaver_default_ttl_hours == num_of(v.weaver_default_ttl_hours, "4"@, u32_max())
    &&& c.weaver_max_ttl_hours == num_of(v.weaver_max_ttl_hours, "48"@, u32_max())
    &&& c.weaver_max_concurrent == num_of(v.weaver_max_concurrent, "64"@, u32_max())
    &&& c.weaver_ready_timeout_secs == num_of(v.weaver_ready_timeout_secs, "60"@, u64_max())
    &&& c.weaver_webhooks@ == or_default(v.weaver_webhooks, "[]"@)
    &&& c.weaver_image_pull_secrets@ == or_default(v.weaver_image_pull_secrets, ""@)
    &&& c.smtp_host == v.smtp_host
    &&& c.smtp_port == num_of(v.smtp_port, "587"@, u16_max())
    &&& c.smtp_username == v.smtp_username
    &&& c.smtp_password == v.smtp_password
    &&& c.smtp_from_address == v.smtp_from_address
    &&& c.smtp_from_name@ == or_default(v.smtp_from_name, "Loom"@)
    &&& c.smtp_use_tls == flag_of(v.smtp_use_tls, true)
    &&& c.default_locale@ == or_default(v.default_locale, "en"@)
    &&& c.job_alert_enabled == flag_of(v.job_alert_enabled, false)
    &&& string_views(c.job_alert_recipients@) == list_items(split_on(or_default(v.job_alert_recipients, ""@), ','))
    &&& c.job_history_retention_days == num_of(v.job_history_retention_days, "90"@, u32_max())
    &&& c.session_cleanup_interval_secs == num_of(v.session_cleanup_interval_secs, "3600"@, u64_max())
    &&& c.oauth_state_cleanup_interval_secs == num_of(v.oauth_state_cleanup_interval_secs, "900"@, u64_max())
}

fn read_number(v: &Option<String>, default: &str, max: u64) -> (r: Result<u64, String>)
    ensures
        r is Ok <==> parse_unsigned(or_default(*v, default@), max as nat) is Ok,
        r matches Ok(n) ==> n <= max && n == num_of(*v, default@, max as nat),
        r matches Err(m) ==> parse_unsigned(or_default(*v, default@), max as nat) matches Err(k) && m@
            == int_error_message(k),
{
    let text = text_or(v, default);
    match parse_unsigned_exec(text.as_str(), max) {
        Ok(n) => Ok(n),
        Err(k) => Err(int_error_text(k)),
    }
}

impl ServerConfig {
    /// The configuration that the given variables describe, or the first
    /// setting that does not read as a number of its type.
    pub fn from_vars(v: &ConfigVars) -> (r: Result<ServerConfig, ConfigError>)
        ensures
            r is Err <==> config_error(*v) is Some,
            r matches Err(e) ==> config_error(*v) == Some(e.view_parts()),
            r matches Ok(c) ==> config_from(c, *v),
    {
        proof {
            reveal_with_fuel(first_bad_setting, 10);
        }
        let port = match read_number(&v.port, "8080", 0xffff) {
            Ok(n) => n as u16,
            Err(m) => {
                return Err(ConfigError::InvalidPort(m));
            },
        };
        let weaver_cleanup_interval_secs = match read_number(&v.weaver_cleanup_interval_secs, "1800", 0xffff_ffff_ffff_ffff) {
            Ok(n) => n,
            Err(m) => {
                return Err(ConfigError::InvalidValue("weaver_cleanup_interval_secs".to_string(), m));
            },
        };
        let weaver_default_ttl_hours = match read_number(&v.weaver_default_ttl_hours, "4", 0xffff_ffff) {
            Ok(n) => n as u32,
            Err(m) => {
                return Err(ConfigError::InvalidValue("weaver_default_ttl_hours".to_string(), m));
            },
        };
        let weaver_max_ttl_hours = match read_number(&v.weaver_max_ttl_hours, "48", 0xffff_ffff) {
            Ok(n) => n as u32,
            Err(m) => {
                return Err(ConfigError::InvalidValue("weaver_max_ttl_hours".to_string(), m));
            },
        };
        let weaver_max_concurrent = match read_number(&v.weaver_max_concurrent, "64", 0xffff_ffff) {
            Ok(n) => n as u32,
            Err(m) => {
                return Err(ConfigError::InvalidValue("weaver_max_concurrent".to_string(), m));
            },
        };
        let weaver_ready_timeout_secs = match read_number(&v.weaver_ready_timeout_secs, "60", 0xffff_ffff_ffff_ffff) {
            Ok(n) => n,
            Err(m) => {
                return Err(ConfigError::InvalidValue("weaver_ready_timeout_secs".to_string(), m));
            },
        };
        let smtp_port = match read_number(&v.smtp_port, "587", 0xffff) {
            Ok(n) => n as u16,
            Err(m) => {
                return Err(ConfigError::InvalidValue("smtp_port".to_string(), m));
            },
        };
        let job_history_retention_days = match read_number(&v.job_history_retention_days, "90", 0xffff_ffff) {
            Ok(n) => n as u32,
            Err(m) => {
                return Err(ConfigError::InvalidValue("job_history_retention_days".to_string(), m));
            },
        };
        let session_cleanup_interval_secs = match read_number(&v.session_cleanup_interval_secs, "3600", 0xffff_ffff_ffff_ffff) {
            Ok(n) => n,
            Err(m) => {
                return Err(ConfigError::InvalidValue("session_cleanup_interval_secs".to_string(), m));
            },
        };
        let oauth_state_cleanup_interval_secs = match read_number(&v.oauth_state_cleanup_interval_secs, "900", 0xffff_ffff_ffff_ffff) {
            Ok(n) => n,
            Err(m) => {
                return Err(ConfigError::InvalidValue("oauth_state_cleanup_interval_secs".to_string(), m));
            },
        };
        let base_url = match &v.base_url {
            Some(s) => s.clone(),
            None => "http://localhost:".to_string().concat(dec_string(port as u64).as_str()),
        };
        let recipients_text = text_or(&v.job_alert_recipients, "");
        let job_alert_recipients = split_trimmed_nonempty(recipients_text.as_str(), ',');
        Ok(ServerConfig {
            host: text_or(&v.host, "0.0.0.0"),
            port,
            database_url: text_or(&v.database_url, "sqlite:./loom.db"),
            base_url,
            log_level: text_or(&v.log_level, "info"),
            bin_dir: text_or(&v.bin_dir, "./bin"),
            weaver_enabled: flag_value(&v.weaver_enabled, false),
            weaver_namespace: text_or(&v.weaver_namespace, "loom-weavers"),
            weaver_cleanup_interval_secs,
            weaver_default_ttl_hours,
            weaver_max_ttl_hours,
            weaver_max_concurrent,
            weaver_ready_timeout_secs,
            weaver_webhooks: text_or(&v.weaver_webhooks, "[]"),
            weaver_image_pull_secrets: text_or(&v.weaver_image_pull_secrets, ""),
            smtp_host: opt_clone(&v.smtp_host),
            smtp_port,
            smtp_username: opt_clone(&v.smtp_username),
            smtp_password: opt_clone(&v.smtp_password),
            smtp_from_address: opt_clone(&v.smtp_from_address),
            smtp_from_name: text_or(&v.smtp_from_name, "Loom"),
            smtp_use_tls: flag_value(&v.smtp_use_tls, true),
            default_locale: text_or(&v.default_locale, "en"),
            job_alert_enabled: flag_value(&v.job_alert_enabled, false),
            job_alert_recipients,
            job_history_retention_days,
            session_cleanup_interval_secs,
            oauth_state_cleanup_interval_secs,
        })
    }

    /// The address to listen on, `host:port`.
    pub fn socket_addr(&self) -> (r: String)
        ensures
            r@ == self.host@ + ":"@ + dec_of(self.port as nat),
    {
        self.host.clone().concat(":").concat(dec_string(self.port as u64).as_str())
    }
}

/// The literal `s` spells the decimal number `n`.
proof fn lemma_literal_number(s: Seq<char>, n: nat, max: nat)
    requires
        s == dec_of(n),
        n <= max,
    ensures
        parse_unsigned(s, max) == Ok::<nat, IntErrorKind>(n),
{
    crate::num::lemma_dec_roundtrip(n, max);
}

/// With no variable set, every numeric setting reads (as its default), so
/// the configuration of an empty environment exists.
pub proof fn lemma_empty_environment_reads(v: ConfigVars)
    requires
        v.is_empty(),
    ensures
        config_error(v) is None,
        num_of(v.port, "8080"@, u16_max()) == 8080,
{
    reveal_strlit("8080");
    reveal_strlit("1800");
    reveal_strlit("4");
    reveal_strlit("48");
    reveal_strlit("64");
    reveal_strlit("60");
    reveal_strlit("587");
    reveal_strlit("90");
    reveal_strlit("3600");
    reveal_strlit("900");
    reveal_with_fuel(dec_of, 5);
    assert("8080"@ =~= dec_of(8080));
    assert("1800"@ =~= dec_of(1800));
    assert("4"@ =~= dec_of(4));
    assert("48"@ =~= dec_of(48));
    assert("64"@ =~= dec_of(64));
    assert("60"@ =~= dec_of(60));
    assert("587"@ =~= dec_of(587));
    assert("90"@ =~= dec_of(90));
    assert("3600"@ =~= dec_of(3600));
    assert("900"@ =~= dec_of(900));
    lemma_literal_number("8080"@, 8080, u16_max());
    lemma_literal_number("1800"@, 1800, u64_max());
    lemma_literal_number("4"@, 4, u32_max());
    lemma_literal_number("48"@, 48, u32_max());
    lemma_literal_number("64"@, 64, u32_max());
    lemma_literal_number("60"@, 60, u64_max());
    lemma_literal_number("587"@, 587, u16_max());
    lemma_literal_number("90"@, 90, u32_max());
    lemma_literal_number("3600"@, 3600, u64_max());
    lemma_literal_number("900"@, 900, u64_max());
    reveal_with_fuel(first_bad_setting, 10);
}

impl Default for ServerConfig {
    /// The configuration of an environment that sets no variable.
    fn default() -> (c: ServerConfig)
        ensures
            forall|v: ConfigVars| v.is_empty() ==> #[trigger] config_from(c, v),
    {
        let vars = ConfigVars::unset();
        proof {
            lemma_empty_environment_reads(vars);
        }
        match ServerConfig::from_vars(&vars) {
            Ok(c) => {
                proof {
                    assert forall|v: ConfigVars| v.is_empty() implies #[trigger] config_from(c, v) by {
                        assert(v == vars);
                    }
                }
                c
            },
            Err(_) => vstd::pervasive::unreached(),
        }
    }
}

impl ServerConfig {
    /// The SMTP host and sender address, when mail is configured: both must
    /// be set and non-empty.
    pub fn smtp_endpoint(&self) -> (r: Option<(String, String)>)
        ensures
            match (self.smtp_host, self.smtp_from_address) {
                (Some(h), Some(f)) if h@.len() > 0 && f@.len() > 0 => r == Some((h, f)),
                _ => r is None,
            },
    {
        match (&self.smtp_host, &self.smtp_from_address) {
            (Some(h), Some(f)) => {
                if h.as_str().is_empty() || f.as_str().is_empty() {
                    None
                } else {
                    Some((h.clone(), f.clone()))
                }
            },
            _ => None,
        }
    }

    /// The names of the image pull secrets for weavers: the trimmed,
    /// non-empty items of the comma-separated setting.
    pub fn weaver_pull_secret_names(&self) -> (r: Vec<String>)
        ensures
            string_views(r@) == list_items(split_on(self.weaver_image_pull_secrets@, ',')),
    {
        split_trimmed_nonempty(self.weaver_image_pull_secrets.as_str(), ',')
    }
}

} // verus!
