//! Start-up configuration read from environment variables.
//!
//! Every variable must be set and non-empty; the first one that is missing or
//! malformed stops the start-up with a message naming it.
use vstd::prelude::*;
use crate::decimal::{parse_unsigned, parse_unsigned_up_to};

verus! {

/// The configuration the server runs with.
pub struct Env {
    pub unsplash_api_key: String,
    pub resend_api_key: String,
    pub database_url: String,
    /// Read by the error reporter at start-up.
    pub sentry_dsn: String,
    pub enable_sentry: bool,
    pub rate_limit_per_ms: u64,
    pub rate_limit_burst: u32,
}

/// The raw values of the variables, as `std::env::var(..).ok()` gives them.
pub struct RawEnv {
    pub unsplash_api_key: Option<String>,
    pub resend_api_key: Option<String>,
    pub database_url: Option<String>,
    pub sentry_dsn: Option<String>,
    pub enable_sentry: Option<String>,
    pub rate_limit_per_ms: Option<String>,
    pub rate_limit_burst: Option<String>,
}

pub open spec fn opt_view(o: Option<String>) -> Option<Seq<char>> {
    match o {
        Some(s) => Some(s@),
        None => None,
    }
}

/// A variable that must be set and non-empty.
pub open spec fn string_setting(key: Seq<char>, raw: Option<Seq<char>>) -> Result<Seq<char>, Seq<char>> {
    match raw {
        Some(v) => if v.len() > 0 {
            Ok(v)
        } else {
            Err(key + " must be set and non-empty"@)
        },
        None => Err(key + " must be set and non-empty"@),
    }
}

/// A variable that must read exactly `true` or `false`.
pub open spec fn bool_setting(key: Seq<char>, raw: Option<Seq<char>>) -> Result<bool, Seq<char>> {
    match string_setting(key, raw) {
        Err(e) => Err(e),
        Ok(v) => if v == "true"@ {
            Ok(true)
        } else if v == "false"@ {
            Ok(false)
        } else {
            Err(key + " must be 'true' or 'false', got '"@ + v + "'"@)
        },
    }
}

/// A variable that must read as an unsigned integer no larger than `max`.
pub open spec fn int_setting(key: Seq<char>, raw: Option<Seq<char>>, max: nat) -> Result<nat, Seq<char>> {
    match string_setting(key, raw) {
        Err(e) => Err(e),
        Ok(v) => match parse_unsigned(v, max) {
            Some(n) => Ok(n),
            None => Err(key + " must be a valid integer, got '"@ + v + "'"@),
        },
    }
}

/// The message start-up stops with for these raw values, if any: that of
/// the first variable, in field order, that is not acceptable.
pub open spec fn first_env_error(raw: RawEnv) -> Option<Seq<char>> {
    if string_setting("UNSPLASH_API_KEY"@, opt_view(raw.unsplash_api_key)) is Err {
        Some(string_setting("UNSPLASH_API_KEY"@, opt_view(raw.unsplash_api_key))->Err_0)
    } else if string_setting("RESEND_API_KEY"@, opt_view(raw.resend_api_key)) is Err {
        Some(string_setting("RESEND_API_KEY"@, opt_view(raw.resend_api_key))->Err_0)
    } else if string_setting("DATABASE_URL"@, opt_view(raw.database_url)) is Err {
        Some(string_setting("DATABASE_URL"@, opt_view(raw.database_url))->Err_0)
    } else if string_setting("SENTRY_DSN"@, opt_view(raw.sentry_dsn)) is Err {
        Some(string_setting("SENTRY_DSN"@, opt_view(raw.sentry_dsn))->Err_0)
    } else if bool_setting("ENABLE_SENTRY"@, opt_view(raw.enable_sentry)) is Err {
        Some(bool_setting("ENABLE_SENTRY"@, opt_view(raw.enable_sentry))->Err_0)
    } else if int_setting("RATE_LIMIT_PER_MS"@, opt_view(raw.rate_limit_per_ms), u64::MAX as nat) is Err {
        Some(int_setting("RATE_LIMIT_PER_MS"@, opt_view(raw.rate_limit_per_ms), u64::MAX as nat)->Err_0)
    } else if int_setting("RATE_LIMIT_BURST"@, opt_view(raw.rate_limit_burst), u32::MAX as nat) is Err {
        Some(int_setting("RATE_LIMIT_BURST"@, opt_view(raw.rate_limit_burst), u32::MAX as nat)->Err_0)
    } else {
        None
    }
}

/// The message of a failed setting, or `None` when it was read.
pub open spec fn setting_error<T>(r: Result<T, Seq<char>>) -> Option<Seq<char>> {
    match r {
        Ok(_) => None,
        Err(e) => Some(e),
    }
}

/// The message start-up stops with when `key`, which must be set and
/// non-empty, has the raw value `raw`; `None` when the value is acceptable.
pub fn string_env_error(key: &str, raw: &Option<String>) -> (m: Option<String>)
    ensures
        opt_view(m) == setting_error(string_setting(key@, opt_view(*raw))),
{
    match raw {
        Some(v) => {
            if !v.as_str().is_empty() {
                return None;
            }
        },
        None => {},
    }
    Some(String::from_str(key).concat(" must be set and non-empty"))
}

/// The message start-up stops with when `key`, which must be `true` or
/// `false`, has the raw value `raw`; `None` when the value is acceptable.
pub fn bool_env_error(key: &str, raw: &Option<String>) -> (m: Option<String>)
    ensures
        opt_view(m) == setting_error(bool_setting(key@, opt_view(*raw))),
{
    let missing = string_env_error(key, raw);
    if missing.is_some() {
        return missing;
    }
    match raw {
        Some(v) => {
            let yes = String::from_str("true");
            let no = String::from_str("false");
            if *v == yes || *v == no {
                None
            } else {
                Some(String::from_str(key).concat(" must be 'true' or 'false', got '").concat(v.as_str()).concat("'"))
            }
        },
        None => missing,
    }
}

/// The message start-up stops with when `key`, which must be an unsigned
/// integer no larger than `max`, has the raw value `raw`; `None` when the
/// value is acceptable.
pub fn parse_env_error(key: &str, raw: &Option<String>, max: u64) -> (m: Option<String>)
    ensures
        opt_view(m) == setting_error(int_setting(key@, opt_view(*raw), max as nat)),
{
    let missing = string_env_error(key, raw);
    if missing.is_some() {
        return missing;
    }
    match raw {
        Some(v) => match parse_unsigned_up_to(v.as_str(), max) {
            Some(_) => None,
            None => Some(String::from_str(key).concat(" must be a valid integer, got '").concat(v.as_str()).concat("'")),
        },
        None => missing,
    }
}

/// Reads a variable that must be set and non-empty. Start-up stops before
/// any other value reaches this (see `string_env_error`).
pub fn get_string_env(key: &str, raw: Option<String>) -> (r: String)
    requires
        string_setting(key@, opt_view(raw)) is Ok,
    ensures
        string_setting(key@, opt_view(raw)) == Ok::<Seq<char>, Seq<char>>(r@),
{
    match raw {
        Some(v) => v,
        None => {
            proof {
                assert(false);
            }
            String::new()
        },
    }
}

/// Reads a variable that must be exactly `true` or `false`. Start-up stops
/// before any other value reaches this (see `bool_env_error`).
pub fn get_bool_env(key: &str, raw: Option<String>) -> (b: bool)
    requires
        bool_setting(key@, opt_view(raw)) is Ok,
    ensures
        bool_setting(key@, opt_view(raw)) == Ok::<bool, Seq<char>>(b),
{
    let v = get_string_env(key, raw);
    let yes = String::from_str("true");
    v == yes
}

/// Reads a variable that must be an unsigned integer no larger than `max`.
/// Start-up stops before any other value reaches this (see
/// `parse_env_error`).
pub fn get_parse_env(key: &str, raw: Option<String>, max: u64) -> (n: u64)
    requires
        int_setting(key@, opt_view(raw), max as nat) is Ok,
    ensures
        int_setting(key@, opt_view(raw), max as nat) == Ok::<nat, Seq<char>>(n as nat),
{
    let v = get_string_env(key, raw);
    match parse_unsigned_up_to(v.as_str(), max) {
        Some(n) => n,
        None => {
            proof {
                assert(false);
            }
            0
        },
    }
}

/// The message start-up stops with for these raw values, naming the first
/// variable, in field order, that is missing or malformed; `None` when every
/// value is acceptable.
pub fn env_error(raw: &RawEnv) -> (m: Option<String>)
    ensures
        opt_view(m) == first_env_error(*raw),
{
    let m = string_env_error("UNSPLASH_API_KEY", &raw.unsplash_api_key);
    if m.is_some() {
        return m;
    }
    let m = string_env_error("RESEND_API_KEY", &raw.resend_api_key);
    if m.is_some() {
        return m;
    }
    let m = string_env_error("DATABASE_URL", &raw.database_url);
    if m.is_some() {
        return m;
    }
    let m = string_env_error("SENTRY_DSN", &raw.sentry_dsn);
    if m.is_some() {
        return m;
    }
    let m = bool_env_error("ENABLE_SENTRY", &raw.enable_sentry);
    if m.is_some() {
        return m;
    }
    let m = parse_env_error("RATE_LIMIT_PER_MS", &raw.rate_limit_per_ms, u64::MAX);
    if m.is_some() {
        return m;
    }
    parse_env_error("RATE_LIMIT_BURST", &raw.rate_limit_burst, 0xffff_ffff)
}

impl Env {
    /// Builds the configuration from the raw variable values. Start-up
    /// stops, naming the first bad variable (see `env_error`), before any
    /// values that are missing or malformed reach this.
    pub fn init(raw: RawEnv) -> (env: Env)
        requires
            first_env_error(raw) is None,
        ensures
            env.unsplash_api_key@ == opt_view(raw.unsplash_api_key)->Some_0,
            env.resend_api_key@ == opt_view(raw.resend_api_key)->Some_0,
            env.database_url@ == opt_view(raw.database_url)->Some_0,
            env.sentry_dsn@ == opt_view(raw.sentry_dsn)->Some_0,
            Ok::<bool, Seq<char>>(env.enable_sentry) == bool_setting("ENABLE_SENTRY"@, opt_view(raw.enable_sentry)),
            Ok::<nat, Seq<char>>(env.rate_limit_per_ms as nat) == int_setting("RATE_LIMIT_PER_MS"@, opt_view(raw.rate_limit_per_ms), u64::MAX as nat),
            Ok::<nat, Seq<char>>(env.rate_limit_burst as nat) == int_setting("RATE_LIMIT_BURST"@, opt_view(raw.rate_limit_burst), u32::MAX as nat),
    {
        let RawEnv {
            unsplash_api_key,
            resend_api_key,
            database_url,
            sentry_dsn,
            enable_sentry,
            rate_limit_per_ms,
            rate_limit_burst,
        } = raw;
        let unsplash_api_key = get_string_env("UNSPLASH_API_KEY", unsplash_api_key);
        let resend_api_key = get_string_env("RESEND_API_KEY", resend_api_key);
        let database_url = get_string_env("DATABASE_URL", database_url);
        let sentry_dsn = get_string_env("SENTRY_DSN", sentry_dsn);
        let enable_sentry = get_bool_env("ENABLE_SENTRY", enable_sentry);
        let rate_limit_per_ms = get_parse_env("RATE_LIMIT_PER_MS", rate_limit_per_ms, u64::MAX);
        let burst = get_parse_env("RATE_LIMIT_BURST", rate_limit_burst, 0xffff_ffff);
        let rate_limit_burst = burst as u32;
        Env {
            unsplash_api_key,
            resend_api_key,
            database_url,
            sentry_dsn,
            enable_sentry,
            rate_limit_per_ms,
            rate_limit_burst,
        }
    }
}

/// A string variable that is missing or empty always stops start-up, and
/// it is the one named when every variable before it is acceptable.
pub proof fn lemma_missing_variable_stops_start_up(raw: RawEnv)
    ensures
        opt_view(raw.unsplash_api_key) matches Some(v) ==> v.len() == 0 ==> first_env_error(raw) == Some(
            "UNSPLASH_API_KEY"@ + " must be set and non-empty"@,
        ),
        raw.unsplash_api_key is None ==> first_env_error(raw) == Some("UNSPLASH_API_KEY"@ + " must be set and non-empty"@),
        !(opt_view(raw.resend_api_key) matches Some(v) && v.len() > 0) ==> first_env_error(raw) is Some,
        !(opt_view(raw.database_url) matches Some(v) && v.len() > 0) ==> first_env_error(raw) is Some,
        !(opt_view(raw.sentry_dsn) matches Some(v) && v.len() > 0) ==> first_env_error(raw) is Some,
        (opt_view(raw.unsplash_api_key) matches Some(v) && v.len() > 0)
            && (opt_view(raw.resend_api_key) matches Some(v) && v.len() > 0)
            && !(opt_view(raw.database_url) matches Some(v) && v.len() > 0)
            ==> first_env_error(raw) == Some("DATABASE_URL"@ + " must be set and non-empty"@),
{
}

/// A configuration that start-up accepts has every string variable set
/// and non-empty, `ENABLE_SENTRY` exactly `true` or `false`, and both
/// rate-limit numbers in their types' ranges.
pub proof fn lemma_accepted_configuration_is_complete(raw: RawEnv)
    requires
        first_env_error(raw) is None,
    ensures
        opt_view(raw.unsplash_api_key) matches Some(v) && v.len() > 0,
        opt_view(raw.resend_api_key) matches Some(v) && v.len() > 0,
        opt_view(raw.database_url) matches Some(v) && v.len() > 0,
        opt_view(raw.sentry_dsn) matches Some(v) && v.len() > 0,
        opt_view(raw.enable_sentry) matches Some(v) && (v == "true"@ || v == "false"@),
        opt_view(raw.rate_limit_per_ms) matches Some(v) && parse_unsigned(v, u64::MAX as nat) is Some,
        opt_view(raw.rate_limit_burst) matches Some(v) && parse_unsigned(v, u32::MAX as nat) is Some,
{
}

/// Every value that `Env::init` accepts for a numeric variable reads back
/// from its decimal text.
pub proof fn lemma_numeric_settings_round_trip(key: Seq<char>, n: u64)
    ensures
        int_setting(key, Some(crate::decimal::decimal(n as nat)), u64::MAX as nat) == Ok::<nat, Seq<char>>(n as nat),
{
    crate::decimal::lemma_parse_decimal(n as nat, u64::MAX as nat);
    crate::decimal::lemma_decimal_digits(n as nat);
}

} // verus!
