use vardy::env::{
    bool_env_error, env_error, get_bool_env, get_parse_env, get_string_env, parse_env_error,
    string_env_error, Env, RawEnv,
};

const TEST_KEY: &str = "TEST_GET_ENV_KEY";
const BOOL_KEY: &str = "TEST_GET_BOOL_KEY";
const TEST_GET_PARSE_KEY: &str = "TEST_GET_PARSE_KEY";

#[test]
fn get_env_returns_value_when_set_and_non_empty() {
    let raw = Some("hello".to_string());
    assert_eq!(string_env_error(TEST_KEY, &raw), None);
    assert_eq!(get_string_env(TEST_KEY, raw), "hello");
}

#[test]
fn get_env_fails_when_var_is_empty() {
    let err = string_env_error(TEST_KEY, &Some(String::new())).unwrap();
    assert_eq!(err, "TEST_GET_ENV_KEY must be set and non-empty");
}

#[test]
fn get_env_fails_when_var_is_missing() {
    let err = string_env_error(TEST_KEY, &None).unwrap();
    assert!(err.contains("must be set and non-empty"));
}

#[test]
fn get_bool_var_true() {
    assert_eq!(bool_env_error(BOOL_KEY, &Some("true".into())), None);
    assert!(get_bool_env(BOOL_KEY, Some("true".into())));
}

#[test]
fn get_bool_var_false() {
    assert_eq!(bool_env_error(BOOL_KEY, &Some("false".into())), None);
    assert!(!get_bool_env(BOOL_KEY, Some("false".into())));
}

#[test]
fn get_bool_var_fails_on_invalid() {
    let err = bool_env_error(BOOL_KEY, &Some("yes".into())).unwrap();
    assert_eq!(err, "TEST_GET_BOOL_KEY must be 'true' or 'false', got 'yes'");
}

#[test]
fn get_parse_env_returns_value_when_set_and_valid() {
    assert_eq!(parse_env_error(TEST_GET_PARSE_KEY, &Some("100".into()), u64::MAX), None);
    let result = get_parse_env(TEST_GET_PARSE_KEY, Some("100".into()), u64::MAX);
    assert_eq!(result, 100);
}

#[test]
fn get_parse_env_fails_on_invalid() {
    let err = parse_env_error(TEST_GET_PARSE_KEY, &Some("abc".into()), u64::MAX).unwrap();
    assert_eq!(err, "TEST_GET_PARSE_KEY must be a valid integer, got 'abc'");
}

#[test]
fn get_parse_env_fails_when_missing() {
    let err = parse_env_error(TEST_GET_PARSE_KEY, &None, u64::MAX).unwrap();
    assert!(err.contains("must be set and non-empty"));
}

#[test]
fn get_parse_env_respects_type_range() {
    assert_eq!(parse_env_error("K", &Some("4294967295".into()), u32::MAX as u64), None);
    assert_eq!(get_parse_env("K", Some("4294967295".into()), u32::MAX as u64), 4294967295);
    assert!(parse_env_error("K", &Some("4294967296".into()), u32::MAX as u64).is_some());
    assert_eq!(parse_env_error("K", &Some("+7".into()), u64::MAX), None);
    assert_eq!(get_parse_env("K", Some("+7".into()), u64::MAX), 7);
    assert!(parse_env_error("K", &Some("-7".into()), u64::MAX).is_some());
    assert!(parse_env_error("K", &Some(" 7".into()), u64::MAX).is_some());
}

fn complete() -> RawEnv {
    RawEnv {
        unsplash_api_key: Some("u-key".into()),
        resend_api_key: Some("r-key".into()),
        database_url: Some("sqlite::memory:".into()),
        sentry_dsn: Some("https://dsn".into()),
        enable_sentry: Some("false".into()),
        rate_limit_per_ms: Some("1".into()),
        rate_limit_burst: Some("1000000".into()),
    }
}

#[test]
fn env_init_reads_every_variable() {
    assert_eq!(env_error(&complete()), None);
    let env = Env::init(complete());
    assert_eq!(env.unsplash_api_key, "u-key");
    assert_eq!(env.resend_api_key, "r-key");
    assert_eq!(env.database_url, "sqlite::memory:");
    assert_eq!(env.sentry_dsn, "https://dsn");
    assert!(!env.enable_sentry);
    assert_eq!(env.rate_limit_per_ms, 1);
    assert_eq!(env.rate_limit_burst, 1_000_000);
}

#[test]
fn env_init_names_the_first_bad_variable() {
    let mut raw = complete();
    raw.database_url = None;
    raw.rate_limit_burst = Some("lots".into());
    assert_eq!(env_error(&raw).unwrap(), "DATABASE_URL must be set and non-empty");

    let mut raw = complete();
    raw.rate_limit_burst = Some("4294967296".into());
    assert_eq!(env_error(&raw).unwrap(), "RATE_LIMIT_BURST must be a valid integer, got '4294967296'");

    let mut raw = complete();
    raw.enable_sentry = Some("TRUE".into());
    assert_eq!(env_error(&raw).unwrap(), "ENABLE_SENTRY must be 'true' or 'false', got 'TRUE'");
}

#[test]
fn formatted_numbers_read_back_as_settings() {
    for n in [0u64, 1, 1_000, u64::MAX] {
        let text = vardy::decimal::format_u64(n);
        assert_eq!(parse_env_error("RATE_LIMIT_PER_MS", &Some(text.clone()), u64::MAX), None);
        assert_eq!(get_parse_env("RATE_LIMIT_PER_MS", Some(text), u64::MAX), n);
    }
}

#[test]
fn missing_unsplash_key_stops_start_up() {
    let mut raw = complete();
    raw.unsplash_api_key = Some(String::new());
    assert_eq!(env_error(&raw).unwrap(), "UNSPLASH_API_KEY must be set and non-empty");
}
