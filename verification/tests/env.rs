use kontena::error::Error;
use kontena::util::{env_bool, env_or, env_parse, EnvValue};

fn set(s: &str) -> EnvValue {
    EnvValue::Present(s.to_string())
}

#[test]
fn env_or_returns_value_when_set() {
    assert_eq!(env_or(&set("hello"), "fallback"), "hello");
}

#[test]
fn env_or_returns_default_when_unset() {
    assert_eq!(env_or(&EnvValue::Missing, "fallback"), "fallback");
}

#[test]
fn env_or_returns_empty_string_when_set_empty() {
    assert_eq!(env_or(&set(""), "fallback"), "");
}

#[test]
fn env_bool_recognises_true_variants() {
    for val in ["true", "1", "yes"] {
        assert!(env_bool(&set(val), false), "expected true for {val:?}");
    }
}

#[test]
fn env_bool_rejects_non_truthy_strings() {
    for val in ["false", "0", "no", "TRUE", "Yes", ""] {
        assert!(!env_bool(&set(val), true), "expected false for {val:?}");
    }
}

#[test]
fn env_bool_returns_default_when_unset() {
    assert!(env_bool(&EnvValue::Missing, true));
    assert!(!env_bool(&EnvValue::Missing, false));
}

#[test]
fn env_parse_returns_parsed_value() {
    let v: u32 = env_parse("TEST_ENV_PARSE_OK", &set("42"), 0).unwrap();
    assert_eq!(v, 42);
}

#[test]
fn env_parse_returns_default_when_unset() {
    let v: u32 = env_parse("TEST_ENV_PARSE_UNSET", &EnvValue::Missing, 99).unwrap();
    assert_eq!(v, 99);
}

#[test]
fn env_parse_errors_on_invalid_value() {
    let result: Result<u32, _> = env_parse("TEST_ENV_PARSE_BAD", &set("not_a_number"), 0);
    assert!(result.is_err());
    let msg = result.unwrap_err().message();
    assert!(msg.contains("not_a_number"), "error should mention the bad value: {msg}");
}

#[test]
fn env_parse_handles_negative_for_unsigned() {
    let result: Result<u32, _> = env_parse("TEST_ENV_PARSE_NEG", &set("-1"), 0);
    assert!(result.is_err());
}

#[test]
fn env_parse_handles_overflow() {
    let result: Result<u32, _> = env_parse("TEST_ENV_PARSE_OVER", &set("999999999999999"), 0);
    assert!(result.is_err());
}

#[test]
fn env_parse_handles_bool_type() {
    let v: bool = env_parse("TEST_ENV_PARSE_BOOL", &set("true"), false).unwrap();
    assert!(v);
}

#[test]
fn env_parse_error_is_env_parse_variant() {
    let err = env_parse::<u32>("TEST_ENV_PARSE_TYPED", &set("abc"), 0).unwrap_err();
    assert!(matches!(err, Error::EnvParse { .. }));
}

fn assert_send_sync<T: Send + Sync>() {}

#[test]
fn env_error_is_send_sync() {
    assert_send_sync::<Error>();
}

#[test]
fn env_parse_unreadable_is_env_read() {
    let err = env_parse::<u32>("KEY", &EnvValue::Unreadable("bad bytes".into()), 1).unwrap_err();
    match err {
        Error::EnvRead { key, reason } => {
            assert_eq!(key, "KEY");
            assert_eq!(reason, "bad bytes");
        }
        other => panic!("unexpected {other:?}"),
    }
}

#[test]
fn env_parse_error_carries_key_value_and_reason() {
    let err = env_parse::<u32>("KEY", &set("12x"), 1).unwrap_err();
    match err {
        Error::EnvParse { key, value, reason } => {
            assert_eq!(key, "KEY");
            assert_eq!(value, "12x");
            assert_eq!(reason, "invalid digit found in string");
        }
        other => panic!("unexpected {other:?}"),
    }
}

#[test]
fn env_parse_accepts_plus_sign_and_leading_zeros() {
    assert_eq!(env_parse::<u32>("K", &set("+7"), 0).unwrap(), 7);
    assert_eq!(env_parse::<u32>("K", &set("0042"), 0).unwrap(), 42);
    assert_eq!(env_parse::<u32>("K", &set("4294967295"), 0).unwrap(), u32::MAX);
    assert!(env_parse::<u32>("K", &set("4294967296"), 0).is_err());
    assert!(env_parse::<u32>("K", &set(" 7"), 0).is_err());
    assert!(env_parse::<u32>("K", &set(""), 0).is_err());
    assert!(env_parse::<u32>("K", &set("+"), 0).is_err());
}

#[test]
fn env_parse_bool_is_strict() {
    assert!(!env_parse::<bool>("K", &set("false"), true).unwrap());
    assert!(env_parse::<bool>("K", &set("1"), true).is_err());
    assert!(env_parse::<bool>("K", &set("True"), true).is_err());
}

#[test]
fn env_or_ignores_unreadable_values() {
    assert_eq!(env_or(&EnvValue::Unreadable("x".into()), "dflt"), "dflt");
    assert!(env_bool(&EnvValue::Unreadable("x".into()), true));
}
