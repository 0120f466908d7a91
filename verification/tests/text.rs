use kontena::error::Error;
use kontena::util::process::output_outcome;
use kontena::util::text::{decimal_text, same_text};
use kontena::util::validate::format_quoted_list;
use kontena::util::{env_parse, EnvValue};

fn parse_count(s: &str) -> Option<u32> {
    env_parse::<u32>("K", &EnvValue::Present(s.to_string()), 0).ok()
}

fn parse_flag(s: &str) -> Option<bool> {
    env_parse::<bool>("K", &EnvValue::Present(s.to_string()), false).ok()
}

#[test]
fn decimal_text_writes_numbers() {
    assert_eq!(decimal_text(0), "0");
    assert_eq!(decimal_text(7), "7");
    assert_eq!(decimal_text(10), "10");
    assert_eq!(decimal_text(4096), "4096");
    assert_eq!(decimal_text(131_072), "131072");
    assert_eq!(decimal_text(u32::MAX), "4294967295");
}

#[test]
fn decimal_text_parses_back() {
    for n in [0_u32, 1, 9, 10, 99, 100, 65_535, 1_000_000, u32::MAX - 1, u32::MAX] {
        assert_eq!(parse_count(&decimal_text(n)), Some(n));
        assert_eq!(decimal_text(n), n.to_string());
    }
}

#[test]
fn counts_reject_non_numbers() {
    assert_eq!(parse_count("-1"), None);
    assert_eq!(parse_count("1_000"), None);
    assert_eq!(parse_count(""), None);
    assert_eq!(parse_count("12 "), None);
    assert_eq!(parse_count("+12"), Some(12));
}

#[test]
fn flags_accept_exact_words() {
    assert_eq!(parse_flag("true"), Some(true));
    assert_eq!(parse_flag("false"), Some(false));
    assert_eq!(parse_flag("yes"), None);
}

#[test]
fn quoting_escapes_like_debug() {
    assert_eq!(format_quoted_list(&["vz"]), "\"vz\"");
    assert_eq!(format_quoted_list(&[""]), "\"\"");
    assert_eq!(format_quoted_list(&["a\\b", "c\"d"]), "\"a\\\\b\", \"c\\\"d\"");
}

#[test]
fn same_text_compares_characters() {
    assert!(same_text("running", "running"));
    assert!(!same_text("running", "Running"));
    assert!(!same_text("run", "running"));
}

#[test]
fn output_is_decoded_and_trimmed() {
    let out = output_outcome("echo", true, "exit status: 0".into(), b"  hello world\n", b"").unwrap();
    assert_eq!(out, "hello world");
    assert_eq!(output_outcome("echo", true, "exit status: 0".into(), b"\n", b"").unwrap(), "");
    assert_eq!(
        output_outcome("printf", true, "exit status: 0".into(), b"line1\nline2\nline3", b"").unwrap(),
        "line1\nline2\nline3"
    );
    assert_eq!(
        output_outcome("x", true, "exit status: 0".into(), b"running\r\n", b"").unwrap(),
        "running"
    );
    let lossy = output_outcome("x", true, "exit status: 0".into(), &[0x61, 0xff, 0x62], b"").unwrap();
    assert_eq!(lossy, "a\u{fffd}b");
}

#[test]
fn failed_exit_reports_status_and_stderr() {
    let err = output_outcome("false", false, "exit status: 1".into(), b"ignored", b"no such machine\n")
        .unwrap_err();
    match &err {
        Error::NonZeroExit { bin, status, stderr } => {
            assert_eq!(bin, "false");
            assert_eq!(status, "exit status: 1");
            assert_eq!(stderr, "no such machine\n");
        }
        other => panic!("unexpected {other:?}"),
    }
    assert!(err.message().contains("exited with"));
}
