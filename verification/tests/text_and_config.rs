use shmtu_monitor::config::{AppConfig, DEFAULT_DATABASE_URL};
use shmtu_monitor::models::default_poll_interval;
use shmtu_monitor::text::{parse_unsigned, text_eq, trim_trailing_slashes};

#[test]
fn text_eq_compares_exactly() {
    assert!(text_eq("healthy", "healthy"));
    assert!(!text_eq("healthy", "Healthy"));
    assert!(!text_eq("busy", "busy "));
    assert!(text_eq("", ""));
    assert!(!text_eq("é", "e"));
}

#[test]
fn trailing_slashes_are_trimmed() {
    assert_eq!(trim_trailing_slashes("http://ocr:5000/"), "http://ocr:5000");
    assert_eq!(trim_trailing_slashes("http://ocr:5000///"), "http://ocr:5000");
    assert_eq!(trim_trailing_slashes("http://ocr:5000"), "http://ocr:5000");
    assert_eq!(trim_trailing_slashes("///"), "");
    assert_eq!(trim_trailing_slashes(""), "");
    assert_eq!(trim_trailing_slashes("a/b/"), "a/b");
}

#[test]
fn trim_is_idempotent_on_examples() {
    for s in ["x//", "", "/", "a/b", "ü/"] {
        let once = trim_trailing_slashes(s);
        assert_eq!(trim_trailing_slashes(&once), once);
    }
}

#[test]
fn parse_unsigned_follows_std() {
    let cases = ["0", "3100", "+42", "007", "", "+", "-", "-1", " 1", "1 ", "12a", "65535", "65536", "+65535", "٣"];
    for c in cases {
        let expected = c.parse::<u16>().ok().map(|v| v as u64);
        assert_eq!(parse_unsigned(c, 65535), expected, "input {:?}", c);
    }
    assert_eq!(parse_unsigned("18446744073709551615", u64::MAX), Some(u64::MAX));
    assert_eq!(parse_unsigned("18446744073709551616", u64::MAX), None);
    assert_eq!(parse_unsigned("99999999999999999999999", u64::MAX), None);
    assert_eq!(parse_unsigned("99999999999999999999999x", u64::MAX), None);
}

#[test]
fn config_defaults_when_unset() {
    let c = AppConfig::from_vars(None, None, None);
    assert_eq!(c.port, 3100);
    assert_eq!(c.database_url, "sqlite:shmtu_monitor.db?mode=rwc");
    assert_eq!(c.database_url, DEFAULT_DATABASE_URL);
    assert_eq!(c.poll_interval_secs, 10);
}

#[test]
fn config_reads_values() {
    let c = AppConfig::from_vars(
        Some("8080".to_string()),
        Some("sqlite::memory:".to_string()),
        Some("30".to_string()),
    );
    assert_eq!(c.port, 8080);
    assert_eq!(c.database_url, "sqlite::memory:");
    assert_eq!(c.poll_interval_secs, 30);
}

#[test]
fn config_falls_back_on_bad_numbers() {
    let c = AppConfig::from_vars(Some("70000".to_string()), None, Some("-5".to_string()));
    assert_eq!(c.port, 3100);
    assert_eq!(c.poll_interval_secs, 10);
    let c = AppConfig::from_vars(Some("http".to_string()), None, Some("".to_string()));
    assert_eq!(c.port, 3100);
    assert_eq!(c.poll_interval_secs, 10);
    let c = AppConfig::from_vars(Some("+0".to_string()), None, Some("0".to_string()));
    assert_eq!(c.port, 0);
    assert_eq!(c.poll_interval_secs, 0);
}

#[test]
fn default_poll_interval_is_ten() {
    assert_eq!(default_poll_interval(), 10);
}
