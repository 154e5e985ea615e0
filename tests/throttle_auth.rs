use valman::auth::{authorize, check_credentials, AuthDecision, CHALLENGE};
use valman::text::{decimal_text, eq_ignore_ascii_case};
use valman::throttle::{is_restart_allowed, RestartRecord};

#[test]
fn restart_allowed_without_prior_restart() {
    assert!(is_restart_allowed(None, 60, 1_000));
}

#[test]
fn restart_throttled_then_allowed() {
    let t0: i64 = 1_700_000_000;
    assert!(!is_restart_allowed(Some(t0), 60, t0 + 30));
    assert!(is_restart_allowed(Some(t0), 60, t0 + 61));
}

#[test]
fn restart_at_exact_cooldown_is_throttled() {
    assert!(!is_restart_allowed(Some(100), 60, 160));
    assert!(is_restart_allowed(Some(100), 60, 161));
}

#[test]
fn restart_distance_is_absolute() {
    assert!(!is_restart_allowed(Some(100), 60, 50));
    assert!(is_restart_allowed(Some(100), 60, 30));
}

#[test]
fn restart_extreme_instants() {
    assert!(is_restart_allowed(Some(i64::MIN), u32::MAX, i64::MAX));
    assert!(!is_restart_allowed(Some(i64::MAX), u32::MAX, i64::MAX));
}

#[test]
fn restart_record_stamps() {
    let mut rec = RestartRecord::new();
    assert!(rec.last_restart.is_none());
    assert!(rec.allows_restart(60, 5));
    rec.stamp(1_000);
    assert_eq!(rec.last_restart, Some(1_000));
    assert!(!rec.allows_restart(60, 1_030));
    assert!(rec.allows_restart(60, 1_061));
}

#[test]
fn ignore_case_comparison() {
    assert!(eq_ignore_ascii_case("Valheim", "vALHEIM"));
    assert!(!eq_ignore_ascii_case("valheim", "valheim2"));
    assert!(!eq_ignore_ascii_case("a[", "A{"));
    assert!(eq_ignore_ascii_case("", ""));
}

#[test]
fn decimal_numbers() {
    assert_eq!(decimal_text(0), "0");
    assert_eq!(decimal_text(7), "7");
    assert_eq!(decimal_text(255), "255");
    assert_eq!(decimal_text(u64::MAX), "18446744073709551615");
}

#[test]
fn auth_missing_header_denied() {
    assert_eq!(authorize(None, "admin", "secret"), AuthDecision::Deny);
    assert_eq!(CHALLENGE, "Basic");
}

#[test]
fn auth_correct_credentials_allowed() {
    assert_eq!(
        authorize(Some("Basic YWRtaW46c2VjcmV0"), "admin", "secret"),
        AuthDecision::Allow
    );
    assert_eq!(
        authorize(Some("basic YWRtaW46c2VjcmV0"), "ADMIN", "Secret"),
        AuthDecision::Allow
    );
}

#[test]
fn auth_single_character_mismatch_denied() {
    assert_eq!(
        authorize(Some("Basic YWRtaW46c2VjcmV0"), "admin", "secrex"),
        AuthDecision::Deny
    );
    assert_eq!(
        authorize(Some("Basic YWRtaW46c2VjcmV0"), "admim", "secret"),
        AuthDecision::Deny
    );
}

#[test]
fn auth_malformed_header_denied() {
    assert_eq!(authorize(Some("YWRtaW46c2VjcmV0"), "admin", "secret"), AuthDecision::Deny);
    assert_eq!(authorize(Some("Bearer YWRtaW46c2VjcmV0"), "admin", "secret"), AuthDecision::Deny);
    assert_eq!(authorize(Some("Basic !!!"), "admin", "secret"), AuthDecision::Deny);
}

#[test]
fn auth_parsed_credentials_checked() {
    let given = Some(("Admin".to_string(), "SECRET".to_string()));
    assert_eq!(check_credentials(&given, "admin", "secret"), AuthDecision::Allow);
    assert_eq!(check_credentials(&given, "admin", "secre"), AuthDecision::Deny);
    assert_eq!(check_credentials(&None, "admin", "secret"), AuthDecision::Deny);
}
