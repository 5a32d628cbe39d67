use octobot::logpolicy::{is_info_directive, logging_policy};
use octobot::text::{push_padded, push_signed, push_unsigned};

fn policy_for(directive: Option<&str>) -> bool {
    logging_policy(&directive.map(|s| s.to_string())).suppress_tls_noise
}

#[test]
fn unset_directive_suppresses_tls_noise() {
    assert!(policy_for(None));
}

#[test]
fn empty_directive_suppresses_tls_noise() {
    assert!(policy_for(Some("")));
}

#[test]
fn info_directive_suppresses_tls_noise() {
    assert!(policy_for(Some("info")));
    assert!(policy_for(Some("INFO")));
    assert!(policy_for(Some("Info")));
    assert!(policy_for(Some("iNfO")));
}

#[test]
fn other_directives_keep_full_verbosity() {
    assert!(!policy_for(Some("debug")));
    assert!(!policy_for(Some("trace")));
    assert!(!policy_for(Some("information")));
    assert!(!policy_for(Some("info,rustls=warn")));
    assert!(!policy_for(Some(" info")));
}

#[test]
fn info_spelling_check() {
    assert!(is_info_directive("info"));
    assert!(is_info_directive("InFo"));
    assert!(!is_info_directive("inf"));
    assert!(!is_info_directive("infos"));
    assert!(!is_info_directive("knfo"));
}

#[test]
fn policy_reports_the_effective_default() {
    let p = logging_policy(&Some("warn".to_string()));
    assert!(!p.default_verbosity);
    assert!(!p.suppress_tls_noise);
    let q = logging_policy(&None);
    assert!(q.default_verbosity);
    assert!(q.suppress_tls_noise);
}

#[test]
fn decimal_rendering() {
    let mut s = String::new();
    push_unsigned(&mut s, 0);
    assert_eq!(s, "0");
    let mut s = String::new();
    push_unsigned(&mut s, 1234567890);
    assert_eq!(s, "1234567890");
    let mut s = String::new();
    push_signed(&mut s, -42);
    assert_eq!(s, "-42");
    let mut s = String::new();
    push_padded(&mut s, 7, 3);
    assert_eq!(s, "007");
    let mut s = String::new();
    push_padded(&mut s, 4321, 3);
    assert_eq!(s, "4321");
}
