use r53_ddns::hostname::{is_valid_hostname, labels_accepted};

#[test]
fn plain_hostnames_are_valid() {
    assert!(is_valid_hostname("home"));
    assert!(is_valid_hostname("my-host.sub"));
    assert!(is_valid_hostname("home."));
    assert!(is_valid_hostname("a1.B2.c3"));
}

#[test]
fn empty_labels_pass_but_not_an_empty_name() {
    assert!(!is_valid_hostname(""));
    assert!(is_valid_hostname("a..b"));
    assert!(is_valid_hostname("a."));
}

#[test]
fn bad_characters_are_rejected() {
    assert!(!is_valid_hostname("bad_host"));
    assert!(!is_valid_hostname("sp ace"));
    assert!(!is_valid_hostname("wild*card"));
    assert!(!is_valid_hostname("héllo"));
}

#[test]
fn non_ascii_digits_are_rejected() {
    assert!(!is_valid_hostname("\u{661}\u{662}"));
    assert!(!is_valid_hostname("net\u{663}"));
}

#[test]
fn label_length_limit() {
    let ok = "a".repeat(63);
    let too_long = "a".repeat(64);
    assert!(is_valid_hostname(&ok));
    assert!(!is_valid_hostname(&too_long));
    assert!(!is_valid_hostname(&format!("x.{}", too_long)));
}

#[test]
fn total_length_limit() {
    let label = "a".repeat(63);
    let name255 = format!("{l}.{l}.{l}.{l}", l = label);
    assert_eq!(name255.len(), 255);
    assert!(is_valid_hostname(&name255));
    let name256 = format!("{}.", name255);
    assert!(!is_valid_hostname(&name256));
}

#[test]
fn labels_pass_when_empty_or_matched() {
    let labels = vec!["a".to_string(), "".to_string(), "b".to_string()];
    assert!(labels_accepted(&labels, &vec![Some(true), None, Some(true)]));
    assert!(!labels_accepted(&labels, &vec![Some(true), Some(false), Some(false)]));
    assert!(!labels_accepted(&labels, &vec![None, Some(true), Some(true)]));
    assert!(labels_accepted(&vec![], &vec![]));
}
