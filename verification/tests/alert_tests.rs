use r53_ddns::alert::{address_alert, error_alert};

#[test]
fn documents_as_the_docs_show_them() {
    assert_eq!(
        address_alert("host.example.com.", &None, "10.205.309.35"),
        r#"{ "type": "ip-new", "dns": "host.example.com.", "new": "10.205.309.35" }"#
    );
    assert_eq!(
        address_alert("host.example.com.", &Some("10.205.309.34".to_string()), "10.205.309.35"),
        r#"{ "type": "ip-change", "dns": "host.example.com.", "old": "10.205.309.34", "new": "10.205.309.35" }"#
    );
    assert_eq!(error_alert("error message..."), r#"{ "type": "error", "msg": "error message..." }"#);
}

#[test]
fn strings_are_escaped() {
    assert_eq!(
        error_alert("say \"hi\"\\\n\t\r\u{1}"),
        r#"{ "type": "error", "msg": "say \"hi\"\\\n\t\r\u0001" }"#
    );
    assert_eq!(error_alert("\u{1f}é"), r#"{ "type": "error", "msg": "\u001fé" }"#);
}
