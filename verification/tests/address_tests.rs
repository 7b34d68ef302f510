use r53_ddns::address::{
    address_from_reply, choose_ip_services, default_ip_services, external_address, ip_service_candidates,
    service_url,
};

fn strings(v: &[&str]) -> Vec<String> {
    v.iter().map(|s| s.to_string()).collect()
}

#[test]
fn default_services_list() {
    assert_eq!(
        default_ip_services(),
        strings(&[
            "ident.me",
            "ifconfig.me/ip",
            "icanhazip.com",
            "myexternalip.com/raw",
            "ipecho.net/plain",
            "checkip.amazonaws.com",
            "myip.dnsomatic.com",
        ])
    );
}

#[test]
fn user_services_replace_the_defaults() {
    let two = Some(strings(&["a.example", "b.example"]));
    assert_eq!(ip_service_candidates(&two), strings(&["a.example", "b.example"]));
    let one = Some(strings(&["a.example"]));
    assert_eq!(ip_service_candidates(&one), strings(&["a.example"]));
    assert_eq!(ip_service_candidates(&Some(vec![])), default_ip_services());
    assert_eq!(ip_service_candidates(&None), default_ip_services());
}

#[test]
fn a_single_user_service_is_the_only_one_asked() {
    let one = Some(strings(&["myip.example.org"]));
    for _ in 0..10 {
        assert_eq!(choose_ip_services(&one), strings(&["myip.example.org"]));
    }
}

#[test]
fn two_distinct_services_are_drawn() {
    for _ in 0..50 {
        let chosen = choose_ip_services(&None);
        assert_eq!(chosen.len(), 2);
        assert_ne!(chosen[0], chosen[1]);
        let defaults = default_ip_services();
        assert!(chosen.iter().all(|c| defaults.contains(c)));
    }
    let user = Some(strings(&["a.example", "b.example", "c.example"]));
    let chosen = choose_ip_services(&user);
    assert_eq!(chosen.len(), 2);
    assert!(chosen.iter().all(|c| c.ends_with(".example")));
}

#[test]
fn replies_are_trimmed_and_checked() {
    assert_eq!(address_from_reply("81.2.69.160\n"), Some("81.2.69.160".to_string()));
    assert_eq!(address_from_reply("  2001:db8::1  "), Some("2001:db8::1".to_string()));
    assert_eq!(address_from_reply("<html>error</html>"), None);
    assert_eq!(address_from_reply(""), None);
    assert_eq!(address_from_reply("300.1.1.1"), None);
}

#[test]
fn first_answer_with_an_address_wins() {
    assert_eq!(external_address(&vec![None, Some("81.2.69.160".to_string()), Some("10.0.0.1".to_string())]), "81.2.69.160");
    assert_eq!(external_address(&vec![None, None]), "");
    assert_eq!(external_address(&vec![]), "");
}

#[test]
fn service_pages_are_fetched_over_https() {
    assert_eq!(service_url("ifconfig.me/ip"), "https://ifconfig.me/ip");
    assert_eq!(service_url(""), "https://");
}

#[test]
fn blank_replies_hold_no_address() {
    assert_eq!(address_from_reply("   \n"), None);
}
