use r53_ddns::route53::{
    dns_name, nat_subdomain_name, pick_record_value, record_query, select_record_value, upsert_change, zone_id_from_path,
    zone_lookup_step, HostedZone, RecordSet, ZoneLookup, ZonePage,
};

fn set(name: &str, record_type: &str, values: Option<Vec<&str>>) -> RecordSet {
    RecordSet {
        name: name.to_string(),
        record_type: record_type.to_string(),
        values: values.map(|v| v.iter().map(|s| s.to_string()).collect()),
    }
}

fn zone(name: &str, id: &str) -> HostedZone {
    HostedZone { name: name.to_string(), id: id.to_string() }
}

#[test]
fn names() {
    assert_eq!(dns_name("home.", "example.com."), "home.example.com.");
    assert_eq!(nat_subdomain_name("home."), "\\052.home.");
}

#[test]
fn query_starts_at_the_record_name() {
    let q = record_query("Z1", "example.com.", "home.", "A");
    assert_eq!(q.hosted_zone_id, "Z1");
    assert_eq!(q.start_record_name, "home.example.com.");
    assert_eq!(q.record_type, "A");
}

#[test]
fn upsert_fields() {
    let c = upsert_change("Z1", "example.com.", "home.", "A", "81.2.69.160");
    assert_eq!(c.hosted_zone_id, "Z1");
    assert_eq!(c.action, "UPSERT");
    assert_eq!(c.record_name, "home.example.com.");
    assert_eq!(c.record_type, "A");
    assert_eq!(c.value, "81.2.69.160");
    assert_eq!(c.ttl, 300);
    assert_eq!(c.comment, "Updated by r53-ddns");
}

#[test]
fn record_value_of_matching_set() {
    let sets = Some(vec![
        set("other.example.com.", "A", Some(vec!["1.1.1.1"])),
        set("home.example.com.", "TXT", Some(vec!["hello"])),
        set("home.example.com.", "A", Some(vec!["81.2.69.160", "81.2.69.161"])),
    ]);
    assert_eq!(select_record_value(&sets, "home.example.com.", "A"), Some("81.2.69.160".to_string()));
    assert_eq!(select_record_value(&sets, "home.example.com.", "TXT"), Some("hello".to_string()));
    assert_eq!(select_record_value(&sets, "home.example.com.", "CNAME"), None);
}

#[test]
fn a_record_must_hold_an_address() {
    let sets = Some(vec![
        set("home.example.com.", "A", Some(vec!["not-an-ip"])),
        set("home.example.com.", "A", Some(vec!["10.0.0.1"])),
    ]);
    assert_eq!(select_record_value(&sets, "home.example.com.", "A"), Some("10.0.0.1".to_string()));
    let cname = Some(vec![set("\\052.home.example.com.", "CNAME", Some(vec!["home.example.com."]))]);
    assert_eq!(
        select_record_value(&cname, "\\052.home.example.com.", "CNAME"),
        Some("home.example.com.".to_string())
    );
}

#[test]
fn no_record_value() {
    assert_eq!(select_record_value(&None, "home.example.com.", "A"), None);
    let sets = Some(vec![set("home.example.com.", "A", None), set("home.example.com.", "A", Some(vec![]))]);
    assert_eq!(select_record_value(&sets, "home.example.com.", "A"), None);
}

#[test]
fn zone_id_is_after_the_last_slash() {
    assert_eq!(zone_id_from_path("/hostedzone/Z123"), "Z123");
    assert_eq!(zone_id_from_path("Z9/"), "");
}

#[test]
fn zone_lookup_pages() {
    let page = Some(ZonePage {
        zones: vec![zone("other.com.", "/hostedzone/Z0"), zone("example.com.", "/hostedzone/Z1")],
        is_truncated: true,
        next_marker: Some("M".to_string()),
    });
    assert!(matches!(zone_lookup_step(&page, "example.com."), ZoneLookup::Found(id) if id == "Z1"));
    match zone_lookup_step(&page, "missing.com.") {
        ZoneLookup::Next(Some(m)) => assert_eq!(m, "M"),
        _ => panic!("expected the next page"),
    }
    let last = Some(ZonePage { zones: vec![], is_truncated: false, next_marker: None });
    assert!(matches!(zone_lookup_step(&last, "example.com."), ZoneLookup::NotFound));
    assert!(matches!(zone_lookup_step(&None, "example.com."), ZoneLookup::NotFound));
}

#[test]
fn picking_follows_the_address_tests() {
    let sets = vec![
        set("home.example.com.", "A", Some(vec!["first"])),
        set("home.example.com.", "A", Some(vec!["second"])),
    ];
    assert_eq!(
        pick_record_value(&sets, "home.example.com.", "A", &vec![false, true]),
        Some("second".to_string())
    );
    assert_eq!(pick_record_value(&sets, "home.example.com.", "A", &vec![false, false]), None);
    assert_eq!(
        pick_record_value(&sets, "home.example.com.", "A", &vec![true, true]),
        Some("first".to_string())
    );
    let txt = vec![set("home.example.com.", "TXT", Some(vec!["t"]))];
    assert_eq!(pick_record_value(&txt, "home.example.com.", "TXT", &vec![false]), Some("t".to_string()));
}
