use r53_ddns::check::{check_next, CheckConfig, CheckEvent, CheckRequest, CheckStage};

fn config(nat: bool) -> CheckConfig {
    CheckConfig {
        zone_id: "Z1".to_string(),
        zone_name: "example.com.".to_string(),
        subdomain_name: "home.".to_string(),
        nat,
    }
}

fn looked_up(external: &str, dns: Option<&str>) -> CheckEvent {
    CheckEvent::LookupsDone { external_ip: external.to_string(), dns_ip: Ok(dns.map(|s| s.to_string())) }
}

fn error_doc(msg: &str) -> String {
    format!("{{ \"type\": \"error\", \"msg\": \"{}\" }}", msg)
}

#[test]
fn begin_looks_up_the_a_record() {
    let (stage, action) = check_next(&config(false), CheckStage::Start, CheckEvent::Begin);
    assert_eq!(stage, CheckStage::AwaitLookups);
    assert!(action.alerts.is_empty());
    match action.request {
        CheckRequest::LookUpAddresses(q) => {
            assert_eq!(q.start_record_name, "home.example.com.");
            assert_eq!(q.record_type, "A");
            assert_eq!(q.hosted_zone_id, "Z1");
        },
        _ => panic!("expected the address lookups"),
    }
}

#[test]
fn changed_address_is_written() {
    let (stage, action) =
        check_next(&config(false), CheckStage::AwaitLookups, looked_up("81.2.69.160", Some("81.2.69.1")));
    assert_eq!(stage, CheckStage::AwaitAddressWrite);
    assert_eq!(
        action.alerts,
        vec![
            "{ \"type\": \"ip-change\", \"dns\": \"home.example.com.\", \"old\": \"81.2.69.1\", \"new\": \"81.2.69.160\" }"
                .to_string()
        ]
    );
    match action.request {
        CheckRequest::Upsert(c) => {
            assert_eq!(c.record_name, "home.example.com.");
            assert_eq!(c.record_type, "A");
            assert_eq!(c.value, "81.2.69.160");
        },
        _ => panic!("expected a write"),
    }
    let (stage, action) = check_next(&config(false), stage, CheckEvent::AddressWritten { result: Ok(()) });
    assert_eq!(stage, CheckStage::Finished);
    assert!(action.alerts.is_empty());
    assert!(matches!(action.request, CheckRequest::Finish));
}

#[test]
fn missing_record_is_written() {
    let (_, action) = check_next(&config(false), CheckStage::AwaitLookups, looked_up("81.2.69.160", None));
    assert_eq!(
        action.alerts,
        vec!["{ \"type\": \"ip-new\", \"dns\": \"home.example.com.\", \"new\": \"81.2.69.160\" }".to_string()]
    );
    assert!(matches!(action.request, CheckRequest::Upsert(c) if c.value == "81.2.69.160"));
}

#[test]
fn failed_listing_is_reported_and_counts_as_no_record() {
    let event = CheckEvent::LookupsDone {
        external_ip: "81.2.69.160".to_string(),
        dns_ip: Err("listing failed".to_string()),
    };
    let (stage, action) = check_next(&config(false), CheckStage::AwaitLookups, event);
    assert_eq!(stage, CheckStage::AwaitAddressWrite);
    assert_eq!(
        action.alerts,
        vec![
            error_doc("listing failed"),
            "{ \"type\": \"ip-new\", \"dns\": \"home.example.com.\", \"new\": \"81.2.69.160\" }".to_string(),
        ]
    );
    assert!(matches!(action.request, CheckRequest::Upsert(_)));
}

#[test]
fn failed_write_is_reported_without_another_write() {
    let (stage, action) = check_next(
        &config(true),
        CheckStage::AwaitAddressWrite,
        CheckEvent::AddressWritten { result: Err("change refused".to_string()) },
    );
    assert_eq!(stage, CheckStage::AwaitNatLookup);
    assert_eq!(action.alerts, vec![error_doc("change refused")]);
    assert!(matches!(action.request, CheckRequest::LookUpRecord(_)));
    let (stage, action) = check_next(
        &config(true),
        CheckStage::AwaitNatWrite,
        CheckEvent::NatWritten { result: Err("no".to_string()) },
    );
    assert_eq!(stage, CheckStage::Finished);
    assert_eq!(action.alerts, vec![error_doc("no")]);
    assert!(matches!(action.request, CheckRequest::Finish));
}

#[test]
fn unchanged_or_unknown_address_is_left_alone() {
    for event in [
        looked_up("81.2.69.160", Some("81.2.69.160")),
        looked_up("", Some("81.2.69.160")),
        looked_up("", None),
        looked_up("81.2.69.160", Some("")),
    ] {
        let (stage, action) = check_next(&config(false), CheckStage::AwaitLookups, event);
        assert_eq!(stage, CheckStage::Finished);
        assert!(action.alerts.is_empty());
        assert!(matches!(action.request, CheckRequest::Finish));
    }
}

#[test]
fn nat_wildcard_record_is_kept() {
    let cfg = config(true);
    let (stage, action) =
        check_next(&cfg, CheckStage::AwaitLookups, looked_up("81.2.69.160", Some("81.2.69.160")));
    assert_eq!(stage, CheckStage::AwaitNatLookup);
    match action.request {
        CheckRequest::LookUpRecord(q) => {
            assert_eq!(q.start_record_name, "\\052.home.example.com.");
            assert_eq!(q.record_type, "CNAME");
        },
        _ => panic!("expected the wildcard lookup"),
    }
    let (stage, action) = check_next(&cfg, stage, CheckEvent::NatLookupDone { cname: Ok(None) });
    assert_eq!(stage, CheckStage::AwaitNatWrite);
    assert!(action.alerts.is_empty());
    match action.request {
        CheckRequest::Upsert(c) => {
            assert_eq!(c.record_name, "\\052.home.example.com.");
            assert_eq!(c.record_type, "CNAME");
            assert_eq!(c.value, "home.example.com.");
        },
        _ => panic!("expected the wildcard write"),
    }
    let (stage, action) = check_next(&cfg, stage, CheckEvent::NatWritten { result: Ok(()) });
    assert_eq!(stage, CheckStage::Finished);
    assert!(matches!(action.request, CheckRequest::Finish));
}

#[test]
fn current_wildcard_is_left_alone() {
    let cfg = config(true);
    let event = CheckEvent::NatLookupDone { cname: Ok(Some("home.example.com.".to_string())) };
    let (stage, action) = check_next(&cfg, CheckStage::AwaitNatLookup, event);
    assert_eq!(stage, CheckStage::Finished);
    assert!(matches!(action.request, CheckRequest::Finish));
    let event = CheckEvent::NatLookupDone { cname: Ok(Some("elsewhere.example.com.".to_string())) };
    let (stage, _) = check_next(&cfg, CheckStage::AwaitNatLookup, event);
    assert_eq!(stage, CheckStage::AwaitNatWrite);
    let event = CheckEvent::NatLookupDone { cname: Err("listing failed".to_string()) };
    let (stage, action) = check_next(&cfg, CheckStage::AwaitNatLookup, event);
    assert_eq!(stage, CheckStage::AwaitNatWrite);
    assert_eq!(action.alerts, vec![error_doc("listing failed")]);
}

#[test]
fn address_write_then_wildcard_lookup() {
    let (stage, action) =
        check_next(&config(true), CheckStage::AwaitAddressWrite, CheckEvent::AddressWritten { result: Ok(()) });
    assert_eq!(stage, CheckStage::AwaitNatLookup);
    assert!(matches!(action.request, CheckRequest::LookUpRecord(_)));
}

#[test]
fn out_of_turn_event_ends_the_check() {
    let (stage, action) =
        check_next(&config(true), CheckStage::Start, CheckEvent::NatWritten { result: Err("x".to_string()) });
    assert_eq!(stage, CheckStage::Finished);
    assert!(action.alerts.is_empty());
    assert!(matches!(action.request, CheckRequest::Finish));
}
