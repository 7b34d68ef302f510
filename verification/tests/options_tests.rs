use r53_ddns::options::{
    check_gap_millis, console_level, log_file_paths, plan_startup, prints_version_at_end, resolve_region, region_or_default,
    split_services, LogLevel, Options, Startup,
};

fn options(subdomain: Option<&str>, domain: Option<&str>) -> Options {
    Options {
        subdomain: subdomain.map(|s| s.to_string()),
        domain: domain.map(|s| s.to_string()),
        region: None,
        ipaddress_svc: None,
        nat: false,
        logdir: None,
        alert_script: None,
        verbose: false,
        debug: false,
        check: 0,
        version: false,
    }
}

#[test]
fn run_config_is_fully_qualified() {
    let mut o = options(Some("home"), Some("example.com"));
    o.region = Some("eu-west-2".to_string());
    o.ipaddress_svc = Some("ident.me,icanhazip.com".to_string());
    o.nat = true;
    o.check = 300;
    match plan_startup(o) {
        Startup::Run(cfg) => {
            assert_eq!(cfg.subdomain_name, "home.");
            assert_eq!(cfg.zone_name, "example.com.");
            assert_eq!(cfg.region_name, "eu-west-2");
            assert!(cfg.nat);
            assert_eq!(cfg.ip_services, Some(vec!["ident.me".to_string(), "icanhazip.com".to_string()]));
            assert_eq!(cfg.check_interval, 300);
        },
        _ => panic!("expected a run"),
    }
}

#[test]
fn defaults_of_a_run() {
    match plan_startup(options(Some("home."), Some("example.com."))) {
        Startup::Run(cfg) => {
            assert_eq!(cfg.subdomain_name, "home.");
            assert_eq!(cfg.zone_name, "example.com.");
            assert_eq!(cfg.region_name, "us-east-1");
            assert_eq!(cfg.ip_services, None);
            assert_eq!(cfg.check_interval, 0);
        },
        _ => panic!("expected a run"),
    }
}

#[test]
fn invalid_subdomain_is_refused() {
    match plan_startup(options(Some("bad_host"), Some("example.com"))) {
        Startup::InvalidSubdomain(s) => assert_eq!(s, "bad_host"),
        _ => panic!("expected a refusal"),
    }
}

#[test]
fn subdomain_and_domain_go_together() {
    assert!(matches!(plan_startup(options(Some("home"), None)), Startup::Unpaired));
    assert!(matches!(plan_startup(options(None, Some("example.com"))), Startup::Unpaired));
    assert!(matches!(plan_startup(options(None, None)), Startup::Idle));
}

#[test]
fn version_line_at_the_end() {
    assert!(prints_version_at_end(true, &Startup::Idle));
    assert!(!prints_version_at_end(true, &Startup::Unpaired));
    assert!(!prints_version_at_end(false, &Startup::Idle));
    let invalid = Startup::InvalidSubdomain("bad_host".to_string());
    assert!(prints_version_at_end(true, &invalid));
}

#[test]
fn regions() {
    assert_eq!(resolve_region(&Some("eu-west-1".to_string())), "eu-west-1");
    assert_eq!(resolve_region(&Some("EU-WEST-1".to_string())), "eu-west-1");
    assert_eq!(resolve_region(&Some("euwest1".to_string())), "eu-west-1");
    assert_eq!(resolve_region(&Some("mars-north-1".to_string())), "us-east-1");
    assert_eq!(resolve_region(&None), "us-east-1");
    assert_eq!(region_or_default(None), "us-east-1");
    assert_eq!(region_or_default(Some("ap-south-1".to_string())), "ap-south-1");
}

#[test]
fn log_levels() {
    let mut o = options(None, None);
    assert_eq!(console_level(&o), LogLevel::Warn);
    o.verbose = true;
    assert_eq!(console_level(&o), LogLevel::Info);
    o.debug = true;
    assert_eq!(console_level(&o), LogLevel::Debug);
}

#[test]
fn services_and_gaps() {
    assert_eq!(split_services("a,b,,c"), vec!["a", "b", "", "c"]);
    assert_eq!(check_gap_millis(300), 300_000);
    assert_eq!(check_gap_millis(0), 0);
}

#[test]
fn log_files_in_the_log_directory() {
    assert_eq!(
        log_file_paths(&None),
        ("/var/tmp/r53-ddns.log".to_string(), "/var/tmp/r53-ddns.{}.log".to_string())
    );
    assert_eq!(
        log_file_paths(&Some("/var/log/".to_string())),
        ("/var/log/r53-ddns.log".to_string(), "/var/log/r53-ddns.{}.log".to_string())
    );
}

#[test]
fn empty_subdomain_is_refused() {
    assert!(matches!(plan_startup(options(Some(""), Some("example.com"))), Startup::InvalidSubdomain(s) if s.is_empty()));
}
