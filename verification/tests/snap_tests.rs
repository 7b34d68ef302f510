use r53_ddns::snap::{snap_credentials_file, check_in_snap};

#[test]
fn check_in_snap_reports_home_only_in_a_snap() {
    assert_eq!(check_in_snap(true, Some("/home/u".to_string())), (true, Some("/home/u".to_string())));
    assert_eq!(check_in_snap(true, None), (true, None));
    assert_eq!(check_in_snap(false, Some("/home/u".to_string())), (false, None));
}

#[test]
fn credentials_file_in_the_real_home() {
    assert_eq!(
        snap_credentials_file(false, true, Some("/home/u".to_string())),
        Some("/home/u/.aws/credentials".to_string())
    );
    assert_eq!(snap_credentials_file(true, true, Some("/home/u".to_string())), None);
    assert_eq!(snap_credentials_file(false, false, Some("/home/u".to_string())), None);
    assert_eq!(snap_credentials_file(false, true, None), None);
}
