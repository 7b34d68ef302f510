use r53_ddns::text::{join_path, split_on, trim, with_trailing_dot};

fn strings(v: &[&str]) -> Vec<String> {
    v.iter().map(|s| s.to_string()).collect()
}

#[test]
fn split_keeps_empty_pieces() {
    assert_eq!(split_on("a.b.c", '.'), strings(&["a", "b", "c"]));
    assert_eq!(split_on("", '.'), strings(&[""]));
    assert_eq!(split_on("a.", '.'), strings(&["a", ""]));
    assert_eq!(split_on(".", '.'), strings(&["", ""]));
    assert_eq!(split_on("ident.me,ifconfig.me/ip", ','), strings(&["ident.me", "ifconfig.me/ip"]));
}

#[test]
fn split_matches_std_split() {
    for s in ["", "x", "..", "a..b", "héllo.wörld.", "no-dots"] {
        let expected: Vec<String> = s.split('.').map(|p| p.to_string()).collect();
        assert_eq!(split_on(s, '.'), expected);
    }
}

#[test]
fn trailing_dot_added_once() {
    assert_eq!(with_trailing_dot("home".to_string()), "home.");
    assert_eq!(with_trailing_dot("example.com.".to_string()), "example.com.");
    assert_eq!(with_trailing_dot("".to_string()), ".");
    let once = with_trailing_dot("a.b".to_string());
    assert_eq!(with_trailing_dot(once.clone()), once);
}

#[test]
fn trim_removes_unicode_whitespace() {
    assert_eq!(trim("  1.2.3.4\n"), "1.2.3.4");
    assert_eq!(trim("\u{a0}\u{3000}x y\t"), "x y");
    assert_eq!(trim("   "), "");
    assert_eq!(trim(""), "");
    for s in ["\u{2028}abc\u{85}", " a ", "\u{200b}a"] {
        assert_eq!(trim(s), s.trim());
    }
}

#[test]
fn join_path_adds_separator_when_needed() {
    assert_eq!(join_path("/home/u".to_string(), ".aws"), "/home/u/.aws");
    assert_eq!(join_path("/home/u/".to_string(), ".aws"), "/home/u/.aws");
    assert_eq!(join_path("".to_string(), ".aws"), ".aws");
}
