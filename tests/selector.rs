use overrides::selector::{format_selector, in_key_order, parse_selector, text_less};

fn entries(e: &[(&str, &str)]) -> Vec<(String, String)> {
    e.iter().map(|(k, v)| (k.to_string(), v.to_string())).collect()
}

#[test]
fn selector_joins_entries_in_order() {
    assert_eq!(format_selector(&entries(&[("app", "web"), ("tier", "front")])), "app=web,tier=front");
}

#[test]
fn empty_selector_is_empty_string() {
    assert_eq!(format_selector(&vec![]), "");
}

#[test]
fn single_entry_selector() {
    assert_eq!(format_selector(&entries(&[("app", "web")])), "app=web");
}

#[test]
fn selector_round_trips() {
    let e = entries(&[("app", "web"), ("team", ""), ("zone", "eu-1")]);
    assert_eq!(parse_selector(&format_selector(&e)), Some(e));
    assert_eq!(parse_selector(""), Some(vec![]));
}

#[test]
fn parse_rejects_non_equality_pieces() {
    assert_eq!(parse_selector("app"), None);
    assert_eq!(parse_selector("app=web,tier"), None);
    assert_eq!(parse_selector("a=b=c"), None);
}

#[test]
fn text_order_is_by_code_point() {
    let s = |x: &str| x.to_string();
    assert!(text_less(&s("app"), &s("tier")));
    assert!(text_less(&s("app"), &s("apps")));
    assert!(!text_less(&s("apps"), &s("app")));
    assert!(!text_less(&s("app"), &s("app")));
    assert!(text_less(&s(""), &s("a")));
    assert!(text_less(&s("Z"), &s("a")));
}

#[test]
fn key_order_is_checked() {
    assert!(in_key_order(&entries(&[("app", "web"), ("tier", "front"), ("zone", "a")])));
    assert!(in_key_order(&vec![]));
    assert!(in_key_order(&entries(&[("app", "web")])));
    assert!(!in_key_order(&entries(&[("tier", "front"), ("app", "web")])));
    assert!(!in_key_order(&entries(&[("app", "web"), ("app", "api")])));
}
