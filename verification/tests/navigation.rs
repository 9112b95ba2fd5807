use torlite::navigation::{decide_navigation, first_url_param, parse_web_url, url_changed_event, NavigationDecision};

fn new_tab_target(d: NavigationDecision) -> Option<String> {
    match d {
        NavigationDecision::NewTab { target } => target,
        NavigationDecision::Proceed { .. } => panic!("expected the navigation to be stopped"),
    }
}

#[test]
fn ordinary_navigation_goes_ahead() {
    match decide_navigation("visor_3", "https://example.com/a?url=x", Some("url=x")) {
        NavigationDecision::Proceed { event } => assert_eq!(event, "url-changed-visor_3"),
        _ => panic!("expected the navigation to go ahead"),
    }
    assert_eq!(url_changed_event("visor_9"), "url-changed-visor_9");
}

#[test]
fn new_window_navigation_opens_named_page() {
    let d = decide_navigation(
        "visor_3",
        "http://newwindow.local/?url=https%3A%2F%2Fexample.org%2F%3Fq%3D1",
        Some("url=https%3A%2F%2Fexample.org%2F%3Fq%3D1"),
    );
    assert_eq!(new_tab_target(d), Some("https://example.org/?q=1".to_string()));
}

#[test]
fn first_url_parameter_wins_and_plus_is_space() {
    let d = decide_navigation("visor_1", "http://newwindow.local/x", Some("foo=bar&url=a+b&url=c"));
    assert_eq!(new_tab_target(d), Some("a b".to_string()));
}

#[test]
fn new_window_navigation_without_target_opens_nothing() {
    assert_eq!(new_tab_target(decide_navigation("visor_1", "http://newwindow.local/", None)), None);
    assert_eq!(new_tab_target(decide_navigation("visor_1", "http://newwindow.local/", Some("x=1"))), None);
}

#[test]
fn prefix_must_match_exactly() {
    assert!(matches!(
        decide_navigation("visor_1", "https://newwindow.local/?url=x", Some("url=x")),
        NavigationDecision::Proceed { .. }
    ));
    assert!(matches!(
        decide_navigation("visor_1", "http://newwindow.local", None),
        NavigationDecision::Proceed { .. }
    ));
}

#[test]
fn first_url_param_picks_first_match() {
    let pairs = vec![
        ("a".to_string(), "1".to_string()),
        ("url".to_string(), "first".to_string()),
        ("url".to_string(), "second".to_string()),
    ];
    assert_eq!(first_url_param(&pairs), Some("first".to_string()));
    assert_eq!(first_url_param(&vec![]), None);
}

#[test]
fn web_urls_are_checked() {
    let u = parse_web_url("https://example.com").expect("a good URL");
    assert_eq!(u.as_str(), "https://example.com/");
    assert_eq!(parse_web_url("not a url").unwrap_err(), "relative URL without a base");
    assert_eq!(parse_web_url("http://[::1").unwrap_err(), "invalid IPv6 address");
}
