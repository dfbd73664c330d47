use fetch_panel::route::{has_prefix, AppRoute};
use yew_router::matcher::{MatcherSettings, MatcherToken, RouteMatcher};

#[test]
fn locations_lead_to_routes() {
    assert_eq!(AppRoute::switch("/"), Some(AppRoute::Index));
    assert_eq!(AppRoute::switch("/test"), Some(AppRoute::Test));
    assert_eq!(AppRoute::switch("/about"), Some(AppRoute::Index));
    assert_eq!(AppRoute::switch("/te"), Some(AppRoute::Index));
    assert_eq!(AppRoute::switch("/tes"), Some(AppRoute::Index));
    assert_eq!(AppRoute::switch("/t\u{e9}st"), Some(AppRoute::Index));
}

#[test]
fn rest_of_location_does_not_count() {
    assert_eq!(AppRoute::switch("/test/"), Some(AppRoute::Test));
    assert_eq!(AppRoute::switch("/test?page=2"), Some(AppRoute::Test));
    assert_eq!(AppRoute::switch("/test#top"), Some(AppRoute::Test));
    assert_eq!(AppRoute::switch("/tester"), Some(AppRoute::Test));
    assert_eq!(AppRoute::switch("/test\u{1F600}"), Some(AppRoute::Test));
    assert_eq!(AppRoute::switch("/?page=2#top"), Some(AppRoute::Index));
}

#[test]
fn case_of_letters_does_not_count() {
    assert_eq!(AppRoute::switch("/TEST"), Some(AppRoute::Test));
    assert_eq!(AppRoute::switch("/Test"), Some(AppRoute::Test));
    assert_eq!(AppRoute::switch("/tEsT/x"), Some(AppRoute::Test));
}

#[test]
fn locations_without_slash_lead_nowhere() {
    assert_eq!(AppRoute::switch(""), None);
    assert_eq!(AppRoute::switch("test"), None);
    assert_eq!(AppRoute::switch("index"), None);
    assert_eq!(AppRoute::switch(" /"), None);
    assert_eq!(AppRoute::switch("\\test"), None);
}

#[test]
fn routes_have_their_locations() {
    assert_eq!(AppRoute::Test.to_path(), "/test");
    assert_eq!(AppRoute::Index.to_path(), "/");
}

#[test]
fn location_of_a_route_leads_back() {
    for route in [AppRoute::Test, AppRoute::Index] {
        assert_eq!(AppRoute::switch(route.to_path()), Some(route));
    }
}

#[test]
fn each_route_has_the_other() {
    assert_eq!(AppRoute::Test.other(), AppRoute::Index);
    assert_eq!(AppRoute::Index.other(), AppRoute::Test);
    assert_eq!(AppRoute::Test.other().other(), AppRoute::Test);
}

#[test]
fn prefix_ignores_ascii_case_only() {
    assert!(has_prefix("Hello, world", "hello"));
    assert!(has_prefix("hello", "HELLO"));
    assert!(has_prefix("anything", ""));
    assert!(has_prefix("", ""));
    assert!(!has_prefix("hell", "hello"));
    assert!(!has_prefix("", "a"));
    assert!(!has_prefix("[x", "{x"));
    assert!(!has_prefix("@x", "`x"));
    assert!(!has_prefix("\u{c9}t\u{e9}", "\u{e9}t\u{e9}"));
    assert!(has_prefix("\u{e9}t\u{e9}!", "\u{e9}T\u{e9}"));
}

fn matcher_accepts(literal: &str, location: &str) -> bool {
    let matcher = RouteMatcher {
        tokens: vec![MatcherToken::Exact(literal.to_string())],
        settings: MatcherSettings { case_insensitive: true },
    };
    matcher.capture_route_into_map(location).is_ok()
}

fn matcher_switch(location: &str) -> Option<AppRoute> {
    if matcher_accepts("/test", location) {
        Some(AppRoute::Test)
    } else if matcher_accepts("/", location) {
        Some(AppRoute::Index)
    } else {
        None
    }
}

#[test]
fn switch_agrees_with_the_router_matcher() {
    let locations = [
        "", "/", "//", "/test", "/TEST", "/Test", "/tESt", "/test/", "/test/more", "/tester",
        "/test?x=1", "/test#frag", "/tes", "/te", "/t", "/tset", "/about", "/index", "test",
        "Test", "index", " /test", "/ test", "/\u{e9}", "/t\u{e9}st", "/test\u{e9}",
        "/te\u{17f}t", "/\u{ff54}est", "\u{ff0f}test", "/tes\u{165}", "/te\u{1e9e}t", "?", "#",
        "/?q", "/#f", "\\", "/TeSt/..", "/te/st", "/test%20", "/%74est",
    ];
    for location in locations {
        assert_eq!(AppRoute::switch(location), matcher_switch(location), "at {:?}", location);
    }
}
