use lockdown_core::deep_link::{localize, navigation_target, DeepLinkUri};

fn link(authority: &str, path: &str, query: Option<&str>) -> DeepLinkUri {
    DeepLinkUri {
        authority: authority.to_string(),
        path: path.to_string(),
        query: query.map(|q| q.to_string()),
    }
}

#[test]
fn localizes_authority_and_query() {
    let uri = link("quiz", "", Some("x=1"));
    assert_eq!(
        localize(&uri, "https://app.example.com"),
        "https://app.example.com/quiz?x=1"
    );
}

#[test]
fn localizes_authority_path_and_query() {
    let uri = link("results", "/987", Some("y=true"));
    assert_eq!(
        localize(&uri, "https://app.example.com"),
        "https://app.example.com/results/987?y=true"
    );
}

#[test]
fn base_trailing_slash_is_normalized() {
    let uri = link("quiz", "/1", Some("x=1"));
    let bare = localize(&uri, "https://app.example.com");
    let slashed = localize(&uri, "https://app.example.com/");
    assert_eq!(bare, slashed);
    let many = localize(&uri, "https://app.example.com///");
    assert_eq!(bare, many);
}

#[test]
fn empty_link_returns_exactly_base() {
    let uri = link("", "", None);
    assert_eq!(localize(&uri, "https://app.example.com"), "https://app.example.com");
}

#[test]
fn empty_link_with_slashed_base_returns_stripped_base() {
    let uri = link("", "", None);
    assert_eq!(localize(&uri, "https://app.example.com/"), "https://app.example.com");
}

#[test]
fn empty_authority_keeps_path() {
    let uri = link("", "/a/b", None);
    assert_eq!(localize(&uri, "https://b.example"), "https://b.example/a/b");
}

#[test]
fn authority_edge_slashes_are_stripped() {
    let uri = link("/host/", "", None);
    assert_eq!(localize(&uri, "https://b.example"), "https://b.example/host");
}

#[test]
fn path_leading_slashes_are_stripped() {
    let uri = link("h", "///p", None);
    assert_eq!(localize(&uri, "https://b.example"), "https://b.example/h/p");
}

#[test]
fn empty_query_still_gets_marker() {
    let uri = link("h", "", Some(""));
    assert_eq!(localize(&uri, "https://b.example"), "https://b.example/h?");
}

#[test]
fn query_is_verbatim_not_reencoded() {
    let uri = link("h", "", Some("a=b%20c&d=+e"));
    assert_eq!(localize(&uri, "https://b.example"), "https://b.example/h?a=b%20c&d=+e");
}

#[test]
fn no_double_slash_at_join_points() {
    let uri = link("/h/", "//p/q/", Some("x=1"));
    assert_eq!(localize(&uri, "https://b.example///"), "https://b.example/h/p/q/?x=1");
}

#[test]
fn unicode_segments_survive() {
    let uri = link("héllo", "/päth", Some("q=ü"));
    assert_eq!(localize(&uri, "https://b.example"), "https://b.example/héllo/päth?q=ü");
}

#[test]
fn localizer_matches_url_crate_components() {
    // The host hands the localizer the components url::Url parsed out of a
    // delivered deep link; run the same conversion here.
    let parsed = url::Url::parse("app-lockdown://quiz?x=1").unwrap();
    let uri = DeepLinkUri {
        authority: parsed.host_str().unwrap_or("").to_string(),
        path: parsed.path().to_string(),
        query: parsed.query().map(|q| q.to_string()),
    };
    assert_eq!(
        localize(&uri, "https://app.example.com"),
        "https://app.example.com/quiz?x=1"
    );

    let parsed = url::Url::parse("app-lockdown://results/987?y=true").unwrap();
    let uri = DeepLinkUri {
        authority: parsed.host_str().unwrap_or("").to_string(),
        path: parsed.path().to_string(),
        query: parsed.query().map(|q| q.to_string()),
    };
    assert_eq!(
        localize(&uri, "https://app.example.com"),
        "https://app.example.com/results/987?y=true"
    );
}

#[test]
fn navigation_target_default_is_base() {
    assert_eq!(
        navigation_target(None, "https://app.example.com"),
        Some("https://app.example.com".to_string())
    );
}

#[test]
fn navigation_target_localizes_delivered_link() {
    let uri = link("quiz", "", Some("x=1"));
    assert_eq!(
        navigation_target(Some(&uri), "https://app.example.com"),
        Some("https://app.example.com/quiz?x=1".to_string())
    );
}

#[test]
fn navigation_target_rejects_unparseable_base() {
    assert_eq!(navigation_target(None, "not a url"), None);
    let uri = link("quiz", "", None);
    assert_eq!(navigation_target(Some(&uri), "no-scheme-here"), None);
}
