use selfhost_dashboard::dispatch::{HttpMethod, RouteTarget, route_request};

#[test]
fn path_outside_prefix_is_not_found() {
    let r = route_request("/portal", "/elsewhere/static/a", HttpMethod::Get);
    assert!(matches!(r, RouteTarget::NotFound));
}

#[test]
fn bare_prefix_is_home() {
    assert!(matches!(route_request("/portal", "/portal", HttpMethod::Get), RouteTarget::Home));
    assert!(matches!(route_request("/portal", "/portal/", HttpMethod::Get), RouteTarget::Home));
}

#[test]
fn static_route_keeps_inner_separators() {
    match route_request("/portal", "/portal/static/css/site.css", HttpMethod::Get) {
        RouteTarget::StaticAsset { rest } => assert_eq!(rest, "css/site.css"),
        _ => panic!("expected the static route"),
    }
}

#[test]
fn icons_route() {
    match route_request("", "/icons/wiki.png", HttpMethod::Get) {
        RouteTarget::Icon { rest } => assert_eq!(rest, "wiki.png"),
        _ => panic!("expected the icons route"),
    }
}

#[test]
fn apps_route() {
    assert!(matches!(route_request("", "/apps", HttpMethod::Get), RouteTarget::AppsList));
}

#[test]
fn login_routes_by_method() {
    assert!(matches!(route_request("", "/login", HttpMethod::Get), RouteTarget::LoginPage));
    assert!(matches!(route_request("", "/login", HttpMethod::Post), RouteTarget::LoginSubmit));
}

#[test]
fn open_app_route_carries_the_name() {
    match route_request("/p", "/p/open_app/wiki", HttpMethod::Get) {
        RouteTarget::OpenApp { rest } => assert_eq!(rest, "wiki"),
        _ => panic!("expected the open-app route"),
    }
}

#[test]
fn logout_route() {
    assert!(matches!(route_request("", "/logout", HttpMethod::Get), RouteTarget::Logout));
}

#[test]
fn unmatched_pairs_are_not_found() {
    assert!(matches!(route_request("", "/static/a", HttpMethod::Post), RouteTarget::NotFound));
    assert!(matches!(route_request("", "/logout", HttpMethod::Post), RouteTarget::NotFound));
    assert!(matches!(route_request("", "/unknown", HttpMethod::Get), RouteTarget::NotFound));
    assert!(matches!(route_request("", "/apps", HttpMethod::Other), RouteTarget::NotFound));
}

#[test]
fn partial_prefix_match_is_not_found() {
    // "/portalx" starts with the prefix "/portal" as a string, so the
    // dispatcher strips it and routes the remainder "x", which matches no
    // table entry.
    assert!(matches!(route_request("/portal", "/portalx", HttpMethod::Get), RouteTarget::NotFound));
}

#[test]
fn empty_remainders() {
    match route_request("", "/static", HttpMethod::Get) {
        RouteTarget::StaticAsset { rest } => assert_eq!(rest, ""),
        _ => panic!("expected the static route"),
    }
    match route_request("", "/static/", HttpMethod::Get) {
        RouteTarget::StaticAsset { rest } => assert_eq!(rest, ""),
        _ => panic!("expected the static route"),
    }
}

#[test]
fn multibyte_paths_route_cleanly() {
    match route_request("", "/static/ünïcode.png", HttpMethod::Get) {
        RouteTarget::StaticAsset { rest } => assert_eq!(rest, "ünïcode.png"),
        _ => panic!("expected the static route"),
    }
    assert!(matches!(route_request("", "/é", HttpMethod::Get), RouteTarget::NotFound));
}
