use selfhost_dashboard::response::{Error, not_found, internal_server_error};
use selfhost_dashboard::auth::{RequestError, api_auth, view_auth};

#[test]
fn statuses_of_the_closed_error_set() {
    assert_eq!(Error::NotAuthorized.response("/portal").status, 401);
    assert_eq!(Error::Forbidden("nope").response("/portal").status, 403);
    assert_eq!(Error::InvalidData("bad").response("/portal").status, 400);
    assert_eq!(Error::NotFound.response("/portal").status, 404);
    assert_eq!(Error::InternalServerError.response("/portal").status, 500);
    assert_eq!(Error::RedirectToLogin.response("/portal").status, 303);
    assert_eq!(Error::RedirectToRegistration.response("/portal").status, 303);
}

#[test]
fn bodies_carry_the_reason() {
    assert_eq!(Error::Forbidden("locked").response("").body, "Forbidden: locked");
    assert_eq!(Error::InvalidData("bad name").response("").body, "Invalid request: bad name");
    assert_eq!(Error::NotAuthorized.response("").body, "Not authorized");
    assert_eq!(Error::NotFound.response("").body, "Not found");
    assert_eq!(Error::InternalServerError.response("").body, "Internal server error");
}

#[test]
fn redirects_carry_the_prefixed_target() {
    let r = Error::RedirectToLogin.response("/portal");
    assert_eq!(r.location.as_deref(), Some("/portal/login"));
    let r = Error::RedirectToRegistration.response("/portal");
    assert_eq!(r.location.as_deref(), Some("/portal/login#uninitialized=true"));
}

#[test]
fn missing_cookies_api_gives_401() {
    let e = api_auth(RequestError::MissingCookies);
    assert_eq!(e.response("/p").status, 401);
}

#[test]
fn missing_cookies_view_redirects_to_login() {
    let e = view_auth(RequestError::MissingCookies);
    let r = e.response("/p");
    assert_eq!(r.status, 303);
    assert_eq!(r.location.as_deref(), Some("/p/login"));
}

#[test]
fn no_user_registered_view_redirects_to_registration() {
    let e = view_auth(RequestError::NoUserRegistered);
    let r = e.response("/p");
    assert_eq!(r.status, 303);
    assert_eq!(r.location.as_deref(), Some("/p/login#uninitialized=true"));
}

#[test]
fn no_user_registered_api_gives_401() {
    let e = api_auth(RequestError::NoUserRegistered);
    assert_eq!(e.response("/p").status, 401);
}

#[test]
fn bad_cookies_follow_their_policy() {
    assert_eq!(api_auth(RequestError::BadCookies).response("/p").status, 401);
    let r = view_auth(RequestError::BadCookies).response("/p");
    assert_eq!(r.location.as_deref(), Some("/p/login"));
}

#[test]
fn internal_error_is_500_under_both_policies() {
    assert_eq!(api_auth(RequestError::InternalError).response("/p").status, 500);
    assert_eq!(view_auth(RequestError::InternalError).response("/p").status, 500);
}

#[test]
fn invalid_user_name_differs_by_policy() {
    let r = api_auth(RequestError::InvalidUserName).response("/p");
    assert_eq!(r.status, 400);
    assert_eq!(r.body, "Invalid request: invalid user name");
    let r = view_auth(RequestError::InvalidUserName).response("/p");
    assert_eq!(r.location.as_deref(), Some("/p/login"));
}

#[test]
fn canned_responses() {
    let r = not_found();
    assert_eq!(r.status, 404);
    assert_eq!(r.body, "Error: Page not found");
    assert_eq!(r.content_type.as_deref(), Some("text/html"));
    let r = internal_server_error();
    assert_eq!(r.status, 500);
    assert_eq!(r.body, "Internal server error");
}

#[test]
fn traversal_converts_to_invalid_data() {
    let r = Error::from_traversal().response("/p");
    assert_eq!(r.status, 400);
    assert_eq!(r.body, "Invalid request: directory traversal is not allowed");
}
