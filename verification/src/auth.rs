//! Authentication Gate: the closed set of authentication failures and the
//! two translation policies that map them onto the error taxonomy.

use vstd::prelude::*;
use crate::response::{Error, status_of, redirect_target_of};

verus! {

/// Why authenticating a request failed.
#[derive(Debug)]
pub enum RequestError {
    MissingCookies,
    BadCookies,
    NoUserRegistered,
    InternalError,
    InvalidUserName,
}

/// The API policy: machine-readable statuses for data endpoints.
pub open spec fn api_policy(error: RequestError) -> Error {
    match error {
        RequestError::MissingCookies => Error::NotAuthorized,
        RequestError::BadCookies => Error::NotAuthorized,
        RequestError::NoUserRegistered => Error::NotAuthorized,
        RequestError::InternalError => Error::InternalServerError,
        RequestError::InvalidUserName => Error::InvalidData("invalid user name"),
    }
}

/// The view policy: navigable redirects for browser endpoints, with the
/// no-account-yet case guided to first-run signup.
pub open spec fn view_policy(error: RequestError) -> Error {
    match error {
        RequestError::MissingCookies => Error::RedirectToLogin,
        RequestError::BadCookies => Error::RedirectToLogin,
        RequestError::NoUserRegistered => Error::RedirectToRegistration,
        RequestError::InternalError => Error::InternalServerError,
        RequestError::InvalidUserName => Error::RedirectToLogin,
    }
}

/// Translates an authentication failure for an API caller.
pub fn api_auth(error: RequestError) -> (r: Error)
    ensures
        r == api_policy(error),
{
    match error {
        RequestError::MissingCookies => Error::NotAuthorized,
        RequestError::BadCookies => Error::NotAuthorized,
        RequestError::NoUserRegistered => Error::NotAuthorized,
        RequestError::InternalError => Error::InternalServerError,
        RequestError::InvalidUserName => Error::InvalidData("invalid user name"),
    }
}

/// Translates an authentication failure for a browser caller.
pub fn view_auth(error: RequestError) -> (r: Error)
    ensures
        r == view_policy(error),
{
    match error {
        RequestError::MissingCookies => Error::RedirectToLogin,
        RequestError::BadCookies => Error::RedirectToLogin,
        RequestError::NoUserRegistered => Error::RedirectToRegistration,
        RequestError::InternalError => Error::InternalServerError,
        RequestError::InvalidUserName => Error::RedirectToLogin,
    }
}

/// Missing cookies yield 401 under the API policy and a redirect to the
/// login page under the view policy.
pub proof fn lemma_missing_cookies_policies(prefix: Seq<char>)
    ensures
        status_of(api_policy(RequestError::MissingCookies)) == 401,
        view_policy(RequestError::MissingCookies) == Error::RedirectToLogin,
        redirect_target_of(view_policy(RequestError::MissingCookies), prefix) == Some(
            prefix + "/login"@,
        ),
{
}

/// A store with no registered user yields 401 under the API policy and a
/// redirect to first-run registration under the view policy.
pub proof fn lemma_no_user_registered_policies(prefix: Seq<char>)
    ensures
        status_of(api_policy(RequestError::NoUserRegistered)) == 401,
        view_policy(RequestError::NoUserRegistered) == Error::RedirectToRegistration,
        redirect_target_of(view_policy(RequestError::NoUserRegistered), prefix) == Some(
            prefix + "/login#uninitialized=true"@,
        ),
{
}

} // verus!
