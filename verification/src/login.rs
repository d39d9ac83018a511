//! Login/Signup State Machine: credential parsing, session-cookie issuing,
//! and the first-run administrator bootstrap.  The external user store's
//! answers enter as plain values; every decision taken on them lives here.

use vstd::prelude::*;
use crate::names::{Name, valid_name};
use crate::response::{Error, Response, RedirectKind};
use crate::text::str_eq;

verus! {

/// Session cookies live for about a year.
pub const SESSION_MAX_AGE: u32 = 31536000;

/// What the user store returns on a successful credential check.
#[derive(Debug)]
pub struct LoginSuccess {
    pub name: String,
    pub cookie: String,
}

/// Why the user store rejected a credential check.
#[derive(Debug)]
pub enum LoginError {
    BadUserPassword,
    DbGetUserError,
    DbSetCookieError,
}

/// Why the user store rejected a signup.
#[derive(Debug)]
pub enum InsertError {
    UserExists,
    DatabaseError,
}

/// What the machine does after the credential check.
#[derive(Debug)]
pub enum LoginStep {
    Done(Response),
    TrySignup,
    Fail(Error),
}

/// The decision the credential-check answer dictates.
#[derive(Debug)]
pub enum CheckDecision {
    Accept,
    Bootstrap,
    RejectLogin,
}

/// Maps the store's answer to the machine's decision: success is accepted; a
/// credential mismatch for the reserved name `admin` enters the bootstrap
/// path; every other failure is an indistinguishable rejection.
pub open spec fn check_decision(name: Seq<char>, result: Result<LoginSuccess, LoginError>) -> CheckDecision {
    match result {
        Ok(_) => CheckDecision::Accept,
        Err(LoginError::BadUserPassword) => if name == "admin"@ {
            CheckDecision::Bootstrap
        } else {
            CheckDecision::RejectLogin
        },
        Err(LoginError::DbGetUserError) => CheckDecision::RejectLogin,
        Err(LoginError::DbSetCookieError) => CheckDecision::RejectLogin,
    }
}

/// A redirect to the portal root that issues the two long-lived session
/// cookies `user_name` and `auth_token`.
pub open spec fn is_login_success_response(
    r: Response,
    prefix: Seq<char>,
    name: Seq<char>,
    cookie: Seq<char>,
) -> bool {
    &&& r.status == 303
    &&& r.location matches Some(l) && l@ == prefix
    &&& r.cookies@.len() == 2
    &&& r.cookies@[0].name@ == "user_name"@
    &&& r.cookies@[0].value@ == name
    &&& r.cookies@[0].max_age == Some(SESSION_MAX_AGE)
    &&& r.cookies@[1].name@ == "auth_token"@
    &&& r.cookies@[1].value@ == cookie
    &&& r.cookies@[1].max_age == Some(SESSION_MAX_AGE)
}

/// Builds the response that logs a user in.
pub fn login_success_response(prefix: &str, name: &str, cookie: &str) -> (r: Response)
    ensures
        is_login_success_response(r, prefix@, name@, cookie@),
{
    let mut builder = Response::redirect(prefix, RedirectKind::SeeOther);
    builder.set_cookie("user_name", name, Some(SESSION_MAX_AGE));
    builder.set_cookie("auth_token", cookie, Some(SESSION_MAX_AGE));
    proof {
        assert(builder.cookies@[0].name@ == "user_name"@);
    }
    builder
}

/// Extracts and validates the login form fields.  A missing field is a
/// browser navigation error and redirects to the login page; a name outside
/// the restricted alphabet is invalid data.
pub fn parse_credentials(username: Option<String>, password: Option<String>) -> (r: Result<
    (Name, String),
    Error,
>)
    ensures
        match r {
            Ok(p) => {
                &&& username matches Some(u) && p.0@ == u@ && valid_name(u@)
                &&& password matches Some(pw) && p.1 == pw
            },
            Err(e) => {
                ||| ((username is None || password is None) && e is RedirectToLogin)
                ||| (username matches Some(u) && password is Some && !valid_name(u@) && (
                e matches Error::InvalidData(m) && m@
                    == "user name contains invalid character"@))
            },
        },
{
    let username = match username {
        Some(u) => u,
        None => {
            return Err(Error::RedirectToLogin);
        },
    };
    let password = match password {
        Some(p) => p,
        None => {
            return Err(Error::RedirectToLogin);
        },
    };
    match Name::try_from(username) {
        Ok(name) => Ok((name, password)),
        Err(_) => Err(Error::InvalidData("user name contains invalid character")),
    }
}

/// Acts on the store's answer to the credential check.  Success issues the
/// session cookies; a mismatch for the reserved name `admin` attempts the
/// bootstrap signup; everything else redirects back to the login page
/// without revealing whether the user exists.
pub fn login_after_check(name: &Name, result: Result<LoginSuccess, LoginError>, prefix: &str) -> (r:
    LoginStep)
    ensures
        check_decision(name@, result) is Accept ==> (r matches LoginStep::Done(resp)
            && result matches Ok(s) && is_login_success_response(resp, prefix@, s.name@, s.cookie@)),
        check_decision(name@, result) is Bootstrap ==> r is TrySignup,
        check_decision(name@, result) is RejectLogin ==> (r matches LoginStep::Fail(e)
            && e is RedirectToLogin),
{
    match result {
        Ok(success) => LoginStep::Done(
            login_success_response(prefix, success.name.as_str(), success.cookie.as_str()),
        ),
        Err(LoginError::BadUserPassword) => {
            if str_eq(name.as_str(), "admin") {
                LoginStep::TrySignup
            } else {
                LoginStep::Fail(Error::RedirectToLogin)
            }
        },
        Err(LoginError::DbGetUserError) => LoginStep::Fail(Error::RedirectToLogin),
        Err(LoginError::DbSetCookieError) => LoginStep::Fail(Error::RedirectToLogin),
    }
}

/// Acts on the store's answer to the bootstrap signup.  An existing user is
/// treated as a credential mismatch, so the response does not reveal whether
/// the failure was a wrong password or a lost first-run race; a store error
/// is an internal failure.
pub fn login_after_signup(name: &Name, result: Result<String, InsertError>, prefix: &str) -> (r:
    Result<Response, Error>)
    ensures
        match r {
            Ok(resp) => result matches Ok(cookie) && is_login_success_response(
                resp,
                prefix@,
                name@,
                cookie@,
            ),
            Err(e) => {
                ||| (result matches Err(InsertError::UserExists) && e is RedirectToLogin)
                ||| (result matches Err(InsertError::DatabaseError) && e is InternalServerError)
            },
        },
{
    match result {
        Ok(cookie) => Ok(login_success_response(prefix, name.as_str(), cookie.as_str())),
        Err(InsertError::UserExists) => Err(Error::RedirectToLogin),
        Err(InsertError::DatabaseError) => Err(Error::InternalServerError),
    }
}

/// The response that logs a user out: both session cookies expire at once,
/// whether or not the backing store's logout call succeeded; a store failure
/// still surfaces as an internal failure.
pub fn logout_response(prefix: &str, store_ok: bool) -> (r: Response)
    ensures
        r.cookies@.len() == 2,
        r.cookies@[0].name@ == "user_name"@,
        r.cookies@[0].value@.len() == 0,
        r.cookies@[0].max_age == Some(0u32),
        r.cookies@[1].name@ == "auth_token"@,
        r.cookies@[1].value@.len() == 0,
        r.cookies@[1].max_age == Some(0u32),
        store_ok ==> r.status == 303 && (r.location matches Some(l) && l@ == prefix@ + "/login"@),
        !store_ok ==> r.status == 500 && r.body@ == "Internal server error"@,
{
    proof {
        reveal_strlit("");
    }
    let mut builder = if store_ok {
        Response::redirect(crate::text::concat2(prefix, "/login").as_str(), RedirectKind::SeeOther)
    } else {
        crate::response::internal_server_error()
    };
    builder.set_cookie("user_name", "", Some(0));
    builder.set_cookie("auth_token", "", Some(0));
    builder
}

/// The bootstrap path is reachable only for the reserved name `admin`, and
/// only on a credential mismatch; once such an account exists, the signup's
/// `UserExists` answer falls through to ordinary rejection.
pub proof fn lemma_bootstrap_only_admin(name: Seq<char>, result: Result<LoginSuccess, LoginError>)
    ensures
        check_decision(name, result) is Bootstrap <==> (result matches Err(
            LoginError::BadUserPassword,
        ) && name == "admin"@),
{
}

} // verus!
