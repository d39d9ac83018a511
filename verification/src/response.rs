//! Error taxonomy and response mapping: the closed set of failure kinds and
//! the single place where HTTP status codes are chosen.

use vstd::prelude::*;
use vstd::string::StringExecFns;
use crate::text::concat2;

verus! {

/// One `Set-Cookie` entry of a response.
#[derive(Debug)]
pub struct SetCookie {
    pub name: String,
    pub value: String,
    pub max_age: Option<u32>,
}

/// An HTTP-level response: status, body, optional content type, optional
/// redirect target, and cookies to set.
#[derive(Debug)]
pub struct Response {
    pub status: u16,
    pub body: String,
    pub content_type: Option<String>,
    pub location: Option<String>,
    pub cookies: Vec<SetCookie>,
}

/// Which redirect status a redirect response carries.
#[derive(Debug)]
pub enum RedirectKind {
    SeeOther,
    Temporary,
}

/// The status code of each redirect kind.
pub open spec fn redirect_status(kind: RedirectKind) -> u16 {
    match kind {
        RedirectKind::SeeOther => 303,
        RedirectKind::Temporary => 307,
    }
}

impl Response {
    /// A response with the given status and nothing else.
    pub fn with_status(status: u16) -> (r: Response)
        ensures
            r.status == status,
            r.body@ == Seq::<char>::empty(),
            r.content_type is None,
            r.location is None,
            r.cookies@.len() == 0,
    {
        Response {
            status,
            body: String::new(),
            content_type: None,
            location: None,
            cookies: Vec::new(),
        }
    }

    /// A redirect to `url` with the given kind's status.
    pub fn redirect(url: &str, kind: RedirectKind) -> (r: Response)
        ensures
            r.status == redirect_status(kind),
            r.body@ == Seq::<char>::empty(),
            r.content_type is None,
            r.location matches Some(l) && l@ == url@,
            r.cookies@.len() == 0,
    {
        let status: u16 = match kind {
            RedirectKind::SeeOther => 303,
            RedirectKind::Temporary => 307,
        };
        Response {
            status,
            body: String::new(),
            content_type: None,
            location: Some(String::from_str(url)),
            cookies: Vec::new(),
        }
    }

    /// Replaces the body.
    pub fn set_body(&mut self, body: String)
        ensures
            final(self).body == body,
            final(self).status == old(self).status,
            final(self).content_type == old(self).content_type,
            final(self).location == old(self).location,
            final(self).cookies == old(self).cookies,
    {
        self.body = body;
    }

    /// Replaces the content type.
    pub fn set_content_type(&mut self, content_type: &str)
        ensures
            final(self).content_type matches Some(c) && c@ == content_type@,
            final(self).status == old(self).status,
            final(self).body == old(self).body,
            final(self).location == old(self).location,
            final(self).cookies == old(self).cookies,
    {
        self.content_type = Some(String::from_str(content_type));
    }

    /// Appends one `Set-Cookie` entry.
    pub fn set_cookie(&mut self, name: &str, value: &str, max_age: Option<u32>)
        ensures
            final(self).cookies@.len() == old(self).cookies@.len() + 1,
            final(self).cookies@.subrange(0, old(self).cookies@.len() as int) == old(
                self,
            ).cookies@,
            final(self).cookies@.last().name@ == name@,
            final(self).cookies@.last().value@ == value@,
            final(self).cookies@.last().max_age == max_age,
            final(self).status == old(self).status,
            final(self).body == old(self).body,
            final(self).content_type == old(self).content_type,
            final(self).location == old(self).location,
    {
        self.cookies.push(
            SetCookie { name: String::from_str(name), value: String::from_str(value), max_age },
        );
        proof {
            assert(self.cookies@.subrange(0, self.cookies@.len() - 1) =~= old(self).cookies@);
        }
    }
}

/// The closed set of failure kinds; components return these, never raw
/// status codes.
#[derive(Debug)]
pub enum Error {
    NotAuthorized,
    Forbidden(&'static str),
    InvalidData(&'static str),
    NotFound,
    InternalServerError,
    RedirectToLogin,
    RedirectToRegistration,
}

/// The status code each failure kind maps to.
pub open spec fn status_of(e: Error) -> u16 {
    match e {
        Error::NotAuthorized => 401,
        Error::Forbidden(_) => 403,
        Error::InvalidData(_) => 400,
        Error::NotFound => 404,
        Error::InternalServerError => 500,
        Error::RedirectToLogin => 303,
        Error::RedirectToRegistration => 303,
    }
}

/// The redirect target each failure kind maps to, under the mount prefix.
pub open spec fn redirect_target_of(e: Error, prefix: Seq<char>) -> Option<Seq<char>> {
    match e {
        Error::RedirectToLogin => Some(prefix + "/login"@),
        Error::RedirectToRegistration => Some(prefix + "/login#uninitialized=true"@),
        _ => None,
    }
}

impl Error {
    /// The failure a rejected traversal path converts to.
    pub fn from_traversal() -> (r: Error)
        ensures
            r matches Error::InvalidData(m) && m@ == "directory traversal is not allowed"@,
    {
        Error::InvalidData("directory traversal is not allowed")
    }

    /// Maps the failure to its response: the status from `status_of`, the
    /// redirect target from `redirect_target_of`, and a fixed body text.
    pub fn response(self, prefix: &str) -> (r: Response)
        ensures
            r.status == status_of(self),
            match redirect_target_of(self, prefix@) {
                Some(t) => r.location matches Some(l) && l@ == t,
                None => r.location is None,
            },
            self is NotAuthorized ==> r.body@ == "Not authorized"@,
            self matches Error::Forbidden(m) ==> r.body@ == "Forbidden: "@ + m@,
            self matches Error::InvalidData(m) ==> r.body@ == "Invalid request: "@ + m@,
            self is NotFound ==> r.body@ == "Not found"@,
            self is InternalServerError ==> r.body@ == "Internal server error"@,
            r.content_type is None,
            r.cookies@.len() == 0,
    {
        match self {
            Error::NotAuthorized => {
                let mut builder = Response::with_status(401);
                builder.set_body(String::from_str("Not authorized"));
                builder
            },
            Error::Forbidden(message) => {
                let mut builder = Response::with_status(403);
                builder.set_body(concat2("Forbidden: ", message));
                builder
            },
            Error::InvalidData(message) => {
                let mut builder = Response::with_status(400);
                builder.set_body(concat2("Invalid request: ", message));
                builder
            },
            Error::NotFound => {
                let mut builder = Response::with_status(404);
                builder.set_body(String::from_str("Not found"));
                builder
            },
            Error::InternalServerError => {
                let mut builder = Response::with_status(500);
                builder.set_body(String::from_str("Internal server error"));
                builder
            },
            Error::RedirectToLogin => Response::redirect(
                concat2(prefix, "/login").as_str(),
                RedirectKind::SeeOther,
            ),
            Error::RedirectToRegistration => Response::redirect(
                concat2(prefix, "/login#uninitialized=true").as_str(),
                RedirectKind::SeeOther,
            ),
        }
    }
}

/// The response for a missing resource.
pub fn not_found() -> (r: Response)
    ensures
        r.status == 404,
        r.body@ == "Error: Page not found"@,
        r.content_type matches Some(c) && c@ == "text/html"@,
        r.location is None,
        r.cookies@.len() == 0,
{
    let mut builder = Response::with_status(404);
    builder.set_body(String::from_str("Error: Page not found"));
    builder.set_content_type("text/html");
    builder
}

/// The response for an environment-attributable failure.
pub fn internal_server_error() -> (r: Response)
    ensures
        r.status == 500,
        r.body@ == "Internal server error"@,
        r.content_type is None,
        r.location is None,
        r.cookies@.len() == 0,
{
    let mut builder = Response::with_status(500);
    builder.set_body(String::from_str("Internal server error"));
    builder
}

} // verus!
