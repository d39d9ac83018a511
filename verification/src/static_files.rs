//! Static Asset Server: content-type determination and the status mapping
//! for serving a file.  The filesystem and the content-sniffing process are
//! outside; their answers enter as plain values.

use vstd::prelude::*;
use vstd::string::StrSliceExecFns;
use vstd::string::StringExecFns;
use crate::path::{SafeResourcePath, has_dotdot_segment};
use crate::response::{Error, Response, not_found, internal_server_error};
use crate::text::{rfind_char, str_eq, without_newlines, strip_newlines};

verus! {

/// Index of the last occurrence of `c` in `s`, if any.
pub open spec fn spec_rfind(s: Seq<char>, c: char) -> Option<int>
    decreases s.len(),
{
    if s.len() == 0 {
        None
    } else if s.last() == c {
        Some(s.len() - 1)
    } else {
        spec_rfind(s.drop_last(), c)
    }
}

proof fn lemma_rfind_some(s: Seq<char>, c: char, i: int)
    requires
        0 <= i < s.len(),
        s[i] == c,
        forall|k: int| i < k < s.len() ==> s[k] != c,
    ensures
        spec_rfind(s, c) == Some(i),
    decreases s.len(),
{
    if i < s.len() - 1 {
        lemma_rfind_some(s.drop_last(), c, i);
    }
}

proof fn lemma_rfind_none(s: Seq<char>, c: char)
    requires
        forall|k: int| 0 <= k < s.len() ==> s[k] != c,
    ensures
        spec_rfind(s, c) is None,
    decreases s.len(),
{
    if s.len() > 0 {
        lemma_rfind_none(s.drop_last(), c);
    }
}

/// The extension of the final path component: what follows the last dot,
/// unless that dot begins the component (a hidden file) or no dot follows
/// the last separator.
pub open spec fn ext_of(s: Seq<char>) -> Option<Seq<char>> {
    let f: int = match spec_rfind(s, '/') {
        Some(i) => i + 1,
        None => 0,
    };
    match spec_rfind(s, '.') {
        Some(d) => if d > f {
            Some(s.subrange(d + 1, s.len() as int))
        } else {
            None
        },
        None => None,
    }
}

/// The content types served without sniffing, by extension.
pub open spec fn known_content_type(ext: Option<Seq<char>>) -> Option<Seq<char>> {
    match ext {
        Some(e) => if e == "html"@ {
            Some("text/html"@)
        } else if e == "css"@ {
            Some("text/css"@)
        } else if e == "js"@ {
            Some("text/javascript"@)
        } else if e == "png"@ {
            Some("image/png"@)
        } else if e == "svg"@ {
            Some("image/svg+xml"@)
        } else {
            None
        },
        None => None,
    }
}

/// The fast path of content-type determination: the extension table, with
/// nothing decided for an extension outside it.
pub fn fast_content_type(path: &str) -> (r: Option<&'static str>)
    ensures
        match r {
            Some(ct) => known_content_type(ext_of(path@)) == Some(ct@),
            None => known_content_type(ext_of(path@)) is None,
        },
{
    let len = path.unicode_len();
    let f: usize = match rfind_char(path, '/') {
        Some(i) => {
            proof {
                lemma_rfind_some(path@, '/', i as int);
            }
            i + 1
        },
        None => {
            proof {
                lemma_rfind_none(path@, '/');
            }
            0
        },
    };
    let d: usize = match rfind_char(path, '.') {
        Some(d) => {
            proof {
                lemma_rfind_some(path@, '.', d as int);
            }
            d
        },
        None => {
            proof {
                lemma_rfind_none(path@, '.');
            }
            return None;
        },
    };
    if d <= f {
        return None;
    }
    let ext = path.substring_char(d + 1, len);
    if str_eq(ext, "html") {
        Some("text/html")
    } else if str_eq(ext, "css") {
        Some("text/css")
    } else if str_eq(ext, "js") {
        Some("text/javascript")
    } else if str_eq(ext, "png") {
        Some("image/png")
    } else if str_eq(ext, "svg") {
        Some("image/svg+xml")
    } else {
        None
    }
}

/// What the server must do next after the existence check.
#[derive(Debug)]
pub enum ServeStep {
    Done(Response),
    Sniff,
    Read(String),
}

/// Decides the next step once the file's existence is known: a missing file
/// is an expected condition and yields the not-found response, never an
/// internal failure; otherwise the content type is the supplied one, the
/// extension table's, or must be sniffed.
pub fn serve_after_exists(exists: bool, abs_path: &str, content_type: Option<String>) -> (r:
    ServeStep)
    ensures
        !exists ==> (r matches ServeStep::Done(resp) && resp.status == 404 && resp.body@
            == "Error: Page not found"@ && (resp.content_type matches Some(c) && c@
            == "text/html"@)),
        exists ==> match content_type {
            Some(ct) => r matches ServeStep::Read(c) && c == ct,
            None => match known_content_type(ext_of(abs_path@)) {
                Some(ct) => r matches ServeStep::Read(c) && c@ == ct,
                None => r is Sniff,
            },
        },
{
    if !exists {
        return ServeStep::Done(not_found());
    }
    match content_type {
        Some(ct) => ServeStep::Read(ct),
        None => match fast_content_type(abs_path) {
            Some(ct) => ServeStep::Read(String::from_str(ct)),
            None => ServeStep::Sniff,
        },
    }
}

/// Acts on the sniffing process's answer: absent output (the process failed
/// to run, exited non-zero, or printed undecodable text) is an internal
/// failure; otherwise the output with newlines removed is the content type.
pub fn serve_after_sniff(output: Option<String>) -> (r: Result<String, Response>)
    ensures
        match r {
            Ok(ct) => output matches Some(raw) && ct@ == without_newlines(raw@),
            Err(resp) => output is None && resp.status == 500 && resp.body@
                == "Internal server error"@,
        },
{
    match output {
        Some(raw) => Ok(strip_newlines(raw.as_str())),
        None => Err(internal_server_error()),
    }
}

/// Acts on the file read: a failure after the existence check is an internal
/// failure; success serves the bytes under the decided content type.
pub fn serve_after_read(contents: Option<String>, content_type: &str) -> (r: Response)
    ensures
        contents matches Some(body) ==> r.status == 200 && r.body == body && (
        r.content_type matches Some(c) && c@ == content_type@),
        contents is None ==> r.status == 500 && r.body@ == "Internal server error"@,
{
    match contents {
        Some(body) => {
            let mut builder = Response::with_status(200);
            builder.set_body(body);
            builder.set_content_type(content_type);
            builder
        },
        None => internal_server_error(),
    }
}

/// Resolves the path of a static asset request: the untrusted remainder is
/// validated and prefixed with the trusted root; a traversal attempt is
/// invalid data.
pub fn static_asset_path(rest: String, root: &str) -> (r: Result<SafeResourcePath, Error>)
    requires
        !has_dotdot_segment(root@),
    ensures
        match r {
            Ok(p) => !has_dotdot_segment(rest@) && p@ == root@ + seq!['/'] + rest@
                && !has_dotdot_segment(p@),
            Err(e) => has_dotdot_segment(rest@) && (e matches Error::InvalidData(m) && m@
                == "directory traversal is not allowed"@),
        },
{
    match SafeResourcePath::try_from(rest) {
        Ok(p) => Ok(p.prefix(root)),
        Err(_) => Err(Error::from_traversal()),
    }
}

/// The portal's landing page, relative to the static root.
pub fn index_page() -> (r: SafeResourcePath)
    ensures
        r@ == "index.html"@,
{
    proof {
        reveal_strlit("index.html");
        assert(!has_dotdot_segment("index.html"@)) by {
            if has_dotdot_segment("index.html"@) {
                let i = choose|i: int| crate::path::dotdot_segment_at("index.html"@, i);
                assert("index.html"@[i] == '.' && "index.html"@[i + 1] == '.');
            }
        }
    }
    SafeResourcePath::from_literal("index.html")
}

/// The login form page, relative to the static root.
pub fn login_page() -> (r: SafeResourcePath)
    ensures
        r@ == "login.html"@,
{
    proof {
        reveal_strlit("login.html");
        assert(!has_dotdot_segment("login.html"@)) by {
            if has_dotdot_segment("login.html"@) {
                let i = choose|i: int| crate::path::dotdot_segment_at("login.html"@, i);
                assert("login.html"@[i] == '.' && "login.html"@[i + 1] == '.');
            }
        }
    }
    SafeResourcePath::from_literal("login.html")
}

} // verus!
