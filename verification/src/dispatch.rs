//! Request Dispatcher: strips the mount prefix and splits the remaining path
//! into one leading component and an opaque remainder, then picks exactly
//! one handler from the routing table.

use vstd::prelude::*;
use vstd::string::StrSliceExecFns;
use vstd::string::StringExecFns;
use crate::text::{starts_with, str_eq, check_match_at, find_char_from};

verus! {

/// The request methods the routing table distinguishes.
#[derive(Debug, Clone, Copy)]
pub enum HttpMethod {
    Get,
    Post,
    Other,
}

/// The handler a request is routed to.  The remainder strings keep their
/// internal `/` separators; each handler re-interprets its own.
#[derive(Debug)]
pub enum RouteTarget {
    Home,
    StaticAsset { rest: String },
    Icon { rest: String },
    AppsList,
    LoginPage,
    LoginSubmit,
    OpenApp { rest: String },
    Logout,
    NotFound,
}

/// Index of the first occurrence of `c` in `s` at or after `from`, if any.
pub open spec fn spec_find_from(s: Seq<char>, c: char, from: int) -> Option<int>
    decreases s.len() - from,
    when 0 <= from <= s.len()
{
    if from >= s.len() {
        None
    } else if s[from] == c {
        Some(from)
    } else {
        spec_find_from(s, c, from + 1)
    }
}

proof fn lemma_find_from_some(s: Seq<char>, c: char, from: int, i: int)
    requires
        0 <= from <= i < s.len(),
        s[i] == c,
        forall|k: int| from <= k < i ==> s[k] != c,
    ensures
        spec_find_from(s, c, from) == Some(i),
    decreases i - from,
{
    if from < i {
        lemma_find_from_some(s, c, from + 1, i);
    }
}

proof fn lemma_find_from_none(s: Seq<char>, c: char, from: int)
    requires
        0 <= from <= s.len(),
        forall|k: int| from <= k < s.len() ==> s[k] != c,
    ensures
        spec_find_from(s, c, from) is None,
    decreases s.len() - from,
{
    if from < s.len() {
        lemma_find_from_none(s, c, from + 1);
    }
}

/// Splits the prefix-stripped path into its leading component (through the
/// character before the next `/` after position zero, or the whole path)
/// and the remainder after that `/`.
pub open spec fn route_component(path: Seq<char>) -> (Seq<char>, Seq<char>) {
    if path.len() == 0 {
        (path, Seq::empty())
    } else {
        match spec_find_from(path, '/', 1) {
            Some(i) => (path.subrange(0, i), path.subrange(i + 1, path.len() as int)),
            None => (path, Seq::empty()),
        }
    }
}

/// The routing table: which target serves the (component, method) pair of a
/// request path under the mount prefix.
pub open spec fn is_route_for(
    r: RouteTarget,
    prefix: Seq<char>,
    path: Seq<char>,
    method: HttpMethod,
) -> bool {
    if !starts_with(path, prefix) {
        r is NotFound
    } else {
        let rest = path.skip(prefix.len() as int);
        let comp = route_component(rest).0;
        let rem = route_component(rest).1;
        if method is Get && (comp.len() == 0 || comp == "/"@) {
            r is Home
        } else if method is Get && comp == "/static"@ {
            r matches RouteTarget::StaticAsset { rest: s } && s@ == rem
        } else if method is Get && comp == "/icons"@ {
            r matches RouteTarget::Icon { rest: s } && s@ == rem
        } else if method is Get && comp == "/apps"@ {
            r is AppsList
        } else if method is Get && comp == "/login"@ {
            r is LoginPage
        } else if method is Post && comp == "/login"@ {
            r is LoginSubmit
        } else if method is Get && comp == "/open_app"@ {
            r matches RouteTarget::OpenApp { rest: s } && s@ == rem
        } else if method is Get && comp == "/logout"@ {
            r is Logout
        } else {
            r is NotFound
        }
    }
}

/// Routes one request: a path outside the mount prefix is not found, never
/// partially matched; everything else goes by the routing table.
pub fn route_request(prefix: &str, path: &str, method: HttpMethod) -> (r: RouteTarget)
    ensures
        is_route_for(r, prefix@, path@, method),
{
    let plen = prefix.unicode_len();
    let len = path.unicode_len();
    if !(plen <= len && check_match_at(path, 0, prefix)) {
        proof {
            assert(!starts_with(path@, prefix@));
        }
        return RouteTarget::NotFound;
    }
    proof {
        assert(starts_with(path@, prefix@));
    }
    let rest = path.substring_char(plen, len);
    proof {
        assert(rest@ =~= path@.skip(plen as int));
    }
    let rlen = len - plen;
    let (comp, rem): (&str, &str) = if rlen == 0 {
        (rest, "")
    } else {
        match find_char_from(rest, '/', 1) {
            Some(i) => {
                proof {
                    lemma_find_from_some(rest@, '/', 1, i as int);
                }
                (rest.substring_char(0, i), rest.substring_char(i + 1, rlen))
            },
            None => {
                proof {
                    lemma_find_from_none(rest@, '/', 1);
                }
                (rest, "")
            },
        }
    };
    proof {
        reveal_strlit("");
        assert(comp@ == route_component(rest@).0);
        assert(rem@ == route_component(rest@).1);
    }
    let is_get = match method {
        HttpMethod::Get => true,
        _ => false,
    };
    let is_post = match method {
        HttpMethod::Post => true,
        _ => false,
    };
    if is_get && (comp.is_empty() || str_eq(comp, "/")) {
        RouteTarget::Home
    } else if is_get && str_eq(comp, "/static") {
        RouteTarget::StaticAsset { rest: String::from_str(rem) }
    } else if is_get && str_eq(comp, "/icons") {
        RouteTarget::Icon { rest: String::from_str(rem) }
    } else if is_get && str_eq(comp, "/apps") {
        RouteTarget::AppsList
    } else if is_get && str_eq(comp, "/login") {
        RouteTarget::LoginPage
    } else if is_post && str_eq(comp, "/login") {
        RouteTarget::LoginSubmit
    } else if is_get && str_eq(comp, "/open_app") {
        RouteTarget::OpenApp { rest: String::from_str(rem) }
    } else if is_get && str_eq(comp, "/logout") {
        RouteTarget::Logout
    } else {
        RouteTarget::NotFound
    }
}

} // verus!
