//! Validated name tokens: application names and user names, both restricted
//! to lowercase ASCII letters and hyphen.

use vstd::prelude::*;
use vstd::string::StrSliceExecFns;
use crate::path::{SafeResourcePath, has_dotdot_segment, dotdot_segment_at};

verus! {

/// The restricted alphabet: lowercase ASCII letters and hyphen.
pub open spec fn valid_name_char(c: char) -> bool {
    c == '-' || ('a' <= c && c <= 'z')
}

/// Every character of `s` lies in the restricted alphabet.
pub open spec fn valid_name(s: Seq<char>) -> bool {
    forall|i: int| 0 <= i < s.len() ==> valid_name_char(s[i])
}

/// Position of the first character outside the restricted alphabet, if any.
fn find_invalid_char(s: &str) -> (r: Option<usize>)
    ensures
        match r {
            Some(i) => i < s@.len() && !valid_name_char(s@[i as int]) && forall|j: int|
                0 <= j < i ==> valid_name_char(s@[j]),
            None => valid_name(s@),
        },
{
    let len = s.unicode_len();
    let mut i: usize = 0;
    while i < len
        invariant
            len == s@.len(),
            i <= len,
            forall|j: int| 0 <= j < i ==> valid_name_char(s@[j]),
        decreases len - i,
    {
        let c = s.get_char(i);
        if !(c == '-' || ('a' <= c && c <= 'z')) {
            return Some(i);
        }
        i += 1;
    }
    None
}

/// Reports the first offending character of a rejected name and its index.
#[derive(Debug)]
pub struct InvalidAppName {
    pub name: String,
    pub pos: usize,
    pub invalid_char: char,
}

/// A name guaranteed by construction to match the restricted alphabet.
#[derive(Debug)]
pub struct AppName {
    inner: String,
}

impl View for AppName {
    type V = Seq<char>;

    closed spec fn view(&self) -> Seq<char> {
        self.inner@
    }
}

impl AppName {
    /// The invariant every value of this type carries.
    #[verifier::type_invariant]
    spec fn wf(self) -> bool {
        valid_name(self.inner@)
    }

    /// Validates an untrusted string: accepted unchanged exactly when every
    /// character is a lowercase ASCII letter or a hyphen; the error reports
    /// the first offending character and its index.
    pub fn try_from(value: String) -> (r: Result<AppName, InvalidAppName>)
        ensures
            match r {
                Ok(n) => n@ == value@ && valid_name(value@),
                Err(e) => {
                    &&& !valid_name(value@)
                    &&& e.name@ == value@
                    &&& e.pos < value@.len()
                    &&& e.invalid_char == value@[e.pos as int]
                    &&& !valid_name_char(e.invalid_char)
                    &&& forall|j: int| 0 <= j < e.pos ==> valid_name_char(value@[j])
                },
            },
    {
        match find_invalid_char(value.as_str()) {
            Some(pos) => {
                let invalid_char = value.as_str().get_char(pos);
                Err(InvalidAppName { name: value, pos, invalid_char })
            },
            None => Ok(AppName { inner: value }),
        }
    }

    /// The validated string itself.
    pub fn into_inner(self) -> (r: String)
        ensures
            r@ == self@,
    {
        self.inner
    }

    /// The validated string, borrowed.
    pub fn as_str(&self) -> (r: &str)
        ensures
            r@ == self@,
    {
        self.inner.as_str()
    }

    /// A name in the restricted alphabet holds no dot, so it is also a safe
    /// resource path.
    pub fn into_safe_path(self) -> (r: SafeResourcePath)
        ensures
            r@ == self@,
    {
        proof {
            use_type_invariant(&self);
            assert(!has_dotdot_segment(self.inner@)) by {
                if has_dotdot_segment(self.inner@) {
                    let i = choose|i: int| dotdot_segment_at(self.inner@, i);
                    assert(valid_name_char(self.inner@[i]));
                }
            }
        }
        let s = self.into_inner();
        match SafeResourcePath::try_from(s) {
            Ok(p) => p,
            Err(_) => {
                // Unreachable: the restricted alphabet holds no dot.
                proof {
                    assert(false);
                }
                SafeResourcePath::from_literal("")
            },
        }
    }
}

/// A validated user name; same restricted alphabet as application names.
#[derive(Debug)]
pub struct Name {
    inner: String,
}

impl View for Name {
    type V = Seq<char>;

    closed spec fn view(&self) -> Seq<char> {
        self.inner@
    }
}

impl Name {
    /// The invariant every value of this type carries.
    #[verifier::type_invariant]
    spec fn wf(self) -> bool {
        valid_name(self.inner@)
    }

    /// Validates an untrusted user name against the restricted alphabet.
    pub fn try_from(value: String) -> (r: Result<Name, InvalidAppName>)
        ensures
            match r {
                Ok(n) => n@ == value@ && valid_name(value@),
                Err(e) => {
                    &&& !valid_name(value@)
                    &&& e.name@ == value@
                    &&& e.pos < value@.len()
                    &&& e.invalid_char == value@[e.pos as int]
                    &&& !valid_name_char(e.invalid_char)
                },
            },
    {
        match find_invalid_char(value.as_str()) {
            Some(pos) => {
                let invalid_char = value.as_str().get_char(pos);
                Err(InvalidAppName { name: value, pos, invalid_char })
            },
            None => Ok(Name { inner: value }),
        }
    }

    /// The validated string, borrowed.
    pub fn as_str(&self) -> (r: &str)
        ensures
            r@ == self@,
    {
        self.inner.as_str()
    }

    /// The validated string itself.
    pub fn into_inner(self) -> (r: String)
        ensures
            r@ == self@,
    {
        self.inner
    }
}

} // verus!
