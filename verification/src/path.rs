//! Safe Path Resolver: filesystem-relative path strings validated to hold no
//! `..` traversal segment, and the prefixing operation that keeps them safe.

use vstd::prelude::*;
use vstd::string::StrSliceExecFns;
use vstd::string::StringExecFns;
use crate::text::{starts_with, ends_with, matches_at, has_substring};

verus! {

/// A `..` path segment occupies positions `i` and `i + 1` of `s`: the two
/// dots stand between segment boundaries (start of string or a `/` on the
/// left, end of string or a `/` on the right).
pub open spec fn dotdot_segment_at(s: Seq<char>, i: int) -> bool {
    &&& 0 <= i
    &&& i + 2 <= s.len()
    &&& s[i] == '.'
    &&& s[i + 1] == '.'
    &&& (i == 0 || s[i - 1] == '/')
    &&& (i + 2 == s.len() || s[i + 2] == '/')
}

/// `s` holds a `..` traversal segment somewhere.
pub open spec fn has_dotdot_segment(s: Seq<char>) -> bool {
    exists|i: int| dotdot_segment_at(s, i)
}

/// Decides `has_dotdot_segment` by scanning every position.
pub fn is_traversal_free(s: &str) -> (r: bool)
    ensures
        r == !has_dotdot_segment(s@),
{
    let len = s.unicode_len();
    if len < 2 {
        return true;
    }
    let mut i: usize = 0;
    while i <= len - 2
        invariant
            len == s@.len(),
            2 <= len,
            i <= len - 1,
            forall|j: int| 0 <= j < i ==> !dotdot_segment_at(s@, j),
        decreases len - i,
    {
        if s.get_char(i) == '.' && s.get_char(i + 1) == '.' && (i == 0 || s.get_char(i - 1)
            == '/') && (i + 2 == len || s.get_char(i + 2) == '/') {
            assert(dotdot_segment_at(s@, i as int));
            return false;
        }
        i += 1;
    }
    true
}

/// A traversal segment exists exactly when one of the four textual patterns
/// does: a leading `../`, a trailing `/..`, an embedded `/../`, or the whole
/// string being `..`.
pub proof fn lemma_traversal_patterns(s: Seq<char>)
    ensures
        has_dotdot_segment(s) <==> {
            ||| starts_with(s, seq!['.', '.', '/'])
            ||| ends_with(s, seq!['/', '.', '.'])
            ||| has_substring(s, seq!['/', '.', '.', '/'])
            ||| s =~= seq!['.', '.']
        },
{
    if has_dotdot_segment(s) {
        let i = choose|i: int| dotdot_segment_at(s, i);
        if i == 0 && i + 2 == s.len() {
            assert(s =~= seq!['.', '.']);
        } else if i == 0 {
            assert(s.subrange(0, 3) =~= seq!['.', '.', '/']);
            assert(starts_with(s, seq!['.', '.', '/']));
        } else if i + 2 == s.len() {
            assert(s.subrange(s.len() - 3, s.len() as int) =~= seq!['/', '.', '.']);
            assert(ends_with(s, seq!['/', '.', '.']));
        } else {
            assert(s.subrange(i - 1, i + 3) =~= seq!['/', '.', '.', '/']);
            assert(matches_at(s, i - 1, seq!['/', '.', '.', '/']));
        }
    }
    if starts_with(s, seq!['.', '.', '/']) {
        assert(s[0] == s.subrange(0, 3)[0]);
        assert(s[1] == s.subrange(0, 3)[1]);
        assert(s[2] == s.subrange(0, 3)[2]);
        assert(dotdot_segment_at(s, 0));
    }
    if ends_with(s, seq!['/', '.', '.']) {
        let b = s.len() - 3;
        assert(s[b] == s.subrange(b, s.len() as int)[0]);
        assert(s[b + 1] == s.subrange(b, s.len() as int)[1]);
        assert(s[b + 2] == s.subrange(b, s.len() as int)[2]);
        assert(dotdot_segment_at(s, b + 1));
    }
    if has_substring(s, seq!['/', '.', '.', '/']) {
        let k = choose|k: int| matches_at(s, k, seq!['/', '.', '.', '/']);
        assert(s[k] == s.subrange(k, k + 4)[0]);
        assert(s[k + 1] == s.subrange(k, k + 4)[1]);
        assert(s[k + 2] == s.subrange(k, k + 4)[2]);
        assert(s[k + 3] == s.subrange(k, k + 4)[3]);
        assert(dotdot_segment_at(s, k + 1));
    }
    if s =~= seq!['.', '.'] {
        assert(dotdot_segment_at(s, 0));
    }
}

/// Prefixing a traversal-free path with a traversal-free root and a `/`
/// separator yields a traversal-free path: the separator breaks any new
/// adjacency, so every `..` segment of the result would lie wholly in the
/// root or wholly in the path.
pub proof fn lemma_prefix_preserves_safety(root: Seq<char>, path: Seq<char>)
    requires
        !has_dotdot_segment(root),
        !has_dotdot_segment(path),
    ensures
        !has_dotdot_segment(root + seq!['/'] + path),
{
    let cat = root + seq!['/'] + path;
    let rl = root.len() as int;
    assert(cat[rl] == '/');
    assert forall|i: int| !dotdot_segment_at(cat, i) by {
        if dotdot_segment_at(cat, i) {
            if i + 1 < rl {
                assert(cat[i] == root[i]);
                assert(cat[i + 1] == root[i + 1]);
                assert(i == 0 || cat[i - 1] == root[i - 1]);
                if i + 2 < rl {
                    assert(cat[i + 2] == root[i + 2]);
                }
                assert(dotdot_segment_at(root, i));
            } else if i > rl {
                let j = i - rl - 1;
                assert(cat[i] == path[j]);
                assert(cat[i + 1] == path[j + 1]);
                if i - 1 > rl {
                    assert(cat[i - 1] == path[j - 1]);
                }
                if i + 2 < cat.len() {
                    assert(cat[i + 2] == path[j + 2]);
                }
                assert(dotdot_segment_at(path, j));
            } else {
                // `i` or `i + 1` is the separator position, which holds `/`,
                // never `.`.
                assert(cat[i] == '.' && cat[i + 1] == '.');
                assert(false);
            }
        }
    }
}

/// Signals that a string was rejected for holding a `..` traversal segment.
#[derive(Debug)]
pub struct DirectoryTraversalError;

impl DirectoryTraversalError {
    /// Human-readable description of the rejection.
    pub fn message(&self) -> (r: &'static str)
        ensures
            r@ == "directory traversal is not allowed"@,
    {
        "directory traversal is not allowed"
    }
}

/// A string guaranteed by construction to hold no `..` traversal segment.
#[derive(Debug)]
pub struct SafeResourcePath {
    inner: String,
}

impl View for SafeResourcePath {
    type V = Seq<char>;

    closed spec fn view(&self) -> Seq<char> {
        self.inner@
    }
}

impl SafeResourcePath {
    /// The invariant every value of this type carries.
    #[verifier::type_invariant]
    spec fn wf(self) -> bool {
        !has_dotdot_segment(self.inner@)
    }

    /// Validates an untrusted string: accepted unchanged exactly when it
    /// holds no `..` traversal segment.
    pub fn try_from(value: String) -> (r: Result<SafeResourcePath, DirectoryTraversalError>)
        ensures
            match r {
                Ok(p) => p@ == value@ && !has_dotdot_segment(value@),
                Err(_) => has_dotdot_segment(value@),
            },
    {
        if is_traversal_free(value.as_str()) {
            Ok(SafeResourcePath { inner: value })
        } else {
            Err(DirectoryTraversalError)
        }
    }

    /// Wraps a trusted literal; the caller vouches that it is traversal-free.
    pub fn from_literal(value: &'static str) -> (r: SafeResourcePath)
        requires
            !has_dotdot_segment(value@),
        ensures
            r@ == value@,
    {
        SafeResourcePath { inner: String::from_str(value) }
    }

    /// Concatenates `root + "/" + self`.  The result is traversal-free
    /// provided the trusted root is.
    pub fn prefix(&self, root: &str) -> (r: SafeResourcePath)
        requires
            !has_dotdot_segment(root@),
        ensures
            r@ == root@ + seq!['/'] + self@,
            !has_dotdot_segment(r@),
    {
        proof {
            use_type_invariant(self);
            lemma_prefix_preserves_safety(root@, self.inner@);
            reveal_strlit("/");
        }
        let mut out = String::from_str(root);
        out.append("/");
        out.append(self.inner.as_str());
        proof {
            assert("/"@ =~= seq!['/']);
            assert(out@ =~= root@ + seq!['/'] + self@);
        }
        SafeResourcePath { inner: out }
    }

    /// The validated string itself.
    pub fn as_str(&self) -> (r: &str)
        ensures
            r@ == self@,
    {
        self.inner.as_str()
    }
}

} // verus!
