//! Character-sequence utilities shared by the validators and builders:
//! substring predicates with executable checks, and owned-string helpers.

use vstd::prelude::*;
use vstd::string::StrSliceExecFns;
use vstd::string::StringExecFns;

verus! {

/// `s` begins with the pattern `p`.
pub open spec fn starts_with(s: Seq<char>, p: Seq<char>) -> bool {
    p.len() <= s.len() && s.subrange(0, p.len() as int) == p
}

/// `s` ends with the pattern `p`.
pub open spec fn ends_with(s: Seq<char>, p: Seq<char>) -> bool {
    p.len() <= s.len() && s.subrange(s.len() - p.len(), s.len() as int) == p
}

/// The pattern `p` occurs in `s` at position `i`.
pub open spec fn matches_at(s: Seq<char>, i: int, p: Seq<char>) -> bool {
    0 <= i && i + p.len() <= s.len() && s.subrange(i, i + p.len()) == p
}

/// The pattern `p` occurs somewhere in `s`.
pub open spec fn has_substring(s: Seq<char>, p: Seq<char>) -> bool {
    exists|i: int| matches_at(s, i, p)
}

/// String equality, decided character by character.
pub fn str_eq(a: &str, b: &str) -> (r: bool)
    ensures
        r == (a@ == b@),
{
    let alen = a.unicode_len();
    let blen = b.unicode_len();
    if alen != blen {
        return false;
    }
    let mut i: usize = 0;
    while i < alen
        invariant
            alen == a@.len(),
            alen == b@.len(),
            i <= alen,
            forall|j: int| 0 <= j < i ==> a@[j] == b@[j],
        decreases alen - i,
    {
        if a.get_char(i) != b.get_char(i) {
            return false;
        }
        i += 1;
    }
    proof {
        assert(a@ =~= b@);
    }
    true
}

/// Whether `p` occurs in `s` at position `i`, decided character by character.
pub fn check_match_at(s: &str, i: usize, p: &str) -> (r: bool)
    requires
        i + p@.len() <= s@.len(),
    ensures
        r == matches_at(s@, i as int, p@),
{
    let slen = s.unicode_len();
    let plen = p.unicode_len();
    let mut j: usize = 0;
    while j < plen
        invariant
            slen == s@.len(),
            plen == p@.len(),
            i + plen <= slen,
            j <= plen,
            forall|k: int| 0 <= k < j ==> s@[i + k] == p@[k],
        decreases plen - j,
    {
        if s.get_char(i + j) != p.get_char(j) {
            proof {
                assert(!matches_at(s@, i as int, p@)) by {
                    if matches_at(s@, i as int, p@) {
                        assert(s@.subrange(i as int, i + p@.len())[j as int] == p@[j as int]);
                    }
                }
            }
            return false;
        }
        j += 1;
    }
    proof {
        assert(s@.subrange(i as int, i + p@.len()) =~= p@);
    }
    true
}

/// Position of the first occurrence of the character `c` in `s` at or after
/// position `from`, if any.
pub fn find_char_from(s: &str, c: char, from: usize) -> (r: Option<usize>)
    ensures
        match r {
            Some(i) => from <= i < s@.len() && s@[i as int] == c && forall|k: int|
                from <= k < i ==> s@[k] != c,
            None => forall|k: int| from <= k < s@.len() ==> s@[k] != c,
        },
{
    let slen = s.unicode_len();
    let mut i: usize = from;
    while i < slen
        invariant
            slen == s@.len(),
            from <= i,
            forall|k: int| from <= k < i ==> s@[k] != c,
        decreases slen - i,
    {
        if s.get_char(i) == c {
            return Some(i);
        }
        i += 1;
    }
    None
}

/// Position of the last occurrence of the character `c` in `s`, if any.
pub fn rfind_char(s: &str, c: char) -> (r: Option<usize>)
    ensures
        match r {
            Some(i) => i < s@.len() && s@[i as int] == c && forall|k: int|
                i < k < s@.len() ==> s@[k] != c,
            None => forall|k: int| 0 <= k < s@.len() ==> s@[k] != c,
        },
{
    let slen = s.unicode_len();
    let mut i: usize = slen;
    while i > 0
        invariant
            slen == s@.len(),
            i <= slen,
            forall|k: int| i <= k < slen ==> s@[k] != c,
        decreases i,
    {
        i -= 1;
        if s.get_char(i) == c {
            return Some(i);
        }
    }
    None
}

/// The concatenation of `a` and `b` as an owned string.
pub fn concat2(a: &str, b: &str) -> (r: String)
    ensures
        r@ == a@ + b@,
{
    let mut out = String::from_str(a);
    out.append(b);
    out
}

/// ASCII whitespace.
pub open spec fn is_space(c: char) -> bool {
    c == ' ' || c == '\t' || c == '\n' || c == '\r'
}

/// `s` with leading and trailing ASCII whitespace removed.
pub open spec fn trimmed(s: Seq<char>) -> Seq<char>
    decreases s.len(),
{
    if s.len() > 0 && is_space(s[0]) {
        trimmed(s.drop_first())
    } else if s.len() > 0 && is_space(s.last()) {
        trimmed(s.drop_last())
    } else {
        s
    }
}

/// The subrange that keeps exactly the characters between the whitespace
/// margins is the trimmed sequence.
proof fn lemma_trimmed_subrange(s: Seq<char>, a: int, b: int)
    requires
        0 <= a <= b <= s.len(),
        forall|k: int| 0 <= k < a ==> is_space(s[k]),
        forall|k: int| b <= k < s.len() ==> is_space(s[k]),
        a < b ==> !is_space(s[a]) && !is_space(s[b - 1]),
    ensures
        trimmed(s) == s.subrange(a, b),
    decreases s.len(),
{
    if s.len() > 0 && is_space(s[0]) {
        let t = s.drop_first();
        if a == b {
            assert(forall|k: int| 0 <= k < t.len() ==> is_space(t[k]));
            lemma_trimmed_subrange(t, 0, 0);
            assert(s.subrange(a, b) =~= t.subrange(0, 0));
        } else {
            assert(a >= 1);
            lemma_trimmed_subrange(t, a - 1, b - 1);
            assert(s.subrange(a, b) =~= t.subrange(a - 1, b - 1));
        }
    } else if s.len() > 0 && is_space(s.last()) {
        let t = s.drop_last();
        assert(a < b);
        assert(b <= s.len() - 1);
        lemma_trimmed_subrange(t, a, b);
        assert(s.subrange(a, b) =~= t.subrange(a, b));
    } else {
        if a == b {
            assert(s.len() == 0);
            assert(s.subrange(a, b) =~= s);
        } else {
            assert(a == 0);
            assert(b == s.len());
            assert(s.subrange(a, b) =~= s);
        }
    }
}

/// `s` with leading and trailing ASCII whitespace removed.
pub fn trim(s: &str) -> (r: String)
    ensures
        r@ == trimmed(s@),
{
    let len = s.unicode_len();
    let mut a: usize = 0;
    loop
        invariant
            len == s@.len(),
            a <= len,
            forall|k: int| 0 <= k < a ==> is_space(s@[k]),
        ensures
            a <= len,
            forall|k: int| 0 <= k < a ==> is_space(s@[k]),
            a == len || !is_space(s@[a as int]),
        decreases len - a,
    {
        if a == len {
            break ;
        }
        let c = s.get_char(a);
        if !(c == ' ' || c == '\t' || c == '\n' || c == '\r') {
            break ;
        }
        a += 1;
    }
    if a == len {
        proof {
            lemma_trimmed_subrange(s@, 0, 0);
            assert(s@.subrange(0, 0) =~= Seq::<char>::empty());
        }
        return String::new();
    }
    let mut b: usize = len;
    loop
        invariant
            len == s@.len(),
            a < len,
            !is_space(s@[a as int]),
            a < b <= len,
            forall|k: int| b <= k < len ==> is_space(s@[k]),
        ensures
            a < b <= len,
            forall|k: int| b <= k < len ==> is_space(s@[k]),
            !is_space(s@[b - 1]),
        decreases b,
    {
        let c = s.get_char(b - 1);
        if !(c == ' ' || c == '\t' || c == '\n' || c == '\r') {
            break ;
        }
        b -= 1;
    }
    proof {
        lemma_trimmed_subrange(s@, a as int, b as int);
    }
    String::from_str(s.substring_char(a, b))
}

/// `s` with every newline character removed.
pub open spec fn without_newlines(s: Seq<char>) -> Seq<char>
    decreases s.len(),
{
    if s.len() == 0 {
        Seq::empty()
    } else if s.last() == '\n' {
        without_newlines(s.drop_last())
    } else {
        without_newlines(s.drop_last()).push(s.last())
    }
}

/// `s` with every newline character removed.
pub fn strip_newlines(s: &str) -> (r: String)
    ensures
        r@ == without_newlines(s@),
{
    let len = s.unicode_len();
    let mut out = String::new();
    let mut i: usize = 0;
    while i < len
        invariant
            len == s@.len(),
            i <= len,
            out@ == without_newlines(s@.subrange(0, i as int)),
        decreases len - i,
    {
        let c = s.get_char(i);
        if c != '\n' {
            out.append(s.substring_char(i, i + 1));
        }
        proof {
            let pre = s@.subrange(0, i + 1);
            assert(pre.drop_last() =~= s@.subrange(0, i as int));
            assert(pre.last() == s@[i as int]);
            if c != '\n' {
                assert(s@.subrange(i as int, i + 1) =~= seq![s@[i as int]]);
                assert(out@ =~= without_newlines(pre));
            }
        }
        i += 1;
    }
    proof {
        assert(s@.subrange(0, len as int) =~= s@);
    }
    out
}

} // verus!
