//! Small string helpers shared by the parsing and encoding code: locating
//! the `':'` delimiters of a canonical team login, exact string comparison,
//! and cloning of optional strings.

use vstd::prelude::*;
use vstd::string::*;

verus! {

/// Index of the first `':'` in `s` at or after `from`, or `s.len()` when no
/// such character exists.
pub open spec fn first_colon(s: Seq<char>, from: int) -> int
    decreases s.len() - from,
{
    if from < 0 || from >= s.len() {
        s.len() as int
    } else if s[from] == ':' {
        from
    } else {
        first_colon(s, from + 1)
    }
}

/// `first_colon` stays within `[from, s.len()]`, points at a `':'` when it is
/// in range, and nothing before it (from `from` on) is a `':'`.
pub proof fn lemma_first_colon_bounds(s: Seq<char>, from: int)
    requires
        0 <= from <= s.len(),
    ensures
        from <= first_colon(s, from) <= s.len(),
        first_colon(s, from) < s.len() ==> s[first_colon(s, from)] == ':',
        forall|j: int| from <= j < first_colon(s, from) ==> s[j] != ':',
    decreases s.len() - from,
{
    if from < s.len() && s[from] != ':' {
        lemma_first_colon_bounds(s, from + 1);
    }
}

/// If some position at or after `from` holds a `':'`, then `first_colon`
/// finds one strictly before `s.len()`.
pub proof fn lemma_first_colon_finds(s: Seq<char>, from: int, i: int)
    requires
        0 <= from <= i < s.len(),
        s[i] == ':',
    ensures
        first_colon(s, from) <= i,
    decreases i - from,
{
    if from < i && s[from] != ':' {
        lemma_first_colon_finds(s, from + 1, i);
    }
}

/// Finds the first `':'` in `s` at or after `from`; returns `s@.len()` when
/// there is none.
pub fn find_colon(s: &str, from: usize) -> (r: usize)
    requires
        from <= s@.len(),
        s@.len() <= usize::MAX,
    ensures
        r == first_colon(s@, from as int),
{
    let len: usize = s.unicode_len();
    let mut i: usize = from;
    while i < len
        invariant
            from <= i <= len,
            len == s@.len(),
            first_colon(s@, from as int) == first_colon(s@, i as int),
        decreases len - i,
    {
        let c = s.get_char(i);
        if c == ':' {
            return i;
        }
        i = i + 1;
    }
    i
}

/// Exact, case-sensitive string equality, stated over the character views.
pub fn str_eq(a: &str, b: &str) -> (r: bool)
    ensures
        r == (a@ == b@),
{
    let alen: usize = a.unicode_len();
    let blen: usize = b.unicode_len();
    if alen != blen {
        assert(a@ != b@) by {
            assert(a@.len() != b@.len());
        }
        return false;
    }
    let mut i: usize = 0;
    while i < alen
        invariant
            0 <= i <= alen,
            alen == a@.len(),
            alen == b@.len(),
            forall|j: int| 0 <= j < i ==> a@[j] == b@[j],
        decreases alen - i,
    {
        if a.get_char(i) != b.get_char(i) {
            assert(a@ != b@);
            return false;
        }
        i = i + 1;
    }
    proof {
        assert(a@ =~= b@);
    }
    true
}

/// Clones an optional string, preserving the value exactly.
pub fn clone_opt_string(o: &Option<String>) -> (r: Option<String>)
    ensures
        r == *o,
{
    match o {
        Option::None => Option::None,
        Option::Some(s) => Option::Some(s.clone()),
    }
}

/// Relies on `String::push`: appends exactly the one character `c` to `s`.
#[verifier::external_body]
pub fn push_char(s: &mut String, c: char)
    ensures
        final(s)@ == old(s)@ + seq![c],
{
    s.push(c)
}

} // verus!
