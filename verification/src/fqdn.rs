//! Selection rules of the fully-qualified-hostname heuristic.
//!
//! The surrounding process gathers candidate names by reverse-resolving the
//! host's forward-resolved addresses; this module holds the verified choice
//! among them: the first name containing a dot counts as qualified and wins;
//! failing that, the last candidate is kept as an unqualified fallback; an
//! empty candidate list yields nothing.  It also derives the host's short
//! name, the part of a name before its first dot.

use vstd::prelude::*;
use vstd::string::*;

verus! {

/// Whether a name contains a dot, i.e. "looks qualified".
pub open spec fn has_dot(s: Seq<char>) -> bool {
    exists|i: int| 0 <= i < s.len() && s[i] == '.'
}

/// Decide whether a candidate name looks fully qualified (contains a dot).
pub fn is_qualified_name(name: &str) -> (r: bool)
    ensures
        r == has_dot(name@),
{
    let n = name.unicode_len();
    let mut i: usize = 0;
    while i < n
        invariant
            n == name@.len(),
            0 <= i <= n,
            forall|j: int| 0 <= j < i ==> name@[j] != '.',
        decreases n - i,
    {
        if name.get_char(i) == '.' {
            return true;
        }
        i = i + 1;
    }
    false
}

/// Outcome of the hostname-qualification heuristic: a name containing a dot,
/// a plain name kept as a fallback, or no candidate at all.
#[derive(Debug)]
pub enum FqdnLookup {
    Qualified(String),
    Unqualified(String),
    NothingFound,
}

/// Choose among the reverse-resolved candidate names: the first qualified
/// name if any, else the last candidate, else nothing.
pub fn select_fqdn(candidates: &Vec<String>) -> (r: FqdnLookup)
    ensures
        (r is NothingFound) <==> candidates@.len() == 0,
        (r is Qualified) <==> exists|i: int|
            0 <= i < candidates@.len() && has_dot(candidates@[i]@),
        (match r {
            FqdnLookup::Qualified(name) => exists|i: int|
                0 <= i < candidates@.len() && name@ == candidates@[i]@ && has_dot(candidates@[i]@)
                    && (forall|j: int| 0 <= j < i ==> !has_dot(candidates@[j]@)),
            FqdnLookup::Unqualified(name) => candidates@.len() > 0 && name@ == candidates@.last()@
                && (forall|i: int| 0 <= i < candidates@.len() ==> !has_dot(candidates@[i]@)),
            FqdnLookup::NothingFound => candidates@.len() == 0,
        }),
{
    let n = candidates.len();
    let mut i: usize = 0;
    while i < n
        invariant
            n == candidates@.len(),
            0 <= i <= n,
            forall|j: int| 0 <= j < i ==> !has_dot(candidates@[j]@),
        decreases n - i,
    {
        if is_qualified_name(candidates[i].as_str()) {
            return FqdnLookup::Qualified(candidates[i].clone());
        }
        i = i + 1;
    }
    if n > 0 {
        FqdnLookup::Unqualified(candidates[n - 1].clone())
    } else {
        FqdnLookup::NothingFound
    }
}

/// Length of the prefix of `s` that lies before its first dot (the whole
/// length when `s` has no dot).
pub open spec fn dot_prefix_len(s: Seq<char>) -> int
    decreases s.len(),
{
    if s.len() == 0 {
        0
    } else if s[0] == '.' {
        0
    } else {
        1 + dot_prefix_len(s.drop_first())
    }
}

/// The part of a name before its first dot.
pub open spec fn spec_short_name(s: Seq<char>) -> Seq<char> {
    s.take(dot_prefix_len(s))
}

proof fn lemma_dot_prefix_len_at(s: Seq<char>, i: int)
    requires
        0 <= i <= s.len(),
        forall|j: int| 0 <= j < i ==> s[j] != '.',
        i == s.len() || s[i] == '.',
    ensures
        dot_prefix_len(s) == i,
    decreases s.len(),
{
    if s.len() == 0 {
    } else if i == 0 {
    } else {
        assert(s[0] != '.');
        let t = s.drop_first();
        assert(forall|j: int| 0 <= j < i - 1 ==> t[j] == s[j + 1] && s[j + 1] != '.');
        if i < s.len() {
            assert(t[i - 1] == s[i]);
        }
        lemma_dot_prefix_len_at(t, i - 1);
    }
}

/// The short host name: everything before the first dot of the given name
/// (the whole name when it contains no dot).
pub fn host_short_name(name: &str) -> (r: String)
    ensures
        r@ == spec_short_name(name@),
{
    let n = name.unicode_len();
    let mut i: usize = 0;
    while i < n
        invariant
            n == name@.len(),
            0 <= i <= n,
            forall|j: int| 0 <= j < i ==> name@[j] != '.',
        decreases n - i,
    {
        if name.get_char(i) == '.' {
            proof {
                lemma_dot_prefix_len_at(name@, i as int);
            }
            let r = name.substring_char(0, i);
            proof {
                assert(r@ =~= spec_short_name(name@));
            }
            return r.to_owned();
        }
        i = i + 1;
    }
    proof {
        lemma_dot_prefix_len_at(name@, n as int);
    }
    let r = name.substring_char(0, n);
    proof {
        assert(r@ =~= spec_short_name(name@));
    }
    r.to_owned()
}

} // verus!
