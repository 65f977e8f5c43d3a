//! Character-level helpers over `str`, stated over `Seq<char>`.
use vstd::prelude::*;
use vstd::string::*;

verus! {

/// `p` occurs in `s` starting at position `i`.
pub open spec fn occurs_at(s: Seq<char>, p: Seq<char>, i: int) -> bool {
    0 <= i && i + p.len() <= s.len() && s.subrange(i, i + p.len()) == p
}

/// The greatest position below `n` at which `p` occurs in `s`, if any.
pub open spec fn last_occurrence_below(s: Seq<char>, p: Seq<char>, n: nat) -> Option<int>
    decreases n,
{
    if n == 0 {
        None
    } else if occurs_at(s, p, n - 1) {
        Some(n - 1)
    } else {
        last_occurrence_below(s, p, (n - 1) as nat)
    }
}

/// The last position at which `p` occurs in `s`, if any.
pub open spec fn last_occurrence(s: Seq<char>, p: Seq<char>) -> Option<int> {
    last_occurrence_below(s, p, s.len())
}

/// Where no position in `[k, n)` holds `p`, the search below `n` finds what
/// the search below `k` finds.
pub proof fn lemma_last_occurrence_skips(s: Seq<char>, p: Seq<char>, k: nat, n: nat)
    requires
        k <= n,
        forall|q: int| k <= q < n ==> !occurs_at(s, p, q),
    ensures
        last_occurrence_below(s, p, n) == last_occurrence_below(s, p, k),
    decreases n,
{
    if n > k {
        lemma_last_occurrence_skips(s, p, k, (n - 1) as nat);
    }
}

/// A found position is an occurrence below the bound.
pub proof fn lemma_last_occurrence_found(s: Seq<char>, p: Seq<char>, n: nat)
    ensures
        last_occurrence_below(s, p, n) matches Some(i) ==> occurs_at(s, p, i) && i < n,
        last_occurrence_below(s, p, n) is None ==> forall|q: int| 0 <= q < n ==> !occurs_at(s, p, q),
    decreases n,
{
    if n > 0 {
        lemma_last_occurrence_found(s, p, (n - 1) as nat);
    }
}

/// The characters of `s`, one by one.
pub fn chars_of(s: &str) -> (r: Vec<char>)
    ensures
        r@ == s@,
{
    let n = s.unicode_len();
    let mut r: Vec<char> = Vec::new();
    let mut i: usize = 0;
    while i < n
        invariant
            n == s@.len(),
            i <= n,
            r@ == s@.subrange(0, i as int),
        decreases n - i,
    {
        r.push(s.get_char(i));
        i += 1;
    }
    assert(r@ =~= s@);
    r
}

/// Whether `p` occurs in `s` at position `i`.
pub fn occurs_at_exec(s: &Vec<char>, p: &Vec<char>, i: usize) -> (r: bool)
    ensures
        r == occurs_at(s@, p@, i as int),
{
    if i > s.len() || p.len() > s.len() - i {
        return false;
    }
    let mut j: usize = 0;
    while j < p.len()
        invariant
            i + p@.len() <= s@.len(),
            s@.len() <= usize::MAX,
            j <= p@.len(),
            forall|k: int| 0 <= k < j ==> s@[i + k] == p@[k],
        decreases p@.len() - j,
    {
        if s[i + j] != p[j] {
            assert(s@.subrange(i as int, i + p@.len())[j as int] != p@[j as int]);
            return false;
        }
        j += 1;
    }
    assert(s@.subrange(i as int, i + p@.len()) =~= p@);
    true
}

/// The last position at which `p` occurs in `s`.
pub fn last_occurrence_exec(s: &Vec<char>, p: &Vec<char>) -> (r: Option<usize>)
    ensures
        match r {
            Some(i) => last_occurrence(s@, p@) == Some(i as int),
            None => last_occurrence(s@, p@) is None,
        },
{
    let mut i: usize = s.len();
    while i > 0
        invariant
            i <= s@.len(),
            last_occurrence(s@, p@) == last_occurrence_below(s@, p@, i as nat),
        decreases i,
    {
        if occurs_at_exec(s, p, i - 1) {
            return Some(i - 1);
        }
        i -= 1;
    }
    None
}

/// Whether two texts are equal.
pub fn same_text(a: &str, b: &str) -> (r: bool)
    ensures
        r == (a@ == b@),
{
    let x = String::from_str(a);
    let y = String::from_str(b);
    x.eq(&y)
}

} // verus!
