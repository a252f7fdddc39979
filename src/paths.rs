//! Lists of file paths: membership by text, and the distinct non-empty paths
//! of a list.
use vstd::prelude::*;

verus! {

/// Whether `s` holds a path with the text `p`.
pub open spec fn has_path(s: Seq<String>, p: Seq<char>) -> bool {
    exists|i: int| 0 <= i < s.len() && #[trigger] s[i]@ == p
}

/// The non-empty paths of `paths`, each text once, in order of first
/// appearance.
pub open spec fn distinct_paths(paths: Seq<String>) -> Seq<String>
    decreases paths.len(),
{
    if paths.len() == 0 {
        Seq::empty()
    } else {
        let rest = distinct_paths(paths.drop_last());
        let p = paths.last();
        if p@.len() > 0 && !has_path(rest, p@) {
            rest.push(p)
        } else {
            rest
        }
    }
}

/// The paths of `s` whose text `allowed` holds, in order.
pub open spec fn keep_listed(s: Seq<String>, allowed: Seq<String>) -> Seq<String>
    decreases s.len(),
{
    if s.len() == 0 {
        Seq::empty()
    } else {
        let rest = keep_listed(s.drop_last(), allowed);
        if has_path(allowed, s.last()@) {
            rest.push(s.last())
        } else {
            rest
        }
    }
}

/// Tells whether `v` holds a path with the text of `p`.
pub fn contains_path(v: &Vec<String>, p: &String) -> (r: bool)
    ensures
        r == has_path(v@, p@),
{
    let mut i: usize = 0;
    while i < v.len()
        invariant
            i <= v@.len(),
            forall|j: int| 0 <= j < i ==> v@[j]@ != p@,
        decreases v@.len() - i,
    {
        if v[i] == *p {
            assert(v@[i as int]@ == p@);
            return true;
        }
        i = i + 1;
    }
    false
}

/// The distinct non-empty paths of `paths`.
pub fn distinct_nonempty(paths: &Vec<String>) -> (r: Vec<String>)
    ensures
        r@ == distinct_paths(paths@),
{
    let mut r: Vec<String> = Vec::new();
    let mut i: usize = 0;
    while i < paths.len()
        invariant
            i <= paths@.len(),
            r@ == distinct_paths(paths@.take(i as int)),
        decreases paths@.len() - i,
    {
        proof {
            assert(paths@.take(i + 1).drop_last() =~= paths@.take(i as int));
        }
        if !paths[i].as_str().is_empty() && !contains_path(&r, &paths[i]) {
            r.push(paths[i].clone());
        }
        i = i + 1;
    }
    assert(paths@.take(paths@.len() as int) =~= paths@);
    r
}

/// The paths of `s` whose text `allowed` holds.
pub fn retain_listed(s: &Vec<String>, allowed: &Vec<String>) -> (r: Vec<String>)
    ensures
        r@ == keep_listed(s@, allowed@),
{
    let mut r: Vec<String> = Vec::new();
    let mut i: usize = 0;
    while i < s.len()
        invariant
            i <= s@.len(),
            r@ == keep_listed(s@.take(i as int), allowed@),
        decreases s@.len() - i,
    {
        proof {
            assert(s@.take(i + 1).drop_last() =~= s@.take(i as int));
        }
        if contains_path(allowed, &s[i]) {
            r.push(s[i].clone());
        }
        i = i + 1;
    }
    assert(s@.take(s@.len() as int) =~= s@);
    r
}

} // verus!
