use vstd::prelude::*;

verus! {

/// Pads a supplied list of up to three output directories with the
/// current working directory until exactly three entries exist. The
/// order of the supplied entries is preserved: the resulting triple is
/// read as (normal-dir, early-dir, late-dir).
pub fn resolve_directories(dirs: Vec<String>, cwd: String) -> (r: Vec<String>)
    requires
        dirs@.len() <= 3,
    ensures
        r@.len() == 3,
        forall|i: int| 0 <= i < dirs@.len() ==> r@[i] == dirs@[i],
        forall|i: int| dirs@.len() <= i < 3 ==> r@[i] == cwd,
{
    let ghost supplied = dirs@;
    let mut r = dirs;
    while r.len() < 3
        invariant
            supplied.len() <= r@.len() <= 3,
            forall|i: int| 0 <= i < supplied.len() ==> r@[i] == supplied[i],
            forall|i: int| supplied.len() <= i < r@.len() ==> r@[i] == cwd,
        decreases 3 - r@.len(),
    {
        r.push(cwd.clone());
    }
    r
}

/// Finds the first of the resolved directories that does not exist,
/// given one existence flag per directory, in order. A `Some` result is
/// the index of the first missing directory, a fatal condition for the
/// caller; `None` means every directory exists and synthesis may
/// proceed.
pub fn first_missing(exists: &Vec<bool>) -> (r: Option<usize>)
    ensures
        match r {
            Some(i) => i < exists@.len() && !exists@[i as int] && forall|j: int|
                0 <= j < i ==> exists@[j],
            None => forall|j: int| 0 <= j < exists@.len() ==> exists@[j],
        },
{
    let mut i: usize = 0;
    while i < exists.len()
        invariant
            i <= exists@.len(),
            forall|j: int| 0 <= j < i ==> exists@[j],
        decreases exists@.len() - i,
    {
        if !exists[i] {
            return Some(i);
        }
        i = i + 1;
    }
    None
}

/// Accepts the normal output directory. No property of the path is
/// currently checked; the function exists as the hook where such a
/// check would live.
pub fn check_normal_dir(normal_dir: String) -> (r: bool)
    ensures
        r,
{
    let _ = normal_dir;
    true
}

} // verus!
