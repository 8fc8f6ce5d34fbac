//! Choosing where the zone dataset is read from.
use vstd::prelude::*;

verus! {

/// The first of the candidate paths that was found on disk: `exists[i]` tells
/// whether `paths[i]` exists. `None` when none of them does.
pub fn first_existing_path(paths: &[&str], exists: &[bool]) -> (r: Option<String>)
    requires
        paths@.len() == exists@.len(),
    ensures
        r matches None ==> forall|i: int| 0 <= i < exists@.len() ==> !exists@[i],
        r matches Some(s) ==> exists|i: int|
            0 <= i < exists@.len() && exists@[i] && s@ == paths@[i]@ && (forall|j: int|
                0 <= j < i ==> !exists@[j]),
{
    let mut i: usize = 0;
    while i < paths.len()
        invariant
            paths@.len() == exists@.len(),
            i <= paths@.len(),
            forall|j: int| 0 <= j < i ==> !exists@[j],
        decreases paths@.len() - i,
    {
        if exists[i] {
            return Some(String::from_str(paths[i]));
        }
        i = i + 1;
    }
    None
}

} // verus!
