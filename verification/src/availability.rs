//! The availability gate: every image digest the verified state declares
//! must be present in the local engine store before a session starts.
//!
//! The library decides what to check and what the answers mean; the caller
//! queries the engine (one inspect per digest-pinned reference) and reports
//! back one answer per reference, in order.  This is the seam where an
//! automatic pull would be inserted without touching any caller.
use crate::invoke::image_ref;
use crate::invoke::image_ref_of;
use crate::lockfile::ImageRowV;
use crate::lockfile::LockDoc;
use vstd::prelude::*;

verus! {

/// The digest-pinned references to check, one per declared (image, tag) row,
/// in document order.
pub fn image_refs(doc: &LockDoc) -> (r: Vec<Vec<u8>>)
    ensures
        r@.map_values(|a: Vec<u8>| a@) == doc@.images.map_values(
            |row: ImageRowV| image_ref_of(row.name, row.digest),
        ),
{
    let mut r: Vec<Vec<u8>> = Vec::new();
    let mut i: usize = 0;
    while i < doc.images.len()
        invariant
            i <= doc.images@.len(),
            r@.len() == i,
            forall|j: int|
                0 <= j < i ==> r@[j]@ == image_ref_of(
                    doc.images@[j]@.name,
                    doc.images@[j]@.digest,
                ),
        decreases doc.images@.len() - i,
    {
        let row = &doc.images[i];
        r.push(image_ref(&row.name, &row.digest));
        i += 1;
    }
    proof {
        assert(r@.map_values(|a: Vec<u8>| a@) =~= doc@.images.map_values(
            |row: ImageRowV| image_ref_of(row.name, row.digest),
        ));
    }
    r
}

/// Reduce the engine's answers, one per reference in order, to what the
/// session start needs: the index of the first reference that is absent, or
/// nothing when every one is present.
pub fn first_missing(present: &Vec<bool>) -> (r: Option<usize>)
    ensures
        match r {
            Some(i) => 0 <= i < present@.len() && !present@[i as int] && (forall|j: int|
                0 <= j < i ==> present@[j]),
            None => forall|j: int| 0 <= j < present@.len() ==> present@[j],
        },
{
    let mut i: usize = 0;
    while i < present.len()
        invariant
            i <= present@.len(),
            forall|j: int| 0 <= j < i ==> present@[j],
        decreases present@.len() - i,
    {
        if !present[i] {
            return Some(i);
        }
        i += 1;
    }
    None
}

} // verus!
