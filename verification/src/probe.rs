//! Picking the first of several inspected paths that is a directory.

use crate::host::Inspection;
use vstd::prelude::*;

verus! {

/// Whether an inspection shows an existing directory.
pub open spec fn is_directory(seen: Inspection) -> bool {
    seen.exists && seen.is_dir
}

/// The least index at or after `from`, below `limit`, whose inspection
/// shows a directory.
pub open spec fn first_directory_from(seen: Seq<Inspection>, limit: int, from: int) -> Option<
    int,
>
    decreases limit - from,
{
    if from >= limit || from >= seen.len() || from < 0 {
        None
    } else if is_directory(seen[from]) {
        Some(from)
    } else {
        first_directory_from(seen, limit, from + 1)
    }
}

/// The least index below `limit` whose inspection shows a directory.
pub open spec fn first_directory(seen: Seq<Inspection>, limit: int) -> Option<int> {
    first_directory_from(seen, limit, 0)
}

proof fn lemma_first_directory_from(seen: Seq<Inspection>, limit: int, from: int)
    requires
        0 <= from,
    ensures
        match first_directory_from(seen, limit, from) {
            Some(i) => {
                &&& from <= i < limit
                &&& i < seen.len()
                &&& is_directory(seen[i])
                &&& forall|j: int| from <= j < i ==> !is_directory(#[trigger] seen[j])
            },
            None => forall|j: int|
                from <= j < limit && j < seen.len() ==> !is_directory(#[trigger] seen[j]),
        },
    decreases limit - from,
{
    if from >= limit || from >= seen.len() {
    } else if is_directory(seen[from]) {
    } else {
        lemma_first_directory_from(seen, limit, from + 1);
    }
}

/// First match wins: `first_directory` is the least index below `limit`
/// whose inspection shows a directory, and is absent only when no index
/// below `limit` has one.
pub proof fn lemma_first_directory(seen: Seq<Inspection>, limit: int)
    ensures
        match first_directory(seen, limit) {
            Some(i) => {
                &&& 0 <= i < limit
                &&& i < seen.len()
                &&& is_directory(seen[i])
                &&& forall|j: int| 0 <= j < i ==> !is_directory(#[trigger] seen[j])
            },
            None => forall|j: int|
                0 <= j < limit && j < seen.len() ==> !is_directory(#[trigger] seen[j]),
        },
{
    lemma_first_directory_from(seen, limit, 0);
}

/// Finds the first inspection below `limit` that shows a directory.
pub fn find_first_directory(seen: &Vec<Inspection>, limit: usize) -> (found: Option<usize>)
    ensures
        match found {
            Some(i) => first_directory(seen@, limit as int) == Some(i as int),
            None => first_directory(seen@, limit as int) is None,
        },
{
    let mut i: usize = 0;
    while i < limit && i < seen.len()
        invariant
            first_directory(seen@, limit as int) == first_directory_from(
                seen@,
                limit as int,
                i as int,
            ),
        decreases limit - i,
    {
        if seen[i].exists && seen[i].is_dir {
            return Some(i);
        }
        i += 1;
    }
    None
}

} // verus!
