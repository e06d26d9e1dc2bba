//! The ancestry of a path across history. A path that did not exist at a
//! revision asked for gives an empty answer, not an error.

use vstd::prelude::*;
use crate::common::ErrorChain;
use crate::types::{opt_text, Revnum};

verus! {

/// The status code of the failure that says that a path was not found.
pub const STATUS_FS_NOT_FOUND: u32 = 160013;

/// One stretch of revisions over which a path stood at one place.
#[derive(Debug)]
pub struct LocationSegment {
    pub range_start: Revnum,
    pub range_end: Revnum,
    /// The place, or none for a stretch in which the path did not exist.
    pub path: Option<String>,
}

impl LocationSegment {
    /// An independent copy that the receiver may keep.
    pub fn dup(&self) -> (copy: LocationSegment)
        ensures
            copy.range_start == self.range_start,
            copy.range_end == self.range_end,
            opt_text(copy.path) == opt_text(self.path),
    {
        LocationSegment {
            range_start: self.range_start,
            range_end: self.range_end,
            path: match &self.path {
                Some(p) => Some(p.clone()),
                None => None,
            },
        }
    }
}

/// Whether the failure says that the path did not exist.
pub open spec fn says_not_found(error: ErrorChain) -> bool {
    error.status_code == STATUS_FS_NOT_FOUND
}

/// What the caller gets for an answer of the server: the answer itself;
/// nothing where the path did not exist; the failure in every other case.
pub open spec fn or_empty<T>(answer: Result<Vec<T>, ErrorChain>) -> Result<Seq<T>, ErrorChain> {
    match answer {
        Ok(found) => Ok(found@),
        Err(e) => if says_not_found(e) {
            Ok(Seq::empty())
        } else {
            Err(e)
        },
    }
}

/// The places of a path at the revisions asked for, from the answer of the
/// server.
pub fn get_locations(answer: Result<Vec<(Revnum, String)>, ErrorChain>) -> (locations: Result<
    Vec<(Revnum, String)>,
    ErrorChain,
>)
    ensures
        match or_empty(answer) {
            Ok(found) => locations is Ok && locations.unwrap()@ == found && (answer is Ok
                ==> locations == answer),
            Err(e) => locations == Err::<Vec<(Revnum, String)>, ErrorChain>(e),
        },
{
    match answer {
        Ok(found) => Ok(found),
        Err(e) => {
            if e.status_code == STATUS_FS_NOT_FOUND {
                Ok(Vec::new())
            } else {
                Err(e)
            }
        },
    }
}

/// The stretches of the history of a path, from the answer of the server.
pub fn get_location_segments(answer: Result<Vec<LocationSegment>, ErrorChain>) -> (segments: Result<
    Vec<LocationSegment>,
    ErrorChain,
>)
    ensures
        match or_empty(answer) {
            Ok(found) => segments is Ok && segments.unwrap()@ == found && (answer is Ok
                ==> segments == answer),
            Err(e) => segments == Err::<Vec<LocationSegment>, ErrorChain>(e),
        },
{
    match answer {
        Ok(found) => Ok(found),
        Err(e) => {
            if e.status_code == STATUS_FS_NOT_FOUND {
                Ok(Vec::new())
            } else {
                Err(e)
            }
        },
    }
}

} // verus!
