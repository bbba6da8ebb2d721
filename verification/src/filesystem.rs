//! Extraction of a date candidate from the host filesystem's attributes.
//!
//! The caller queries the platform for the creation, modification and access
//! instants of the file and hands them over already converted to whole
//! seconds since the Unix epoch, with `None` for an attribute the platform
//! does not support.  The first available attribute, in that fixed order,
//! becomes the candidate.

use vstd::prelude::*;

use crate::candidate::Candidate;
use crate::candidate::SYS_ACCESSED;
use crate::candidate::SYS_CREATED;
use crate::candidate::SYS_MODIFIED;

verus! {

/// The filesystem instants of one file, in whole seconds since the Unix
/// epoch; `None` where the platform does not report the attribute.
#[derive(Clone, Copy, PartialEq, Eq, Debug)]
pub struct FsTimes {
    pub created: Option<u64>,
    pub modified: Option<u64>,
    pub accessed: Option<u64>,
}

/// The candidate the filesystem attributes yield: the first available
/// instant in the order creation, modification, access, under its rank.
pub open spec fn spec_fs_candidate(f: FsTimes) -> Option<Candidate> {
    if f.created is Some {
        Some(Candidate { rank: SYS_CREATED, instant: f.created->Some_0 })
    } else if f.modified is Some {
        Some(Candidate { rank: SYS_MODIFIED, instant: f.modified->Some_0 })
    } else if f.accessed is Some {
        Some(Candidate { rank: SYS_ACCESSED, instant: f.accessed->Some_0 })
    } else {
        None
    }
}

/// Probes the filesystem attributes in priority order and emits a candidate
/// for the first one available, or nothing when the platform reported none.
pub fn get_filesystem_dates(times: &FsTimes) -> (r: Option<Candidate>)
    ensures
        r == spec_fs_candidate(*times),
        r matches Some(c) ==> c.valid(),
{
    if let Some(t) = times.created {
        return Some(Candidate { rank: SYS_CREATED, instant: t });
    }
    if let Some(t) = times.modified {
        return Some(Candidate { rank: SYS_MODIFIED, instant: t });
    }
    if let Some(t) = times.accessed {
        return Some(Candidate { rank: SYS_ACCESSED, instant: t });
    }
    None
}

} // verus!
