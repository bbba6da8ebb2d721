//! The date resolver: probes the embedded metadata first and, if and only
//! if that yields nothing, the filesystem attributes; then selects the
//! highest-priority candidate, falling back to a documented far-future
//! sentinel when no source yielded anything.

use vstd::prelude::*;
use vstd::string::StringExecFns;

use crate::candidate::Candidate;
use crate::candidate::best_candidate;
use crate::candidate::spec_best;
use crate::embedded::extract_embedded_dates;
use crate::embedded::spec_embedded_of;
use crate::filesystem::FsTimes;
use crate::filesystem::get_filesystem_dates;
use crate::filesystem::spec_fs_candidate;

verus! {

/// Returned when no date evidence exists at all: a fixed far-future
/// timestamp, chosen so downstream consumers can detect and flag it.  Total
/// absence of evidence is a documented outcome, not an error.
pub const UNKNOWN_DATE: u64 = 1936268400;

/// The candidate set one resolution accumulates: the embedded candidate
/// alone where there is one, else the filesystem candidate alone where
/// there is one, else nothing.  The filesystem is consulted only when the
/// embedded metadata yielded nothing.
pub open spec fn spec_candidates(data: Seq<u8>, f: FsTimes) -> Seq<Candidate> {
    match spec_embedded_of(data) {
        Some(c) => seq![c],
        None => match spec_fs_candidate(f) {
            Some(c) => seq![c],
            None => Seq::empty(),
        },
    }
}

/// The resolved timestamp of a file with the given bytes and filesystem
/// instants: the instant of the best candidate, or the sentinel where no
/// candidate exists.
pub open spec fn spec_resolve(data: Seq<u8>, f: FsTimes) -> u64 {
    match spec_best(spec_candidates(data, f)) {
        Some(c) => c.instant,
        None => UNKNOWN_DATE,
    }
}

/// Resolves the best-known creation timestamp of one file from its raw
/// bytes and its filesystem instants.  Every call on the same values
/// returns the same timestamp.
pub fn resolve_timestamp(data: &Vec<u8>, times: &FsTimes) -> (r: u64)
    ensures
        r == spec_resolve(data@, *times),
{
    let mut dates: Vec<Candidate> = Vec::new();
    if let Some(c) = extract_embedded_dates(data) {
        dates.push(c);
    }
    if dates.len() == 0 {
        // the embedded metadata has a higher priority, so the filesystem is
        // only consulted when no embedded date could be extracted
        if let Some(c) = get_filesystem_dates(times) {
            dates.push(c);
        }
    }
    proof {
        assert(dates@ =~= spec_candidates(data@, *times));
    }
    match best_candidate(&dates) {
        Some(c) => c.instant,
        None => UNKNOWN_DATE,
    }
}

/// The failure reported for a file that cannot be opened: a descriptive
/// message that names the offending filename.
pub fn open_failure_message(filename: &str) -> (r: String)
    ensures
        r@ == "Failed to open file: "@ + filename@,
{
    let mut message = String::from_str("Failed to open file: ");
    message.append(filename);
    message
}

} // verus!
