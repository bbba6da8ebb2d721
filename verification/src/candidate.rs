//! The candidate record shared by the extractors and the resolver: a pair of
//! a priority rank and an instant, plus the selection of the best (lowest
//! rank) candidate out of a set.

use vstd::prelude::*;

verus! {

/// Rank of a date taken from the embedded original-capture field.
pub const EXIF_DATE_TIME_ORIGINAL: u8 = 1;

/// Rank of a date taken from the embedded digitized/creation field.
pub const EXIF_CREATE_DATE: u8 = 2;

/// Rank of a date taken from the embedded last-modify field.
pub const EXIF_MODIFY_DATE: u8 = 3;

/// Rank of the filesystem creation instant.
pub const SYS_CREATED: u8 = 4;

/// Rank of the filesystem modification instant.
pub const SYS_MODIFIED: u8 = 5;

/// Rank of the filesystem access instant.
pub const SYS_ACCESSED: u8 = 6;

/// One extracted date: which source produced it (the rank, 1 = highest
/// priority) and the extracted instant in whole seconds since the Unix epoch.
#[derive(Clone, Copy, PartialEq, Eq, Debug)]
pub struct Candidate {
    pub rank: u8,
    pub instant: u64,
}

impl Candidate {
    /// Every candidate carries one of the six fixed ranks.
    pub open spec fn valid(self) -> bool {
        EXIF_DATE_TIME_ORIGINAL <= self.rank <= SYS_ACCESSED
    }
}

/// The winner among a sequence of candidates: the first one bearing the
/// numerically smallest rank, or nothing when the sequence is empty.
pub open spec fn spec_best(s: Seq<Candidate>) -> Option<Candidate>
    decreases s.len(),
{
    if s.len() == 0 {
        None
    } else {
        match spec_best(s.drop_last()) {
            None => Some(s.last()),
            Some(b) => if s.last().rank < b.rank {
                Some(s.last())
            } else {
                Some(b)
            },
        }
    }
}

/// Selects the highest-priority candidate: the first element with the
/// smallest rank.  Returns `None` only for an empty set.
pub fn best_candidate(dates: &Vec<Candidate>) -> (r: Option<Candidate>)
    ensures
        r == spec_best(dates@),
{
    let mut best: Option<Candidate> = None;
    let mut i: usize = 0;
    while i < dates.len()
        invariant
            i <= dates@.len(),
            best == spec_best(dates@.take(i as int)),
        decreases dates@.len() - i,
    {
        let c = dates[i];
        best = match best {
            None => Some(c),
            Some(b) => if c.rank < b.rank {
                Some(c)
            } else {
                Some(b)
            },
        };
        i = i + 1;
        proof {
            let taken = dates@.take(i as int);
            assert(taken.drop_last() =~= dates@.take(i as int - 1));
            assert(taken.last() == c);
        }
    }
    proof {
        assert(dates@.take(dates@.len() as int) =~= dates@);
    }
    best
}

/// The selected candidate is drawn from the set and its rank is minimal
/// among all members; only an empty set selects nothing.
pub proof fn lemma_best_is_minimum(s: Seq<Candidate>)
    ensures
        s.len() == 0 <==> spec_best(s) is None,
        spec_best(s) matches Some(c) ==> s.contains(c) && (forall|i: int|
            0 <= i < s.len() ==> c.rank <= s[i].rank),
    decreases s.len(),
{
    if s.len() > 0 {
        lemma_best_is_minimum(s.drop_last());
        if let Some(c) = spec_best(s) {
            assert forall|i: int| 0 <= i < s.len() implies c.rank <= s[i].rank by {
                if i < s.len() - 1 {
                    assert(s.drop_last()[i] == s[i]);
                }
            }
            if spec_best(s.drop_last()) == Some(c) {
                let j = choose|j: int| 0 <= j < s.drop_last().len() && s.drop_last()[j] == c;
                assert(s[j] == c);
            }
        }
    }
}

} // verus!
