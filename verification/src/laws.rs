//! The guarantees of the priority-based resolution, stated and proved once
//! over the specification functions that the extractors and the resolver
//! are verified against.

use vstd::prelude::*;

use crate::candidate::Candidate;
use crate::candidate::EXIF_CREATE_DATE;
use crate::candidate::EXIF_DATE_TIME_ORIGINAL;
use crate::candidate::EXIF_MODIFY_DATE;
use crate::candidate::SYS_ACCESSED;
use crate::candidate::SYS_CREATED;
use crate::candidate::SYS_MODIFIED;
use crate::candidate::spec_best;
use crate::embedded::DateTag;
use crate::embedded::exif_date_fields_of;
use crate::embedded::spec_embedded_candidate;
use crate::embedded::spec_embedded_of;
use crate::embedded::spec_tag_parse;
use crate::filesystem::FsTimes;
use crate::filesystem::spec_fs_candidate;
use crate::resolver::UNKNOWN_DATE;
use crate::resolver::spec_candidates;
use crate::resolver::spec_resolve;

verus! {

/// A set of exactly one candidate selects that candidate.
proof fn lemma_best_singleton(c: Candidate)
    ensures
        spec_best(seq![c]) == Some(c),
{
    let s = seq![c];
    assert(s.drop_last() =~= Seq::<Candidate>::empty());
    assert(spec_best(s.drop_last()) is None);
    assert(s.last() == c);
}

/// Wherever the original-capture date parses, the resolved timestamp is
/// that parsed value, regardless of every other source's content.
pub proof fn lemma_original_capture_wins(data: Seq<u8>, f: FsTimes, m: Map<int, Seq<char>>, t: u64)
    requires
        exif_date_fields_of(data) == Some(m),
        spec_tag_parse(m, DateTag::Original.code()) == Some(t),
    ensures
        spec_resolve(data, f) == t,
{
    let c = (Candidate { rank: EXIF_DATE_TIME_ORIGINAL, instant: t });
    assert(spec_embedded_of(data) == Some(c));
    lemma_best_singleton(c);
}

/// An embedded-metadata success of any rank always beats the filesystem:
/// whenever the embedded metadata yields a candidate, the resolved
/// timestamp is its instant, whatever the filesystem instants are.
pub proof fn lemma_embedded_beats_filesystem(data: Seq<u8>, f: FsTimes, c: Candidate)
    requires
        spec_embedded_of(data) == Some(c),
    ensures
        spec_resolve(data, f) == c.instant,
{
    lemma_best_singleton(c);
}

/// Within the embedded metadata the three tags win strictly in rank order:
/// the original-capture date beats the digitized date, which beats the
/// last-modify date, and only a tag that parses is considered.
pub proof fn lemma_embedded_rank_order(m: Map<int, Seq<char>>)
    ensures
        spec_tag_parse(m, DateTag::Original.code()) is Some ==> spec_embedded_candidate(m) == Some(
            (Candidate {
                rank: EXIF_DATE_TIME_ORIGINAL,
                instant: spec_tag_parse(m, DateTag::Original.code())->Some_0,
            }),
        ),
        spec_tag_parse(m, DateTag::Original.code()) is None && spec_tag_parse(
            m,
            DateTag::Digitized.code(),
        ) is Some ==> spec_embedded_candidate(m) == Some(
            (Candidate {
                rank: EXIF_CREATE_DATE,
                instant: spec_tag_parse(m, DateTag::Digitized.code())->Some_0,
            }),
        ),
        spec_tag_parse(m, DateTag::Original.code()) is None && spec_tag_parse(
            m,
            DateTag::Digitized.code(),
        ) is None && spec_tag_parse(m, DateTag::Modify.code()) is Some ==> spec_embedded_candidate(
            m,
        ) == Some(
            (Candidate {
                rank: EXIF_MODIFY_DATE,
                instant: spec_tag_parse(m, DateTag::Modify.code())->Some_0,
            }),
        ),
        spec_tag_parse(m, DateTag::Original.code()) is None && spec_tag_parse(
            m,
            DateTag::Digitized.code(),
        ) is None && spec_tag_parse(m, DateTag::Modify.code()) is None ==> spec_embedded_candidate(
            m,
        ) is None,
{
}

/// Within the filesystem attributes the three instants win strictly in rank
/// order: creation beats modification, which beats access, and only an
/// available attribute is considered.
pub proof fn lemma_filesystem_rank_order(f: FsTimes)
    ensures
        f.created is Some ==> spec_fs_candidate(f) == Some(
            (Candidate { rank: SYS_CREATED, instant: f.created->Some_0 }),
        ),
        f.created is None && f.modified is Some ==> spec_fs_candidate(f) == Some(
            (Candidate { rank: SYS_MODIFIED, instant: f.modified->Some_0 }),
        ),
        f.created is None && f.modified is None && f.accessed is Some ==> spec_fs_candidate(f)
            == Some((Candidate { rank: SYS_ACCESSED, instant: f.accessed->Some_0 })),
        f.created is None && f.modified is None && f.accessed is None ==> spec_fs_candidate(
            f,
        ) is None,
{
}

/// A filesystem candidate decides the resolution exactly when the embedded
/// metadata yielded nothing.
pub proof fn lemma_filesystem_fallback(data: Seq<u8>, f: FsTimes, c: Candidate)
    requires
        spec_embedded_of(data) is None,
        spec_fs_candidate(f) == Some(c),
    ensures
        spec_resolve(data, f) == c.instant,
{
    lemma_best_singleton(c);
}

/// Where no embedded date tag parses (or no container decodes at all) and
/// no filesystem attribute is available, resolution returns the fixed
/// sentinel value rather than an error.
pub proof fn lemma_no_evidence_sentinel(data: Seq<u8>, f: FsTimes)
    requires
        spec_embedded_of(data) is None,
        f.created is None,
        f.modified is None,
        f.accessed is None,
    ensures
        spec_resolve(data, f) == UNKNOWN_DATE,
{
    assert(spec_candidates(data, f) =~= Seq::<Candidate>::empty());
}

/// Resolution is idempotent: the timestamp is a function of the file's
/// bytes and filesystem instants alone, so resolving the same unmodified
/// file twice yields the identical timestamp.
pub proof fn lemma_resolution_deterministic(
    data1: Seq<u8>,
    f1: FsTimes,
    data2: Seq<u8>,
    f2: FsTimes,
)
    requires
        data1 == data2,
        f1 == f2,
    ensures
        spec_resolve(data1, f1) == spec_resolve(data2, f2),
{
}

} // verus!
