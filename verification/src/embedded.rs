//! Extraction of a date candidate from the metadata embedded in the image
//! itself.
//!
//! The raw bytes of the file are decoded into a queryable tag-to-value
//! mapping by the `exif` crate; the mapping is opaque here and is reached
//! only through trusted wrappers.  Three date-bearing tags are probed in
//! strict priority order — original capture, digitized/creation, last
//! modify — and the first one whose displayed value parses becomes the
//! candidate.  A tag that is absent, or whose value does not parse, is
//! silently skipped; an undecodable container yields no candidate at all.

use vstd::prelude::*;

use crate::candidate::Candidate;
use crate::candidate::EXIF_CREATE_DATE;
use crate::candidate::EXIF_DATE_TIME_ORIGINAL;
use crate::candidate::EXIF_MODIFY_DATE;
use crate::datetime::parse_datetime;
use crate::datetime::parse_datetime_epoch;

verus! {

/// The decoded metadata mapping of the `exif` crate, opaque to this library.
#[verifier::external_type_specification]
#[verifier::external_body]
pub struct ExExif(exif::Exif);

/// The three date-bearing tags the extractor probes, in priority order.
#[derive(Clone, Copy, PartialEq, Eq, Debug)]
pub enum DateTag {
    /// Date and time when the original image was captured.
    Original,
    /// Date and time when the image was digitized (its creation date).
    Digitized,
    /// Date and time of the last modification recorded in the metadata.
    Modify,
}

impl DateTag {
    /// The numeric code of the tag in the embedded-metadata format.
    pub open spec fn code(self) -> int {
        match self {
            DateTag::Original => 0x9003,
            DateTag::Digitized => 0x9004,
            DateTag::Modify => 0x132,
        }
    }
}

/// What a decoded metadata mapping holds of the three date tags: the tag's
/// numeric code maps to the displayed text of the field recorded in the
/// primary image description, and a tag that is not recorded there is
/// absent from the map.
pub uninterp spec fn exif_date_fields(e: exif::Exif) -> Map<int, Seq<char>>;

/// What decoding a byte stream yields: the date fields of the resulting
/// mapping, or `None` where no metadata container can be decoded from the
/// bytes.  A name for the outcome of the `exif` crate's container parser: a
/// function of the bytes alone.
pub uninterp spec fn exif_date_fields_of(data: Seq<u8>) -> Option<Map<int, Seq<char>>>;

/// Relies on `exif::Reader::read_from_container`, which decodes the Exif
/// metadata out of an image byte stream (TIFF, JPEG, HEIF, PNG or WebP) or
/// fails; the outcome is a function of the bytes alone.
#[verifier::external_body]
fn decode_exif(data: &Vec<u8>) -> (r: Option<exif::Exif>)
    ensures
        (match r {
            Some(e) => exif_date_fields_of(data@) == Some(exif_date_fields(e)),
            None => exif_date_fields_of(data@) is None,
        }),
{
    let mut cursor = std::io::Cursor::new(data.as_slice());
    match exif::Reader::new().read_from_container(&mut cursor) {
        Ok(e) => Some(e),
        Err(_) => None,
    }
}

/// Relies on `exif::Exif::get_field` on the primary image description
/// (`exif::In::PRIMARY`, not the thumbnail) and on `exif::Value::display_as`,
/// which renders the field's value in its tag-specific format; both outcomes
/// are functions of the decoded mapping and the tag alone.
#[verifier::external_body]
fn field_display(e: &exif::Exif, tag: DateTag) -> (r: Option<String>)
    ensures
        (match r {
            Some(s) => exif_date_fields(*e).contains_key(tag.code()) && s@ == exif_date_fields(
                *e,
            )[tag.code()],
            None => !exif_date_fields(*e).contains_key(tag.code()),
        }),
{
    let t = match tag {
        DateTag::Original => exif::Tag::DateTimeOriginal,
        DateTag::Digitized => exif::Tag::DateTimeDigitized,
        DateTag::Modify => exif::Tag::DateTime,
    };
    match e.get_field(t, exif::In::PRIMARY) {
        Some(f) => Some(format!("{}", f.value.display_as(t))),
        None => None,
    }
}

/// The epoch timestamp one date tag contributes: the parse of its displayed
/// value, or `None` where the tag is absent or its value does not parse.
pub open spec fn spec_tag_parse(m: Map<int, Seq<char>>, code: int) -> Option<u64> {
    if m.contains_key(code) {
        parse_datetime_epoch(m[code])
    } else {
        None
    }
}

/// The candidate an embedded-metadata mapping yields: the first of the
/// three date tags, in priority order, whose displayed value parses.
pub open spec fn spec_embedded_candidate(m: Map<int, Seq<char>>) -> Option<Candidate> {
    if spec_tag_parse(m, DateTag::Original.code()) is Some {
        Some(
            Candidate {
                rank: EXIF_DATE_TIME_ORIGINAL,
                instant: spec_tag_parse(m, DateTag::Original.code())->Some_0,
            },
        )
    } else if spec_tag_parse(m, DateTag::Digitized.code()) is Some {
        Some(
            Candidate {
                rank: EXIF_CREATE_DATE,
                instant: spec_tag_parse(m, DateTag::Digitized.code())->Some_0,
            },
        )
    } else if spec_tag_parse(m, DateTag::Modify.code()) is Some {
        Some(
            Candidate {
                rank: EXIF_MODIFY_DATE,
                instant: spec_tag_parse(m, DateTag::Modify.code())->Some_0,
            },
        )
    } else {
        None
    }
}

/// The candidate the raw bytes of a file yield through the embedded
/// metadata: nothing where no container decodes, else the candidate of the
/// decoded mapping.
pub open spec fn spec_embedded_of(data: Seq<u8>) -> Option<Candidate> {
    match exif_date_fields_of(data) {
        Some(m) => spec_embedded_candidate(m),
        None => None,
    }
}

/// Looks one date tag up in the mapping and parses its displayed value.
fn embedded_date(e: &exif::Exif, tag: DateTag) -> (r: Option<u64>)
    ensures
        r == spec_tag_parse(exif_date_fields(*e), tag.code()),
{
    match field_display(e, tag) {
        Some(s) => parse_datetime(s.as_str()),
        None => None,
    }
}

/// Probes the three date tags of a decoded mapping in priority order and
/// emits a candidate for the first one that parses.
pub fn get_exif_image_dates(e: &exif::Exif) -> (r: Option<Candidate>)
    ensures
        r == spec_embedded_candidate(exif_date_fields(*e)),
        r matches Some(c) ==> c.valid(),
{
    if let Some(t) = embedded_date(e, DateTag::Original) {
        return Some(Candidate { rank: EXIF_DATE_TIME_ORIGINAL, instant: t });
    }
    if let Some(t) = embedded_date(e, DateTag::Digitized) {
        return Some(Candidate { rank: EXIF_CREATE_DATE, instant: t });
    }
    if let Some(t) = embedded_date(e, DateTag::Modify) {
        return Some(Candidate { rank: EXIF_MODIFY_DATE, instant: t });
    }
    None
}

/// Decodes the embedded metadata out of the raw bytes of a file and probes
/// it for a date candidate.  An undecodable container is treated exactly
/// like a container with no usable date tags.
pub fn extract_embedded_dates(data: &Vec<u8>) -> (r: Option<Candidate>)
    ensures
        r == spec_embedded_of(data@),
        r matches Some(c) ==> c.valid(),
{
    match decode_exif(data) {
        Some(e) => get_exif_image_dates(&e),
        None => None,
    }
}

} // verus!
