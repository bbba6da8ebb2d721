use image_date::candidate::Candidate;
use image_date::candidate::best_candidate;
use image_date::filesystem::FsTimes;
use image_date::filesystem::get_filesystem_dates;
use image_date::resolver::UNKNOWN_DATE;
use image_date::resolver::open_failure_message;
use image_date::resolver::resolve_timestamp;

const TAG_DATE_TIME_ORIGINAL: u16 = 0x9003;
const TAG_DATE_TIME_DIGITIZED: u16 = 0x9004;
const TAG_DATE_TIME: u16 = 0x132;
const TAG_EXIF_IFD_POINTER: u16 = 0x8769;

fn push_u16(out: &mut Vec<u8>, x: u16) {
    out.push((x & 0xff) as u8);
    out.push((x >> 8) as u8);
}

fn push_u32(out: &mut Vec<u8>, x: u32) {
    out.push((x & 0xff) as u8);
    out.push(((x >> 8) & 0xff) as u8);
    out.push(((x >> 16) & 0xff) as u8);
    out.push(((x >> 24) & 0xff) as u8);
}

fn push_ascii_entry(out: &mut Vec<u8>, strings: &mut Vec<u8>, tag: u16, text: &str, data_off: &mut u32) {
    assert_eq!(text.len(), 19);
    push_u16(out, tag);
    push_u16(out, 2); // ASCII
    push_u32(out, 20); // 19 characters and a terminating NUL
    push_u32(out, *data_off);
    strings.extend_from_slice(text.as_bytes());
    strings.push(0);
    *data_off += 20;
}

/// Builds a minimal little-endian TIFF stream: date fields of the zeroth
/// image description, either directly in its IFD or in the Exif sub-IFD it
/// points to.
fn build_tiff(ifd0_dates: &[(u16, &str)], exif_dates: &[(u16, &str)]) -> Vec<u8> {
    let n0 = ifd0_dates.len() + if exif_dates.is_empty() { 0 } else { 1 };
    let n1 = exif_dates.len();
    let ifd0_size = 2 + 12 * n0 + 4;
    let exif_off = 8 + ifd0_size;
    let exif_size = if n1 > 0 { 2 + 12 * n1 + 4 } else { 0 };
    let mut data_off = (exif_off + exif_size) as u32;

    let mut out: Vec<u8> = Vec::new();
    let mut strings: Vec<u8> = Vec::new();
    out.extend_from_slice(&[0x49, 0x49, 0x2a, 0x00]);
    push_u32(&mut out, 8);

    push_u16(&mut out, n0 as u16);
    for (tag, text) in ifd0_dates {
        push_ascii_entry(&mut out, &mut strings, *tag, text, &mut data_off);
    }
    if n1 > 0 {
        push_u16(&mut out, TAG_EXIF_IFD_POINTER);
        push_u16(&mut out, 4); // LONG
        push_u32(&mut out, 1);
        push_u32(&mut out, exif_off as u32);
    }
    push_u32(&mut out, 0);

    if n1 > 0 {
        push_u16(&mut out, n1 as u16);
        for (tag, text) in exif_dates {
            push_ascii_entry(&mut out, &mut strings, *tag, text, &mut data_off);
        }
        push_u32(&mut out, 0);
    }

    out.extend_from_slice(&strings);
    out
}

fn no_fs_times() -> FsTimes {
    FsTimes { created: None, modified: None, accessed: None }
}

#[test]
fn date_time_original() {
    // The embedded original-capture field displays 2008-05-30 15:56:01.
    let data = build_tiff(&[], &[(TAG_DATE_TIME_ORIGINAL, "2008:05:30 15:56:01")]);
    let time = resolve_timestamp(&data, &no_fs_times());
    assert_eq!(time, 1212162961);
}

#[test]
fn sys_created() {
    // No usable embedded metadata; the filesystem creation instant is
    // 2020-11-26 09:58:09.
    let data: Vec<u8> = Vec::new();
    let times = FsTimes {
        created: Some(1606381089),
        modified: Some(1700000000),
        accessed: Some(1700000001),
    };
    let time = resolve_timestamp(&data, &times);
    assert_eq!(time, 1606381089);
}

#[test]
fn sentinel_when_no_evidence() {
    // A zero-byte file with every filesystem attribute unsupported resolves
    // to the sentinel, not an error.
    let data: Vec<u8> = Vec::new();
    let time = resolve_timestamp(&data, &no_fs_times());
    assert_eq!(time, UNKNOWN_DATE);
    assert_eq!(time, 1936268400);
}

#[test]
fn original_capture_beats_every_other_source() {
    let data = build_tiff(
        &[(TAG_DATE_TIME, "2010:01:02 03:04:05")],
        &[
            (TAG_DATE_TIME_ORIGINAL, "2008:05:30 15:56:01"),
            (TAG_DATE_TIME_DIGITIZED, "2001:02:03 04:05:06"),
        ],
    );
    let times = FsTimes {
        created: Some(1),
        modified: Some(2),
        accessed: Some(3),
    };
    assert_eq!(resolve_timestamp(&data, &times), 1212162961);
}

#[test]
fn digitized_beats_modify_and_filesystem() {
    let data = build_tiff(
        &[(TAG_DATE_TIME, "2010:01:02 03:04:05")],
        &[(TAG_DATE_TIME_DIGITIZED, "2001:02:03 04:05:06")],
    );
    let times = FsTimes {
        created: Some(4),
        modified: Some(5),
        accessed: Some(6),
    };
    assert_eq!(resolve_timestamp(&data, &times), 981173106);
}

#[test]
fn modify_date_is_the_last_embedded_resort() {
    let data = build_tiff(&[(TAG_DATE_TIME, "2010:01:02 03:04:05")], &[]);
    let times = FsTimes {
        created: Some(7),
        modified: Some(8),
        accessed: Some(9),
    };
    assert_eq!(resolve_timestamp(&data, &times), 1262401445);
}

#[test]
fn unparsable_tag_falls_through_to_the_next() {
    let data = build_tiff(
        &[],
        &[
            (TAG_DATE_TIME_ORIGINAL, "not a real datetime"),
            (TAG_DATE_TIME_DIGITIZED, "2001:02:03 04:05:06"),
        ],
    );
    assert_eq!(resolve_timestamp(&data, &no_fs_times()), 981173106);
}

#[test]
fn undecodable_container_falls_back_to_filesystem() {
    let data: Vec<u8> = vec![0xde, 0xad, 0xbe, 0xef, 0x00, 0x01, 0x02, 0x03];
    let times = FsTimes {
        created: None,
        modified: Some(1499999999),
        accessed: Some(1599999999),
    };
    assert_eq!(resolve_timestamp(&data, &times), 1499999999);
}

#[test]
fn filesystem_rank_order() {
    let data: Vec<u8> = Vec::new();
    let all = FsTimes {
        created: Some(10),
        modified: Some(20),
        accessed: Some(30),
    };
    assert_eq!(resolve_timestamp(&data, &all), 10);
    let no_created = FsTimes {
        created: None,
        modified: Some(20),
        accessed: Some(30),
    };
    assert_eq!(resolve_timestamp(&data, &no_created), 20);
    let only_accessed = FsTimes {
        created: None,
        modified: None,
        accessed: Some(30),
    };
    assert_eq!(resolve_timestamp(&data, &only_accessed), 30);
}

#[test]
fn filesystem_extractor_emits_ranked_candidates() {
    let only_accessed = FsTimes {
        created: None,
        modified: None,
        accessed: Some(30),
    };
    assert_eq!(
        get_filesystem_dates(&only_accessed),
        Some(Candidate { rank: 6, instant: 30 })
    );
    assert_eq!(get_filesystem_dates(&no_fs_times()), None);
}

#[test]
fn best_candidate_picks_first_of_lowest_rank() {
    let dates = vec![
        Candidate { rank: 5, instant: 50 },
        Candidate { rank: 2, instant: 21 },
        Candidate { rank: 2, instant: 22 },
        Candidate { rank: 6, instant: 60 },
    ];
    assert_eq!(best_candidate(&dates), Some(Candidate { rank: 2, instant: 21 }));
    let empty: Vec<Candidate> = Vec::new();
    assert_eq!(best_candidate(&empty), None);
}

#[test]
fn resolve_is_idempotent() {
    let data = build_tiff(&[], &[(TAG_DATE_TIME_ORIGINAL, "2008:05:30 15:56:01")]);
    let times = FsTimes {
        created: Some(11),
        modified: None,
        accessed: Some(12),
    };
    let first = resolve_timestamp(&data, &times);
    let second = resolve_timestamp(&data, &times);
    assert_eq!(first, second);
}

#[test]
fn open_failure_message_names_the_path() {
    let message = open_failure_message("d:\\pictures\\missing.jpg");
    assert_eq!(message, "Failed to open file: d:\\pictures\\missing.jpg");
}
