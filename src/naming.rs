//! New names from a timestamp (the file's or the photo's own), and whether
//! a proposed rename or move goes ahead.
use vstd::prelude::*;
use crate::calendar::{
    LocalDateTime, canonical_name, canonical_text, is_valid_date, is_valid_time, local_date_time,
    local_instant, parse_date_time, parsed_date_time_of, unix_seconds_of,
};
use crate::media::{MediaKind, classify, kind_of};
use crate::paths::{extension_of, get_file_extension, lower_of, with_file_name, with_file_name_of};

verus! {

/// The path renamed to the canonical name of `dt`, keeping the extension in
/// lower case; none for a file without an extension.
pub open spec fn timestamp_path_of(p: Seq<char>, dt: LocalDateTime) -> Option<Seq<char>> {
    match extension_of(p) {
        Some(x) => Some(with_file_name_of(p, canonical_text(dt, lower_of(x)))),
        None => None,
    }
}

/// The new path of a file last modified at `modified` (local time).
pub fn use_last_modified_to_generate_new_path(file_path: &str, modified: &LocalDateTime) -> (r: Option<String>)
    requires
        modified.wf(),
    ensures
        match timestamp_path_of(file_path@, *modified) {
            Some(x) => r is Some && r->0@ == x,
            None => r is None,
        },
{
    match get_file_extension(file_path) {
        Some(ext) => {
            let name = canonical_name(modified, ext.as_str());
            Some(with_file_name(file_path, name.as_str()))
        },
        None => None,
    }
}

/// The new path of a file whose last modification has the local calendar
/// time `local`; none where there is none or it is not a valid date and time.
pub fn local_time_new_path(file_path: &str, local: Option<LocalDateTime>) -> (r: Option<String>)
    ensures
        match local {
            Some(dt) => if dt.wf() {
                match timestamp_path_of(file_path@, dt) {
                    Some(x) => r is Some && r->0@ == x,
                    None => r is None,
                }
            } else {
                r is None
            },
            None => r is None,
        },
{
    match local {
        Some(dt) => {
            if is_valid_date(dt.year, dt.month, dt.day) && is_valid_time(dt.hour, dt.minute, dt.second) {
                use_last_modified_to_generate_new_path(file_path, &dt)
            } else {
                None
            }
        },
        None => None,
    }
}

/// The new path of a file last modified at `unix_seconds`, named by the
/// local calendar time of that instant, which lies within a day of it; none
/// where that time falls outside the calendar's years.
pub fn last_modified_new_path(file_path: &str, unix_seconds: i64) -> (r: Option<String>)
    ensures
        extension_of(file_path@) is None ==> r is None,
        r matches Some(x) ==> exists|dt: LocalDateTime|
            dt.wf() && timestamp_path_of(file_path@, dt) == Some(x@) && unix_seconds_of(dt) - 86400
                < (unix_seconds as int) < unix_seconds_of(dt) + 86400,
{
    let local = local_date_time(unix_seconds);
    let r = local_time_new_path(file_path, local);
    proof {
        if let Some(dt) = local {
            assert(r matches Some(x) ==> dt.wf() && timestamp_path_of(file_path@, dt) == Some(x@));
        }
    }
    r
}

/// The new path of an image by its capture time; no decision without one.
pub fn use_metadata_to_generate_new_path(file_path: &str, capture: Option<LocalDateTime>) -> (r: Option<String>)
    requires
        capture matches Some(dt) ==> dt.wf(),
    ensures
        match capture {
            Some(dt) => match timestamp_path_of(file_path@, dt) {
                Some(x) => r is Some && r->0@ == x,
                None => r is None,
            },
            None => r is None,
        },
{
    match capture {
        Some(dt) => use_last_modified_to_generate_new_path(file_path, &dt),
        None => None,
    }
}

/// One exif field: the context of its tag (0 TIFF, 1 Exif, 2 GPS,
/// 3 interoperability, 4 any later one), the tag's number, the number of
/// its image file directory, and its value as the exif reader displays it.
#[derive(Clone, Debug)]
pub struct ExifEntry {
    pub context: u8,
    pub number: u16,
    pub ifd: u16,
    pub text: String,
}

pub open spec fn entry_view(e: ExifEntry) -> (u8, u16, u16, Seq<char>) {
    (e.context, e.number, e.ifd, e.text@)
}

/// The fields of an image file's exif data, in the order the reader lists
/// them; none where the container cannot be read.
pub uninterp spec fn exif_fields_of(data: Seq<u8>) -> Option<Seq<(u8, u16, u16, Seq<char>)>>;

/// Relies on kamadak-exif's `Reader::read_from_container` and `Exif::fields`,
/// each value displayed with its unit.
#[verifier::external_body]
fn exif_fields(data: &Vec<u8>) -> (r: Option<Vec<ExifEntry>>)
    ensures
        match exif_fields_of(data@) {
            Some(es) => r matches Some(v) && v@.len() == es.len() && forall|k: int|
                0 <= k < es.len() ==> entry_view(#[trigger] v@[k]) == es[k],
            None => r is None,
        },
{
    let mut cursor = std::io::Cursor::new(data.as_slice());
    let found = exif::Reader::new().read_from_container(&mut cursor).ok()?;
    let mut out = Vec::new();
    for f in found.fields() {
        let context: u8 = match f.tag.context() {
            exif::Context::Tiff => 0,
            exif::Context::Exif => 1,
            exif::Context::Gps => 2,
            exif::Context::Interop => 3,
            _ => 4,
        };
        let text = f.display_value().with_unit(&found).to_string();
        out.push(ExifEntry { context, number: f.tag.number(), ifd: f.ifd_num.index(), text });
    }
    Some(out)
}

/// `DateTimeOriginal` (Exif tag 0x9003) of the primary image (directory 0).
pub open spec fn is_capture_field(e: (u8, u16, u16, Seq<char>)) -> bool {
    e.0 == 1 && e.1 == 0x9003 && e.2 == 0
}

/// The text of the first capture-time field from index `k` on.
pub open spec fn capture_text_from(es: Seq<(u8, u16, u16, Seq<char>)>, k: int) -> Option<Seq<char>>
    decreases es.len() - k,
{
    if k < 0 || k >= es.len() {
        None
    } else if is_capture_field(es[k]) {
        Some(es[k].3)
    } else {
        capture_text_from(es, k + 1)
    }
}

/// The text of the first capture-time field among exif fields.
pub fn first_capture_text(entries: &Vec<ExifEntry>) -> (r: Option<String>)
    ensures
        match capture_text_from(entries@.map_values(|e: ExifEntry| entry_view(e)), 0) {
            Some(t) => r matches Some(x) && x@ == t,
            None => r is None,
        },
{
    let ghost es = entries@.map_values(|e: ExifEntry| entry_view(e));
    let mut k: usize = 0;
    while k < entries.len()
        invariant
            es == entries@.map_values(|e: ExifEntry| entry_view(e)),
            k <= entries@.len(),
            capture_text_from(es, 0) == capture_text_from(es, k as int),
        decreases entries@.len() - k,
    {
        let e = &entries[k];
        assert(es[k as int] == entry_view(*e));
        if e.context == 1 && e.number == 0x9003 && e.ifd == 0 {
            return Some(e.text.clone());
        }
        k = k + 1;
    }
    None
}

/// The text of the capture time that an image file's bytes hold.
pub open spec fn capture_text_of(data: Seq<u8>) -> Option<Seq<char>> {
    match exif_fields_of(data) {
        Some(es) => capture_text_from(es, 0),
        None => None,
    }
}

/// What an image file's bytes give as its capture time.
pub open spec fn capture_time_of(data: Seq<u8>) -> Option<LocalDateTime> {
    match capture_text_of(data) {
        Some(t) => parsed_date_time_of(t),
        None => None,
    }
}

/// The capture time of an image from its file's bytes: none where there is
/// no such field or its text is not a date and time.
pub fn get_image_created_on_date(data: &Vec<u8>) -> (r: Option<LocalDateTime>)
    ensures
        r == capture_time_of(data@),
        r matches Some(dt) ==> dt.wf(),
{
    match exif_fields(data) {
        Some(entries) => {
            proof {
                let es = exif_fields_of(data@)->0;
                assert(entries@.map_values(|e: ExifEntry| entry_view(e)) =~= es);
            }
            match first_capture_text(&entries) {
                Some(t) => parse_date_time(t.as_str()),
                None => None,
            }
        },
        None => None,
    }
}

/// The path that naming by image properties gives.
pub open spec fn metadata_path_of(p: Seq<char>, data: Seq<u8>) -> Option<Seq<char>> {
    match capture_time_of(data) {
        Some(dt) => timestamp_path_of(p, dt),
        None => None,
    }
}

/// The new path of an image from its file's bytes; no decision where they
/// hold no readable capture time.
pub fn metadata_new_path(file_path: &str, data: &Vec<u8>) -> (r: Option<String>)
    ensures
        match metadata_path_of(file_path@, data@) {
            Some(x) => r is Some && r->0@ == x,
            None => r is None,
        },
{
    let capture = get_image_created_on_date(data);
    use_metadata_to_generate_new_path(file_path, capture)
}

/// The modification time that an image gets from its capture time: only
/// where that is asked for and the new name is not taken; none also where
/// the local time does not name one instant. It is the instant of the
/// capture time in the machine's time zone, so within a day of that time
/// read as UTC.
pub fn capture_modified_time(capture: &LocalDateTime, change_last_modified: bool, target_exists: bool) -> (r: Option<i64>)
    requires
        capture.wf(),
    ensures
        !change_last_modified || target_exists ==> r is None,
        change_last_modified && !target_exists ==> (r matches Some(t) ==> unix_seconds_of(*capture)
            - 86400 < (t as int) < unix_seconds_of(*capture) + 86400),
{
    if change_last_modified && !target_exists {
        local_instant(capture)
    } else {
        None
    }
}

/// What becomes of one file.
#[derive(Clone, Debug, PartialEq, Eq)]
pub enum Step {
    /// Left as it is.
    Skip,
    /// Renamed or moved to this path.
    MoveTo(String),
}

pub open spec fn step_is(r: Step, p: Seq<char>, target: Option<String>, target_exists: bool) -> bool {
    if kind_of(p) == MediaKind::Unrecognized || target_exists {
        r == Step::Skip
    } else {
        match target {
            Some(t) => r matches Step::MoveTo(u) && u@ == t@,
            None => r == Step::Skip,
        }
    }
}

/// Whether a proposed rename or move goes ahead: never for a file that is
/// not an image or a video, never onto a path that exists.
pub fn plan_transfer(file_path: &str, target: Option<String>, target_exists: bool) -> (r: Step)
    ensures
        step_is(r, file_path@, target, target_exists),
{
    if classify(file_path) == MediaKind::Unrecognized || target_exists {
        return Step::Skip;
    }
    match target {
        Some(t) => Step::MoveTo(t),
        None => Step::Skip,
    }
}

/// A rename or move whose target exists is skipped, and the file stays.
pub proof fn lemma_existing_target_skips(p: Seq<char>, target: Option<String>, r: Step)
    requires
        step_is(r, p, target, true),
    ensures
        r == Step::Skip,
{
}

/// Naming by image properties makes no decision, and raises no error, for
/// an image whose capture time is absent or does not parse: the file is
/// skipped.
pub proof fn lemma_no_capture_no_decision(p: Seq<char>, data: Seq<u8>, target_exists: bool, r: Step)
    requires
        capture_text_of(data) is None || (capture_text_of(data) matches Some(t)
            && parsed_date_time_of(t) is None),
        step_is(r, p, None, target_exists),
    ensures
        metadata_path_of(p, data) is None,
        r == Step::Skip,
{
}

} // verus!
