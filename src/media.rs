//! Which files are photos and which are videos, by extension alone.
use vstd::prelude::*;
use vstd::string::StrSliceExecFns;
use crate::paths::{extension_of, raw_extension};

verus! {

#[derive(Clone, Copy, Debug, PartialEq, Eq, Structural)]
pub enum MediaKind {
    Image,
    Video,
    Unrecognized,
}

/// `c` is `w`, or the upper-case ASCII letter of `w`.
pub open spec fn same_letter(c: char, w: char) -> bool {
    c == w || ('A' <= c && c <= 'Z' && (c as u32) + 32 == w as u32)
}

/// `e` equals the lower-case word `w` once its ASCII letters are lowered.
pub open spec fn eq_ignoring_case(e: Seq<char>, w: Seq<char>) -> bool {
    e.len() == w.len() && forall|k: int| 0 <= k < e.len() ==> same_letter(e[k], w[k])
}

/// `avif`, `jpg`, `jpeg`, `png`, `gif` or `webp`, in any case.
pub open spec fn is_image_ext(e: Seq<char>) -> bool {
    eq_ignoring_case(e, seq!['a', 'v', 'i', 'f']) || eq_ignoring_case(e, seq!['j', 'p', 'g'])
        || eq_ignoring_case(e, seq!['j', 'p', 'e', 'g']) || eq_ignoring_case(e, seq!['p', 'n', 'g'])
        || eq_ignoring_case(e, seq!['g', 'i', 'f']) || eq_ignoring_case(e, seq!['w', 'e', 'b', 'p'])
}

/// `mp4`, in any case.
pub open spec fn is_video_ext(e: Seq<char>) -> bool {
    eq_ignoring_case(e, seq!['m', 'p', '4'])
}

pub open spec fn kind_of_ext(e: Seq<char>) -> MediaKind {
    if is_image_ext(e) {
        MediaKind::Image
    } else if is_video_ext(e) {
        MediaKind::Video
    } else {
        MediaKind::Unrecognized
    }
}

/// The kind of a file, from its extension. The recognised extensions are
/// ASCII, so lowering ASCII letters is all that lowering the case does to
/// an extension that can match.
pub open spec fn kind_of(p: Seq<char>) -> MediaKind {
    match extension_of(p) {
        Some(x) => kind_of_ext(x),
        None => MediaKind::Unrecognized,
    }
}

fn is_same_letter(c: char, w: char) -> (r: bool)
    ensures
        r == same_letter(c, w),
{
    c == w || ('A' <= c && c <= 'Z' && (c as u32) + 32 == w as u32)
}

fn matches_word(e: &str, w: &str) -> (r: bool)
    ensures
        r == eq_ignoring_case(e@, w@),
{
    let n = e.unicode_len();
    if n != w.unicode_len() {
        return false;
    }
    let mut i: usize = 0;
    while i < n
        invariant
            n == e@.len(),
            n == w@.len(),
            i <= n,
            forall|k: int| 0 <= k < i ==> same_letter(e@[k], w@[k]),
        decreases n - i,
    {
        if !is_same_letter(e.get_char(i), w.get_char(i)) {
            return false;
        }
        i = i + 1;
    }
    true
}

fn kind_of_extension(e: &str) -> (r: MediaKind)
    ensures
        r == kind_of_ext(e@),
{
    proof {
        reveal_strlit("avif");
        reveal_strlit("jpg");
        reveal_strlit("jpeg");
        reveal_strlit("png");
        reveal_strlit("gif");
        reveal_strlit("webp");
        reveal_strlit("mp4");
        assert("avif"@ =~= seq!['a', 'v', 'i', 'f']);
        assert("jpg"@ =~= seq!['j', 'p', 'g']);
        assert("jpeg"@ =~= seq!['j', 'p', 'e', 'g']);
        assert("png"@ =~= seq!['p', 'n', 'g']);
        assert("gif"@ =~= seq!['g', 'i', 'f']);
        assert("webp"@ =~= seq!['w', 'e', 'b', 'p']);
        assert("mp4"@ =~= seq!['m', 'p', '4']);
    }
    if matches_word(e, "avif") || matches_word(e, "jpg") || matches_word(e, "jpeg")
        || matches_word(e, "png") || matches_word(e, "gif") || matches_word(e, "webp") {
        MediaKind::Image
    } else if matches_word(e, "mp4") {
        MediaKind::Video
    } else {
        MediaKind::Unrecognized
    }
}

/// Image, video or neither, by the extension.
pub fn classify(file_path: &str) -> (r: MediaKind)
    ensures
        r == kind_of(file_path@),
{
    match raw_extension(file_path) {
        Some(e) => kind_of_extension(e.as_str()),
        None => MediaKind::Unrecognized,
    }
}

/// The extension of an image file, as written; none for any other file.
pub fn get_valid_image_extension(file_path: &str) -> (r: Option<String>)
    ensures
        r is Some <==> kind_of(file_path@) == MediaKind::Image,
        r matches Some(e) ==> extension_of(file_path@) matches Some(x) && e@ == x,
{
    if classify(file_path) == MediaKind::Image {
        raw_extension(file_path)
    } else {
        None
    }
}

/// The extension of a video file, as written; none for any other file.
pub fn get_valid_video_extension(file_path: &str) -> (r: Option<String>)
    ensures
        r is Some <==> kind_of(file_path@) == MediaKind::Video,
        r matches Some(e) ==> extension_of(file_path@) matches Some(x) && e@ == x,
{
    if classify(file_path) == MediaKind::Video {
        raw_extension(file_path)
    } else {
        None
    }
}

/// Whether the file is an image or a video.
pub fn has_valid_extension(file_path: &str) -> (r: bool)
    ensures
        r == (kind_of(file_path@) != MediaKind::Unrecognized),
{
    classify(file_path) != MediaKind::Unrecognized
}

} // verus!
