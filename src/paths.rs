//! Paths of the rendered outputs, as text.
//!
//! The library names files by `String` paths. What a path's file name, stem
//! or parent is, and how two paths join, is decided by `std::path` for the
//! platform the library is built for; the functions below hand that work to
//! `std::path` and name each result.
use vstd::prelude::*;
use vstd::utf8::{decode_utf8, valid_utf8};

use crate::output::MediaError;

verus! {

/// What `Path::join` gives for `base` joined with `p`.
pub uninterp spec fn joined_path(base: Seq<char>, p: Seq<char>) -> Seq<char>;

/// What `Path::file_stem` gives for `p`: the file name without its last
/// extension, if `p` has a file name.
pub uninterp spec fn file_stem_of(p: Seq<char>) -> Option<Seq<char>>;

/// What `Path::file_name` gives for `p`: its last normal component, if any.
pub uninterp spec fn file_name_of(p: Seq<char>) -> Option<Seq<char>>;

/// What `Path::with_file_name` gives: `p` with its file name replaced by
/// `name`.
pub uninterp spec fn with_file_name_of(p: Seq<char>, name: Seq<char>) -> Seq<char>;

/// What `Path::is_absolute` says of `p`.
pub uninterp spec fn is_absolute_path(p: Seq<char>) -> bool;

/// Relies on `Path::join`, which depends on its two arguments alone.
#[verifier::external_body]
pub(crate) fn join_path(base: &str, p: &str) -> (r: String)
    ensures
        r@ == joined_path(base@, p@),
{
    std::path::Path::new(base).join(p).to_string_lossy().into_owned()
}

/// Relies on `Path::file_stem`, which depends on its argument alone.
#[verifier::external_body]
fn path_file_stem(p: &str) -> (r: Option<String>)
    ensures
        r.deep_view() == file_stem_of(p@),
{
    std::path::Path::new(p).file_stem().map(|s| s.to_string_lossy().into_owned())
}

/// Relies on `Path::file_name`, which depends on its argument alone.
#[verifier::external_body]
pub(crate) fn path_file_name(p: &str) -> (r: Option<String>)
    ensures
        r.deep_view() == file_name_of(p@),
{
    std::path::Path::new(p).file_name().map(|s| s.to_string_lossy().into_owned())
}

/// Relies on `Path::with_file_name`, which depends on its arguments alone.
#[verifier::external_body]
fn path_with_file_name(p: &str, name: &str) -> (r: String)
    ensures
        r@ == with_file_name_of(p@, name@),
{
    std::path::Path::new(p).with_file_name(name).to_string_lossy().into_owned()
}

/// Relies on `Path::is_absolute`, which depends on its argument alone.
#[verifier::external_body]
pub(crate) fn path_is_absolute(p: &str) -> (r: bool)
    ensures
        r == is_absolute_path(p@),
{
    std::path::Path::new(p).is_absolute()
}

/// Relies on `std::str::from_utf8`: it succeeds exactly on well-formed
/// UTF-8, and then holds the characters that the bytes encode.
#[verifier::external_body]
fn decode_utf8_bytes(b: &Vec<u8>) -> (r: Option<String>)
    ensures
        r is Some <==> valid_utf8(b@),
        r matches Some(s) ==> s@ == decode_utf8(b@),
{
    std::str::from_utf8(b.as_slice()).ok().map(|s| s.to_string())
}

/// The text of a path given as its raw bytes; an error where the bytes are
/// not UTF-8.
pub fn path_as_str(path: &Vec<u8>) -> (r: Result<String, MediaError>)
    ensures
        r is Ok <==> valid_utf8(path@),
        r matches Ok(s) ==> s@ == decode_utf8(path@),
        r matches Err(e) ==> e == MediaError::NonUtf8Path,
{
    match decode_utf8_bytes(path) {
        Some(s) => Ok(s),
        None => Err(MediaError::NonUtf8Path),
    }
}

/// The file name stem used for the frame list of a video, with a fallback
/// for an output path without a file name.
pub open spec fn frame_list_stem(output_path: Seq<char>) -> Seq<char> {
    match file_stem_of(output_path) {
        Some(stem) => stem,
        None => "frames"@,
    }
}

/// The frame list sits beside the video: `<stem>_frames.txt`.
pub open spec fn frame_list_path(output_path: Seq<char>) -> Seq<char> {
    with_file_name_of(output_path, frame_list_stem(output_path) + "_frames.txt"@)
}

/// Path of the frame list that the video encoder reads, beside the video
/// at `output_path`.
pub fn concat_list_path(output_path: &str) -> (r: String)
    ensures
        r@ == frame_list_path(output_path@),
{
    let stem = match path_file_stem(output_path) {
        Some(s) => s,
        None => String::from_str("frames"),
    };
    let filename = stem.concat("_frames.txt");
    path_with_file_name(output_path, filename.as_str())
}

/// `path` taken relative to `output_dir`: where an output file named
/// `path` is written, and where a preview page in `output_dir` finds the
/// media file `path`.
pub fn path_in_dir(output_dir: &str, path: &str) -> (r: String)
    ensures
        r@ == joined_path(output_dir@, path@),
{
    join_path(output_dir, path)
}

} // verus!
