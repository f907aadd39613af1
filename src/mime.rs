//! File extension to MIME type lookup.

use vstd::prelude::*;
use vstd::string::*;
use crate::text::{find_last, lower_of, lowercase, str_eq, last_index_of, lemma_last_index_bounds};

verus! {

/// The text after the last `.` of a file name, or the whole name when it has no `.`.
pub open spec fn extension_of(name: Seq<char>) -> Seq<char> {
    name.subrange(last_index_of(name, '.') + 1, name.len() as int)
}

/// The MIME type registered for a lower-case extension.
pub open spec fn mime_of_extension(ext: Seq<char>) -> Seq<char> {
    if ext == "png"@ {
        "image/png"@
    } else if ext == "jpg"@ || ext == "jpeg"@ {
        "image/jpeg"@
    } else if ext == "gif"@ {
        "image/gif"@
    } else if ext == "webp"@ {
        "image/webp"@
    } else if ext == "svg"@ {
        "image/svg+xml"@
    } else if ext == "pdf"@ {
        "application/pdf"@
    } else if ext == "json"@ {
        "application/json"@
    } else if ext == "csv"@ {
        "text/csv"@
    } else if ext == "txt"@ {
        "text/plain"@
    } else if ext == "html"@ || ext == "htm"@ {
        "text/html"@
    } else if ext == "mp4"@ {
        "video/mp4"@
    } else if ext == "mp3"@ {
        "audio/mpeg"@
    } else if ext == "zip"@ {
        "application/zip"@
    } else if ext == "doc"@ {
        "application/msword"@
    } else if ext == "docx"@ {
        "application/vnd.openxmlformats-officedocument.wordprocessingml.document"@
    } else if ext == "xls"@ {
        "application/vnd.ms-excel"@
    } else if ext == "xlsx"@ {
        "application/vnd.openxmlformats-officedocument.spreadsheetml.sheet"@
    } else {
        "application/octet-stream"@
    }
}

/// The MIME type that a file name is sent with: its extension, matched without
/// regard to case.
pub open spec fn mime_of_filename(name: Seq<char>) -> Seq<char> {
    mime_of_extension(lower_of(extension_of(name)))
}

/// The extension of a file name: the text after its last `.`, or the whole
/// name when it has none.
pub fn extension(filename: &str) -> (r: &str)
    ensures
        r@ == extension_of(filename@),
{
    proof {
        lemma_last_index_bounds(filename@, '.');
    }
    let n = filename.unicode_len();
    match find_last(filename, '.') {
        Some(i) => filename.substring_char(i + 1, n),
        None => filename.substring_char(0, n),
    }
}

/// Looks up the MIME type of an extension that is already in lower case.
pub fn mime_for_extension(ext: &str) -> (r: &'static str)
    ensures
        r@ == mime_of_extension(ext@),
{
    if str_eq(ext, "png") {
        "image/png"
    } else if str_eq(ext, "jpg") || str_eq(ext, "jpeg") {
        "image/jpeg"
    } else if str_eq(ext, "gif") {
        "image/gif"
    } else if str_eq(ext, "webp") {
        "image/webp"
    } else if str_eq(ext, "svg") {
        "image/svg+xml"
    } else if str_eq(ext, "pdf") {
        "application/pdf"
    } else if str_eq(ext, "json") {
        "application/json"
    } else if str_eq(ext, "csv") {
        "text/csv"
    } else if str_eq(ext, "txt") {
        "text/plain"
    } else if str_eq(ext, "html") || str_eq(ext, "htm") {
        "text/html"
    } else if str_eq(ext, "mp4") {
        "video/mp4"
    } else if str_eq(ext, "mp3") {
        "audio/mpeg"
    } else if str_eq(ext, "zip") {
        "application/zip"
    } else if str_eq(ext, "doc") {
        "application/msword"
    } else if str_eq(ext, "docx") {
        "application/vnd.openxmlformats-officedocument.wordprocessingml.document"
    } else if str_eq(ext, "xls") {
        "application/vnd.ms-excel"
    } else if str_eq(ext, "xlsx") {
        "application/vnd.openxmlformats-officedocument.spreadsheetml.sheet"
    } else {
        "application/octet-stream"
    }
}

/// The MIME type for a file name, from its extension in any case;
/// `application/octet-stream` for an extension outside the table.
pub fn mime_from_filename(filename: &str) -> (r: String)
    ensures
        r@ == mime_of_filename(filename@),
{
    let ext = lowercase(extension(filename));
    String::from_str(mime_for_extension(ext.as_str()))
}

} // verus!
