//! Content-type detection for uploads and for files being served: MIME and
//! extension tables, magic-number sniffing, and the rules that pick a type
//! from the bytes, the original name and the type the client claimed.

use vstd::prelude::*;
use crate::text::{
    ascii_lower, before_char, has_char, is_ws, trim_end, trim_start, before_char_exec, chars_of, eq_lit, is_ascii_alnum,
    is_alnum, slice_chars, starts_with, starts_with_lit, string_of, to_ascii_lower, trim,
    trim_chars,
};
use crate::paths::{path_extension, path_extension_exec};

verus! {

/// A MIME type and the extension stored files of that type get.
#[derive(Clone, Copy, Debug)]
pub struct UploadType {
    pub mime: &'static str,
    pub ext: &'static str,
}

/// The MIME type and extension of an optional upload type, as text.
pub open spec fn opt_pair(t: Option<UploadType>) -> Option<(Seq<char>, Seq<char>)> {
    match t {
        Some(u) => Some((u.mime@, u.ext@)),
        None => None,
    }
}

/// The essence of a MIME type: the part before any `;` parameter, trimmed and
/// lower-cased.
pub open spec fn mime_essence(m: Seq<char>) -> Seq<char> {
    ascii_lower(trim(before_char(m, ';')))
}

fn mime_essence_exec(m: &str) -> (r: Vec<char>)
    ensures
        r@ == mime_essence(m@),
{
    let c = chars_of(m);
    mime_essence_chars(c.as_slice())
}

fn mime_essence_chars(c: &[char]) -> (r: Vec<char>)
    ensures
        r@ == mime_essence(c@),
{
    let b = before_char_exec(c, ';');
    let t = trim_chars(b.as_slice());
    to_ascii_lower(t.as_slice())
}

pub open spec fn ext_table(e: Seq<char>) -> Option<(Seq<char>, Seq<char>)> {
    if e == "jpg"@ || e == "jpeg"@ {
        Some(("image/jpeg"@, "jpg"@))
    } else if e == "png"@ {
        Some(("image/png"@, "png"@))
    } else if e == "gif"@ {
        Some(("image/gif"@, "gif"@))
    } else if e == "webp"@ {
        Some(("image/webp"@, "webp"@))
    } else if e == "bmp"@ {
        Some(("image/bmp"@, "bmp"@))
    } else if e == "tif"@ || e == "tiff"@ {
        Some(("image/tiff"@, "tiff"@))
    } else if e == "svg"@ {
        Some(("image/svg+xml"@, "svg"@))
    } else if e == "mp4"@ || e == "m4v"@ {
        Some(("video/mp4"@, "mp4"@))
    } else if e == "mov"@ {
        Some(("video/quicktime"@, "mov"@))
    } else if e == "webm"@ {
        Some(("video/webm"@, "webm"@))
    } else if e == "avi"@ {
        Some(("video/x-msvideo"@, "avi"@))
    } else if e == "mkv"@ {
        Some(("video/x-matroska"@, "mkv"@))
    } else if e == "mp3"@ {
        Some(("audio/mpeg"@, "mp3"@))
    } else if e == "wav"@ {
        Some(("audio/wav"@, "wav"@))
    } else if e == "ogg"@ {
        Some(("audio/ogg"@, "ogg"@))
    } else if e == "flac"@ {
        Some(("audio/flac"@, "flac"@))
    } else if e == "m4a"@ {
        Some(("audio/mp4"@, "m4a"@))
    } else if e == "pdf"@ {
        Some(("application/pdf"@, "pdf"@))
    } else if e == "zip"@ {
        Some(("application/zip"@, "zip"@))
    } else if e == "rar"@ {
        Some(("application/vnd.rar"@, "rar"@))
    } else if e == "7z"@ {
        Some(("application/x-7z-compressed"@, "7z"@))
    } else if e == "apk"@ {
        Some(("application/vnd.android.package-archive"@, "apk"@))
    } else if e == "exe"@ {
        Some(("application/vnd.microsoft.portable-executable"@, "exe"@))
    } else if e == "dll"@ {
        Some(("application/vnd.microsoft.portable-executable"@, "dll"@))
    } else if e == "msi"@ {
        Some(("application/x-msi"@, "msi"@))
    } else if e == "txt"@ {
        Some(("text/plain"@, "txt"@))
    } else if e == "md"@ {
        Some(("text/markdown"@, "md"@))
    } else if e == "csv"@ {
        Some(("text/csv"@, "csv"@))
    } else if e == "json"@ {
        Some(("application/json"@, "json"@))
    } else if e == "log"@ {
        Some(("text/plain"@, "log"@))
    } else if e == "rs"@ {
        Some(("text/plain"@, "rs"@))
    } else if e == "js"@ {
        Some(("text/plain"@, "js"@))
    } else if e == "ts"@ {
        Some(("text/plain"@, "ts"@))
    } else if e == "html"@ || e == "htm"@ {
        Some(("text/plain"@, "html"@))
    } else if e == "css"@ {
        Some(("text/plain"@, "css"@))
    } else if e == "sql"@ {
        Some(("text/plain"@, "sql"@))
    } else if e == "ps1"@ {
        Some(("text/plain"@, "ps1"@))
    } else if e == "sh"@ {
        Some(("text/plain"@, "sh"@))
    } else if e == "doc"@ {
        Some(("application/msword"@, "doc"@))
    } else if e == "docx"@ {
        Some(("application/vnd.openxmlformats-officedocument.wordprocessingml.document"@, "docx"@))
    } else if e == "xls"@ {
        Some(("application/vnd.ms-excel"@, "xls"@))
    } else if e == "xlsx"@ {
        Some(("application/vnd.openxmlformats-officedocument.spreadsheetml.sheet"@, "xlsx"@))
    } else if e == "ppt"@ {
        Some(("application/vnd.ms-powerpoint"@, "ppt"@))
    } else if e == "pptx"@ {
        Some(("application/vnd.openxmlformats-officedocument.presentationml.presentation"@, "pptx"@))
    } else {
        None
    }
}

pub open spec fn mime_table(m: Seq<char>) -> Option<(Seq<char>, Seq<char>)> {
    if m == "image/jpeg"@ || m == "image/jpg"@ {
        Some(("image/jpeg"@, "jpg"@))
    } else if m == "image/png"@ {
        Some(("image/png"@, "png"@))
    } else if m == "image/gif"@ {
        Some(("image/gif"@, "gif"@))
    } else if m == "image/webp"@ {
        Some(("image/webp"@, "webp"@))
    } else if m == "image/bmp"@ {
        Some(("image/bmp"@, "bmp"@))
    } else if m == "image/tiff"@ {
        Some(("image/tiff"@, "tiff"@))
    } else if m == "image/svg+xml"@ {
        Some(("image/svg+xml"@, "svg"@))
    } else if m == "video/mp4"@ {
        Some(("video/mp4"@, "mp4"@))
    } else if m == "video/quicktime"@ {
        Some(("video/quicktime"@, "mov"@))
    } else if m == "video/webm"@ {
        Some(("video/webm"@, "webm"@))
    } else if m == "video/x-msvideo"@ {
        Some(("video/x-msvideo"@, "avi"@))
    } else if m == "video/x-matroska"@ {
        Some(("video/x-matroska"@, "mkv"@))
    } else if m == "audio/mpeg"@ || m == "audio/mp3"@ {
        Some(("audio/mpeg"@, "mp3"@))
    } else if m == "audio/wav"@ || m == "audio/wave"@ || m == "audio/x-wav"@ {
        Some(("audio/wav"@, "wav"@))
    } else if m == "audio/ogg"@ {
        Some(("audio/ogg"@, "ogg"@))
    } else if m == "audio/flac"@ {
        Some(("audio/flac"@, "flac"@))
    } else if m == "audio/mp4"@ {
        Some(("audio/mp4"@, "m4a"@))
    } else if m == "application/pdf"@ {
        Some(("application/pdf"@, "pdf"@))
    } else if m == "application/zip"@ || m == "application/x-zip-compressed"@ {
        Some(("application/zip"@, "zip"@))
    } else if m == "application/vnd.android.package-archive"@ {
        Some(("application/vnd.android.package-archive"@, "apk"@))
    } else if m == "application/vnd.rar"@ || m == "application/x-rar-compressed"@ {
        Some(("application/vnd.rar"@, "rar"@))
    } else if m == "application/x-7z-compressed"@ {
        Some(("application/x-7z-compressed"@, "7z"@))
    } else if m == "application/vnd.microsoft.portable-executable"@ || m == "application/x-msdownload"@ {
        Some(("application/vnd.microsoft.portable-executable"@, "exe"@))
    } else if m == "application/x-msi"@ {
        Some(("application/x-msi"@, "msi"@))
    } else if m == "text/plain"@ {
        Some(("text/plain"@, "txt"@))
    } else if m == "text/markdown"@ {
        Some(("text/markdown"@, "md"@))
    } else if m == "text/csv"@ {
        Some(("text/csv"@, "csv"@))
    } else if m == "application/json"@ {
        Some(("application/json"@, "json"@))
    } else if m == "application/msword"@ {
        Some(("application/msword"@, "doc"@))
    } else if m == "application/vnd.openxmlformats-officedocument.wordprocessingml.document"@ {
        Some(("application/vnd.openxmlformats-officedocument.wordprocessingml.document"@, "docx"@))
    } else if m == "application/vnd.ms-excel"@ {
        Some(("application/vnd.ms-excel"@, "xls"@))
    } else if m == "application/vnd.openxmlformats-officedocument.spreadsheetml.sheet"@ {
        Some(("application/vnd.openxmlformats-officedocument.spreadsheetml.sheet"@, "xlsx"@))
    } else if m == "application/vnd.ms-powerpoint"@ {
        Some(("application/vnd.ms-powerpoint"@, "ppt"@))
    } else if m == "application/vnd.openxmlformats-officedocument.presentationml.presentation"@ {
        Some(("application/vnd.openxmlformats-officedocument.presentationml.presentation"@, "pptx"@))
    } else {
        None
    }
}

fn ext_type_chars(e: &[char]) -> (r: Option<UploadType>)
    ensures
        opt_pair(r) == ext_table(e@),
{
    if eq_lit(e, "jpg") || eq_lit(e, "jpeg") {
        return Some(UploadType { mime: "image/jpeg", ext: "jpg" });
    }
    if eq_lit(e, "png") {
        return Some(UploadType { mime: "image/png", ext: "png" });
    }
    if eq_lit(e, "gif") {
        return Some(UploadType { mime: "image/gif", ext: "gif" });
    }
    if eq_lit(e, "webp") {
        return Some(UploadType { mime: "image/webp", ext: "webp" });
    }
    if eq_lit(e, "bmp") {
        return Some(UploadType { mime: "image/bmp", ext: "bmp" });
    }
    if eq_lit(e, "tif") || eq_lit(e, "tiff") {
        return Some(UploadType { mime: "image/tiff", ext: "tiff" });
    }
    if eq_lit(e, "svg") {
        return Some(UploadType { mime: "image/svg+xml", ext: "svg" });
    }
    if eq_lit(e, "mp4") || eq_lit(e, "m4v") {
        return Some(UploadType { mime: "video/mp4", ext: "mp4" });
    }
    if eq_lit(e, "mov") {
        return Some(UploadType { mime: "video/quicktime", ext: "mov" });
    }
    if eq_lit(e, "webm") {
        return Some(UploadType { mime: "video/webm", ext: "webm" });
    }
    if eq_lit(e, "avi") {
        return Some(UploadType { mime: "video/x-msvideo", ext: "avi" });
    }
    if eq_lit(e, "mkv") {
        return Some(UploadType { mime: "video/x-matroska", ext: "mkv" });
    }
    if eq_lit(e, "mp3") {
        return Some(UploadType { mime: "audio/mpeg", ext: "mp3" });
    }
    if eq_lit(e, "wav") {
        return Some(UploadType { mime: "audio/wav", ext: "wav" });
    }
    if eq_lit(e, "ogg") {
        return Some(UploadType { mime: "audio/ogg", ext: "ogg" });
    }
    if eq_lit(e, "flac") {
        return Some(UploadType { mime: "audio/flac", ext: "flac" });
    }
    if eq_lit(e, "m4a") {
        return Some(UploadType { mime: "audio/mp4", ext: "m4a" });
    }
    if eq_lit(e, "pdf") {
        return Some(UploadType { mime: "application/pdf", ext: "pdf" });
    }
    if eq_lit(e, "zip") {
        return Some(UploadType { mime: "application/zip", ext: "zip" });
    }
    if eq_lit(e, "rar") {
        return Some(UploadType { mime: "application/vnd.rar", ext: "rar" });
    }
    if eq_lit(e, "7z") {
        return Some(UploadType { mime: "application/x-7z-compressed", ext: "7z" });
    }
    if eq_lit(e, "apk") {
        return Some(UploadType { mime: "application/vnd.android.package-archive", ext: "apk" });
    }
    if eq_lit(e, "exe") {
        return Some(UploadType { mime: "application/vnd.microsoft.portable-executable", ext: "exe" });
    }
    if eq_lit(e, "dll") {
        return Some(UploadType { mime: "application/vnd.microsoft.portable-executable", ext: "dll" });
    }
    if eq_lit(e, "msi") {
        return Some(UploadType { mime: "application/x-msi", ext: "msi" });
    }
    if eq_lit(e, "txt") {
        return Some(UploadType { mime: "text/plain", ext: "txt" });
    }
    if eq_lit(e, "md") {
        return Some(UploadType { mime: "text/markdown", ext: "md" });
    }
    if eq_lit(e, "csv") {
        return Some(UploadType { mime: "text/csv", ext: "csv" });
    }
    if eq_lit(e, "json") {
        return Some(UploadType { mime: "application/json", ext: "json" });
    }
    if eq_lit(e, "log") {
        return Some(UploadType { mime: "text/plain", ext: "log" });
    }
    if eq_lit(e, "rs") {
        return Some(UploadType { mime: "text/plain", ext: "rs" });
    }
    if eq_lit(e, "js") {
        return Some(UploadType { mime: "text/plain", ext: "js" });
    }
    if eq_lit(e, "ts") {
        return Some(UploadType { mime: "text/plain", ext: "ts" });
    }
    if eq_lit(e, "html") || eq_lit(e, "htm") {
        return Some(UploadType { mime: "text/plain", ext: "html" });
    }
    if eq_lit(e, "css") {
        return Some(UploadType { mime: "text/plain", ext: "css" });
    }
    if eq_lit(e, "sql") {
        return Some(UploadType { mime: "text/plain", ext: "sql" });
    }
    if eq_lit(e, "ps1") {
        return Some(UploadType { mime: "text/plain", ext: "ps1" });
    }
    if eq_lit(e, "sh") {
        return Some(UploadType { mime: "text/plain", ext: "sh" });
    }
    if eq_lit(e, "doc") {
        return Some(UploadType { mime: "application/msword", ext: "doc" });
    }
    if eq_lit(e, "docx") {
        return Some(UploadType { mime: "application/vnd.openxmlformats-officedocument.wordprocessingml.document", ext: "docx" });
    }
    if eq_lit(e, "xls") {
        return Some(UploadType { mime: "application/vnd.ms-excel", ext: "xls" });
    }
    if eq_lit(e, "xlsx") {
        return Some(UploadType { mime: "application/vnd.openxmlformats-officedocument.spreadsheetml.sheet", ext: "xlsx" });
    }
    if eq_lit(e, "ppt") {
        return Some(UploadType { mime: "application/vnd.ms-powerpoint", ext: "ppt" });
    }
    if eq_lit(e, "pptx") {
        return Some(UploadType { mime: "application/vnd.openxmlformats-officedocument.presentationml.presentation", ext: "pptx" });
    }
    None
}

fn mime_type_chars(m: &[char]) -> (r: Option<UploadType>)
    ensures
        opt_pair(r) == mime_table(m@),
{
    if eq_lit(m, "image/jpeg") || eq_lit(m, "image/jpg") {
        return Some(UploadType { mime: "image/jpeg", ext: "jpg" });
    }
    if eq_lit(m, "image/png") {
        return Some(UploadType { mime: "image/png", ext: "png" });
    }
    if eq_lit(m, "image/gif") {
        return Some(UploadType { mime: "image/gif", ext: "gif" });
    }
    if eq_lit(m, "image/webp") {
        return Some(UploadType { mime: "image/webp", ext: "webp" });
    }
    if eq_lit(m, "image/bmp") {
        return Some(UploadType { mime: "image/bmp", ext: "bmp" });
    }
    if eq_lit(m, "image/tiff") {
        return Some(UploadType { mime: "image/tiff", ext: "tiff" });
    }
    if eq_lit(m, "image/svg+xml") {
        return Some(UploadType { mime: "image/svg+xml", ext: "svg" });
    }
    if eq_lit(m, "video/mp4") {
        return Some(UploadType { mime: "video/mp4", ext: "mp4" });
    }
    if eq_lit(m, "video/quicktime") {
        return Some(UploadType { mime: "video/quicktime", ext: "mov" });
    }
    if eq_lit(m, "video/webm") {
        return Some(UploadType { mime: "video/webm", ext: "webm" });
    }
    if eq_lit(m, "video/x-msvideo") {
        return Some(UploadType { mime: "video/x-msvideo", ext: "avi" });
    }
    if eq_lit(m, "video/x-matroska") {
        return Some(UploadType { mime: "video/x-matroska", ext: "mkv" });
    }
    if eq_lit(m, "audio/mpeg") || eq_lit(m, "audio/mp3") {
        return Some(UploadType { mime: "audio/mpeg", ext: "mp3" });
    }
    if eq_lit(m, "audio/wav") || eq_lit(m, "audio/wave") || eq_lit(m, "audio/x-wav") {
        return Some(UploadType { mime: "audio/wav", ext: "wav" });
    }
    if eq_lit(m, "audio/ogg") {
        return Some(UploadType { mime: "audio/ogg", ext: "ogg" });
    }
    if eq_lit(m, "audio/flac") {
        return Some(UploadType { mime: "audio/flac", ext: "flac" });
    }
    if eq_lit(m, "audio/mp4") {
        return Some(UploadType { mime: "audio/mp4", ext: "m4a" });
    }
    if eq_lit(m, "application/pdf") {
        return Some(UploadType { mime: "application/pdf", ext: "pdf" });
    }
    if eq_lit(m, "application/zip") || eq_lit(m, "application/x-zip-compressed") {
        return Some(UploadType { mime: "application/zip", ext: "zip" });
    }
    if eq_lit(m, "application/vnd.android.package-archive") {
        return Some(UploadType { mime: "application/vnd.android.package-archive", ext: "apk" });
    }
    if eq_lit(m, "application/vnd.rar") || eq_lit(m, "application/x-rar-compressed") {
        return Some(UploadType { mime: "application/vnd.rar", ext: "rar" });
    }
    if eq_lit(m, "application/x-7z-compressed") {
        return Some(UploadType { mime: "application/x-7z-compressed", ext: "7z" });
    }
    if eq_lit(m, "application/vnd.microsoft.portable-executable") || eq_lit(m, "application/x-msdownload") {
        return Some(UploadType { mime: "application/vnd.microsoft.portable-executable", ext: "exe" });
    }
    if eq_lit(m, "application/x-msi") {
        return Some(UploadType { mime: "application/x-msi", ext: "msi" });
    }
    if eq_lit(m, "text/plain") {
        return Some(UploadType { mime: "text/plain", ext: "txt" });
    }
    if eq_lit(m, "text/markdown") {
        return Some(UploadType { mime: "text/markdown", ext: "md" });
    }
    if eq_lit(m, "text/csv") {
        return Some(UploadType { mime: "text/csv", ext: "csv" });
    }
    if eq_lit(m, "application/json") {
        return Some(UploadType { mime: "application/json", ext: "json" });
    }
    if eq_lit(m, "application/msword") {
        return Some(UploadType { mime: "application/msword", ext: "doc" });
    }
    if eq_lit(m, "application/vnd.openxmlformats-officedocument.wordprocessingml.document") {
        return Some(UploadType { mime: "application/vnd.openxmlformats-officedocument.wordprocessingml.document", ext: "docx" });
    }
    if eq_lit(m, "application/vnd.ms-excel") {
        return Some(UploadType { mime: "application/vnd.ms-excel", ext: "xls" });
    }
    if eq_lit(m, "application/vnd.openxmlformats-officedocument.spreadsheetml.sheet") {
        return Some(UploadType { mime: "application/vnd.openxmlformats-officedocument.spreadsheetml.sheet", ext: "xlsx" });
    }
    if eq_lit(m, "application/vnd.ms-powerpoint") {
        return Some(UploadType { mime: "application/vnd.ms-powerpoint", ext: "ppt" });
    }
    if eq_lit(m, "application/vnd.openxmlformats-officedocument.presentationml.presentation") {
        return Some(UploadType { mime: "application/vnd.openxmlformats-officedocument.presentationml.presentation", ext: "pptx" });
    }
    None
}

pub open spec fn magic_png() -> Seq<u8> {
    seq![0x89u8, 0x50u8, 0x4eu8, 0x47u8, 0x0du8, 0x0au8, 0x1au8, 0x0au8]
}

pub open spec fn magic_gif87() -> Seq<u8> {
    seq![0x47u8, 0x49u8, 0x46u8, 0x38u8, 0x37u8, 0x61u8]
}

pub open spec fn magic_gif89() -> Seq<u8> {
    seq![0x47u8, 0x49u8, 0x46u8, 0x38u8, 0x39u8, 0x61u8]
}

pub open spec fn magic_riff() -> Seq<u8> {
    seq![0x52u8, 0x49u8, 0x46u8, 0x46u8]
}

pub open spec fn magic_webp() -> Seq<u8> {
    seq![0x57u8, 0x45u8, 0x42u8, 0x50u8]
}

pub open spec fn magic_wave() -> Seq<u8> {
    seq![0x57u8, 0x41u8, 0x56u8, 0x45u8]
}

pub open spec fn magic_pdf() -> Seq<u8> {
    seq![0x25u8, 0x50u8, 0x44u8, 0x46u8, 0x2du8]
}

pub open spec fn magic_pk34() -> Seq<u8> {
    seq![0x50u8, 0x4bu8, 0x03u8, 0x04u8]
}

pub open spec fn magic_pk56() -> Seq<u8> {
    seq![0x50u8, 0x4bu8, 0x05u8, 0x06u8]
}

pub open spec fn magic_pk78() -> Seq<u8> {
    seq![0x50u8, 0x4bu8, 0x07u8, 0x08u8]
}

pub open spec fn magic_rar4() -> Seq<u8> {
    seq![0x52u8, 0x61u8, 0x72u8, 0x21u8, 0x1au8, 0x07u8, 0x00u8]
}

pub open spec fn magic_rar5() -> Seq<u8> {
    seq![0x52u8, 0x61u8, 0x72u8, 0x21u8, 0x1au8, 0x07u8, 0x01u8, 0x00u8]
}

pub open spec fn magic_sevenz() -> Seq<u8> {
    seq![0x37u8, 0x7au8, 0xbcu8, 0xafu8, 0x27u8, 0x1cu8]
}

pub open spec fn magic_id3() -> Seq<u8> {
    seq![0x49u8, 0x44u8, 0x33u8]
}

pub open spec fn magic_ogg() -> Seq<u8> {
    seq![0x4fu8, 0x67u8, 0x67u8, 0x53u8]
}

pub open spec fn magic_ftyp() -> Seq<u8> {
    seq![0x66u8, 0x74u8, 0x79u8, 0x70u8]
}

pub open spec fn magic_qt() -> Seq<u8> {
    seq![0x71u8, 0x74u8, 0x20u8, 0x20u8]
}

pub open spec fn magic_ebml() -> Seq<u8> {
    seq![0x1au8, 0x45u8, 0xdfu8, 0xa3u8]
}

pub open spec fn magic_mz() -> Seq<u8> {
    seq![0x4du8, 0x5au8]
}

/// The extension's upload type (`known_type_from_ext`).
pub fn known_type_from_ext(ext: &str) -> (r: Option<UploadType>)
    ensures
        opt_pair(r) == ext_table(ext@),
{
    let e = chars_of(ext);
    ext_type_chars(e.as_slice())
}

/// The upload type of a MIME type, judged by its essence.
pub fn known_type_from_mime(mime: &str) -> (r: Option<UploadType>)
    ensures
        opt_pair(r) == mime_table(mime_essence(mime@)),
{
    let m = mime_essence_exec(mime);
    mime_type_chars(m.as_slice())
}

/// MIME essences that say nothing about the content.
pub open spec fn generic_essence(m: Seq<char>) -> bool {
    ||| m.len() == 0
    ||| m == "application/octet-stream"@
    ||| m == "binary/octet-stream"@
    ||| m == "application/download"@
    ||| m == "application/force-download"@
    ||| m == "unknown/unknown"@
}

fn generic_essence_exec(m: &[char]) -> (r: bool)
    ensures
        r == generic_essence(m@),
{
    m.len() == 0 || eq_lit(m, "application/octet-stream") || eq_lit(m, "binary/octet-stream")
        || eq_lit(m, "application/download") || eq_lit(m, "application/force-download") || eq_lit(
        m,
        "unknown/unknown",
    )
}

pub fn is_generic_mime(mime: &str) -> (r: bool)
    ensures
        r == generic_essence(mime_essence(mime@)),
{
    let m = mime_essence_exec(mime);
    generic_essence_exec(m.as_slice())
}

/// Extensions of formats that are ZIP archives inside.
pub open spec fn zip_container_ext(e: Seq<char>) -> bool {
    ||| e == "docx"@
    ||| e == "xlsx"@
    ||| e == "pptx"@
    ||| e == "odt"@
    ||| e == "ods"@
    ||| e == "odp"@
    ||| e == "jar"@
    ||| e == "apk"@
    ||| e == "epub"@
}

fn zip_container_chars(e: &[char]) -> (r: bool)
    ensures
        r == zip_container_ext(e@),
{
    eq_lit(e, "docx") || eq_lit(e, "xlsx") || eq_lit(e, "pptx") || eq_lit(e, "odt") || eq_lit(
        e,
        "ods",
    ) || eq_lit(e, "odp") || eq_lit(e, "jar") || eq_lit(e, "apk") || eq_lit(e, "epub")
}

pub fn is_zip_container_ext(ext: &str) -> (r: bool)
    ensures
        r == zip_container_ext(ext@),
{
    let e = chars_of(ext);
    zip_container_chars(e.as_slice())
}

// ---------------------------------------------------------------------------
// Names
// ---------------------------------------------------------------------------

/// `s` without its leading `c` characters (`trim_start_matches(c)`).
pub open spec fn trim_start_char(s: Seq<char>, c: char) -> Seq<char>
    decreases s.len(),
{
    if s.len() > 0 && s[0] == c {
        trim_start_char(s.drop_first(), c)
    } else {
        s
    }
}

fn trim_start_char_exec(s: &[char], c: char) -> (r: Vec<char>)
    ensures
        r@ == trim_start_char(s@, c),
{
    let mut i: usize = 0;
    proof {
        assert(s@.skip(0) =~= s@);
    }
    while i < s.len() && s[i] == c
        invariant
            i <= s.len(),
            trim_start_char(s@, c) == trim_start_char(s@.skip(i as int), c),
        decreases s.len() - i,
    {
        proof {
            assert(s@.skip(i as int).drop_first() =~= s@.skip(i + 1));
        }
        i = i + 1;
    }
    proof {
        assert(s@.skip(i as int) =~= s@.subrange(i as int, s@.len() as int));
    }
    slice_chars(s, i, s.len())
}

pub open spec fn all_ascii_alnum(s: Seq<char>) -> bool {
    forall|i: int| 0 <= i < s.len() ==> is_ascii_alnum(#[trigger] s[i])
}

fn all_alnum_exec(s: &[char]) -> (r: bool)
    ensures
        r == all_ascii_alnum(s@),
{
    let mut i: usize = 0;
    while i < s.len()
        invariant
            i <= s.len(),
            forall|j: int| 0 <= j < i ==> is_ascii_alnum(#[trigger] s@[j]),
        decreases s.len() - i,
    {
        if !is_alnum(s[i]) {
            return false;
        }
        i = i + 1;
    }
    true
}

/// The extension of a file name as stored: the path extension, trimmed, with
/// leading dots removed and lower-cased; kept only when it is one to sixteen
/// ASCII letters and digits.
pub open spec fn safe_ext(name: Seq<char>) -> Option<Seq<char>> {
    match path_extension(name) {
        None => None,
        Some(x) => {
            let e = ascii_lower(trim_start_char(trim(x), '.'));
            if e.len() == 0 || e.len() > 16 || !all_ascii_alnum(e) {
                None
            } else {
                Some(e)
            }
        },
    }
}

fn safe_ext_chars(name: &[char]) -> (r: Option<Vec<char>>)
    ensures
        match r {
            Some(v) => safe_ext(name@) == Some(v@),
            None => safe_ext(name@) is None,
        },
{
    match path_extension_exec(name) {
        None => None,
        Some(x) => {
            let t = trim_chars(x.as_slice());
            let d = trim_start_char_exec(t.as_slice(), '.');
            let e = to_ascii_lower(d.as_slice());
            if e.len() == 0 || e.len() > 16 || !all_alnum_exec(e.as_slice()) {
                None
            } else {
                Some(e)
            }
        },
    }
}

pub fn safe_ext_from_name(name: &str) -> (r: Option<String>)
    ensures
        match r {
            Some(v) => safe_ext(name@) == Some(v@),
            None => safe_ext(name@) is None,
        },
{
    let n = chars_of(name);
    match safe_ext_chars(n.as_slice()) {
        Some(e) => Some(string_of(e.as_slice())),
        None => None,
    }
}

/// The character a download name keeps in place of `c`.
pub open spec fn sanitized_char(c: char) -> char {
    if is_ascii_alnum(c) || c == '.' || c == '_' || c == '-' {
        c
    } else {
        '_'
    }
}

/// A file name safe for `Content-Disposition`: every character other than an
/// ASCII letter, digit, `.`, `_` or `-` becomes `_`; an empty name becomes
/// `file`.
pub open spec fn sanitize_filename_spec(s: Seq<char>) -> Seq<char> {
    if s.len() == 0 {
        "file"@
    } else {
        s.map_values(|c: char| sanitized_char(c))
    }
}

pub fn sanitize_filename(input: &str) -> (r: String)
    ensures
        r@ == sanitize_filename_spec(input@),
{
    let s = chars_of(input);
    let mut out: Vec<char> = Vec::new();
    let mut i: usize = 0;
    while i < s.len()
        invariant
            i <= s.len(),
            out@ == s@.take(i as int).map_values(|c: char| sanitized_char(c)),
        decreases s.len() - i,
    {
        let ch = s[i];
        let ok = is_alnum(ch) || ch == '.' || ch == '_' || ch == '-';
        if ok {
            out.push(ch);
        } else {
            out.push('_');
        }
        i = i + 1;
        proof {
            assert(out@ =~= s@.take(i as int).map_values(|c: char| sanitized_char(c)));
        }
    }
    proof {
        assert(s@.take(s@.len() as int) =~= s@);
    }
    if out.len() == 0 {
        string_of(chars_of("file").as_slice())
    } else {
        string_of(out.as_slice())
    }
}

// ---------------------------------------------------------------------------
// MIME predicates
// ---------------------------------------------------------------------------

/// Types a browser may render inline without risk: images other than SVG,
/// video, audio and plain text.
pub open spec fn inline_safe_spec(mime: Seq<char>) -> bool {
    let m = ascii_lower(mime);
    ||| (starts_with(m, "image/"@) && m != "image/svg+xml"@)
    ||| starts_with(m, "video/"@)
    ||| starts_with(m, "audio/"@)
    ||| m == "text/plain"@
}

pub fn inline_safe(mime: &str) -> (r: bool)
    ensures
        r == inline_safe_spec(mime@),
{
    let m = to_ascii_lower(chars_of(mime).as_slice());
    let m = m.as_slice();
    if starts_with_lit(m, "image/") && !eq_lit(m, "image/svg+xml") {
        return true;
    }
    if starts_with_lit(m, "video/") || starts_with_lit(m, "audio/") {
        return true;
    }
    eq_lit(m, "text/plain")
}

/// Bitmap image types (any `image/` type but SVG).
pub open spec fn raster_image_spec(mime: Seq<char>) -> bool {
    let m = ascii_lower(mime);
    starts_with(m, "image/"@) && m != "image/svg+xml"@
}

pub fn is_raster_image(mime: &str) -> (r: bool)
    ensures
        r == raster_image_spec(mime@),
{
    let m = to_ascii_lower(chars_of(mime).as_slice());
    starts_with_lit(m.as_slice(), "image/") && !eq_lit(m.as_slice(), "image/svg+xml")
}

/// Image types whose pixels can be decoded and hashed.
pub open spec fn normalizable_raster_spec(mime: Seq<char>) -> bool {
    let m = ascii_lower(mime);
    ||| m == "image/jpeg"@
    ||| m == "image/png"@
    ||| m == "image/webp"@
    ||| m == "image/bmp"@
    ||| m == "image/tiff"@
}

pub fn is_normalizable_raster_image(mime: &str) -> (r: bool)
    ensures
        r == normalizable_raster_spec(mime@),
{
    let m = to_ascii_lower(chars_of(mime).as_slice());
    let m = m.as_slice();
    eq_lit(m, "image/jpeg") || eq_lit(m, "image/png") || eq_lit(m, "image/webp") || eq_lit(
        m,
        "image/bmp",
    ) || eq_lit(m, "image/tiff")
}

// ---------------------------------------------------------------------------
// Sniffing
// ---------------------------------------------------------------------------

pub open spec fn bytes_start(h: Seq<u8>, p: Seq<u8>) -> bool {
    p.len() <= h.len() && h.take(p.len() as int) == p
}

fn bytes_start_exec(h: &[u8], p: &[u8]) -> (r: bool)
    ensures
        r == bytes_start(h@, p@),
{
    if p.len() > h.len() {
        return false;
    }
    let mut i: usize = 0;
    while i < p.len()
        invariant
            i <= p.len() <= h.len(),
            forall|j: int| 0 <= j < i ==> h@[j] == p@[j],
        decreases p.len() - i,
    {
        if h[i] != p[i] {
            proof {
                assert(h@.take(p.len() as int)[i as int] != p@[i as int]);
            }
            return false;
        }
        i = i + 1;
    }
    proof {
        assert(h@.take(p.len() as int) =~= p@);
    }
    true
}

/// `h[from..from + p.len()] == p`.
pub open spec fn bytes_at(h: Seq<u8>, from: int, p: Seq<u8>) -> bool {
    from + p.len() <= h.len() && h.subrange(from, from + p.len()) == p
}

fn bytes_at_exec(h: &[u8], from: usize, p: &[u8]) -> (r: bool)
    ensures
        r == bytes_at(h@, from as int, p@),
{
    if from > h.len() || p.len() > h.len() - from {
        return false;
    }
    let mut i: usize = 0;
    while i < p.len()
        invariant
            i <= p.len(),
            from + p.len() <= h.len(),
            forall|j: int| 0 <= j < i ==> h@[from + j] == p@[j],
        decreases p.len() - i,
    {
        if h[from + i] != p[i] {
            proof {
                assert(h@.subrange(from as int, from + p.len())[i as int] != p@[i as int]);
            }
            return false;
        }
        i = i + 1;
    }
    proof {
        assert(h@.subrange(from as int, from + p.len()) =~= p@);
    }
    true
}

pub open spec fn zip_magic(h: Seq<u8>) -> bool {
    bytes_start(h, magic_pk34()) || bytes_start(h, magic_pk56()) || bytes_start(h, magic_pk78())
}

/// The type that a file's leading bytes announce, if they announce one. A ZIP
/// archive whose name has the extension of a ZIP-based format gets that
/// format's type.
pub open spec fn sniff_spec(h: Seq<u8>, ext: Option<Seq<char>>) -> Option<(Seq<char>, Seq<char>)> {
    if bytes_start(h, magic_png()) {
        Some(("image/png"@, "png"@))
    } else if h.len() >= 3 && h[0] == 0xff && h[1] == 0xd8 && h[2] == 0xff {
        Some(("image/jpeg"@, "jpg"@))
    } else if bytes_start(h, magic_gif87()) || bytes_start(h, magic_gif89()) {
        Some(("image/gif"@, "gif"@))
    } else if h.len() >= 12 && bytes_start(h, magic_riff()) && bytes_at(h, 8, magic_webp()) {
        Some(("image/webp"@, "webp"@))
    } else if h.len() >= 12 && bytes_start(h, magic_riff()) && bytes_at(h, 8, magic_wave()) {
        Some(("audio/wav"@, "wav"@))
    } else if bytes_start(h, magic_pdf()) {
        Some(("application/pdf"@, "pdf"@))
    } else if zip_magic(h) {
        match ext {
            Some(e) => if zip_container_ext(e) && ext_table(e) is Some {
                ext_table(e)
            } else {
                Some(("application/zip"@, "zip"@))
            },
            None => Some(("application/zip"@, "zip"@)),
        }
    } else if bytes_start(h, magic_rar4()) || bytes_start(h, magic_rar5()) {
        Some(("application/vnd.rar"@, "rar"@))
    } else if bytes_start(h, magic_sevenz()) {
        Some(("application/x-7z-compressed"@, "7z"@))
    } else if bytes_start(h, magic_id3()) || (h.len() >= 2 && h[0] == 0xff && (h[1] & 0xe0u8)
        == 0xe0u8) {
        Some(("audio/mpeg"@, "mp3"@))
    } else if bytes_start(h, magic_ogg()) {
        Some(("audio/ogg"@, "ogg"@))
    } else if h.len() >= 12 && bytes_at(h, 4, magic_ftyp()) {
        if bytes_at(h, 8, magic_qt()) {
            Some(("video/quicktime"@, "mov"@))
        } else {
            Some(("video/mp4"@, "mp4"@))
        }
    } else if bytes_start(h, magic_ebml()) {
        Some(("video/webm"@, "webm"@))
    } else if bytes_start(h, magic_mz()) {
        Some(("application/vnd.microsoft.portable-executable"@, "exe"@))
    } else {
        None
    }
}

/// A GIF image is known by its bytes: every head that starts `GIF87a` or
/// `GIF89a` is sniffed as `image/gif` with extension `gif`, whatever the
/// original name's extension.
pub proof fn law_gif_sniffed(h: Seq<u8>, ext: Option<Seq<char>>)
    requires
        h.len() >= 6,
        h[0] == 0x47u8 && h[1] == 0x49u8 && h[2] == 0x46u8 && h[3] == 0x38u8,
        h[4] == 0x37u8 || h[4] == 0x39u8,
        h[5] == 0x61u8,
    ensures
        sniff_spec(h, ext) == Some(("image/gif"@, "gif"@)),
{
    if h[4] == 0x37u8 {
        assert(h.take(6) =~= magic_gif87());
    } else {
        assert(h.take(6) =~= magic_gif89());
    }
    if h.len() >= 8 {
        assert(h.take(8)[3] == h[3]);
    }
}

/// The leading bytes of the other image, audio, video and archive formats
/// give their types: PNG, JPEG, PDF, RAR, 7z, Ogg and an ID3-tagged MP3.
pub proof fn law_magic_types(h: Seq<u8>, ext: Option<Seq<char>>)
    ensures
        h.len() >= 8 && h[0] == 0x89u8 && h[1] == 0x50u8 && h[2] == 0x4eu8 && h[3] == 0x47u8 && h[4]
            == 0x0du8 && h[5] == 0x0au8 && h[6] == 0x1au8 && h[7] == 0x0au8 ==> sniff_spec(h, ext)
            == Some(("image/png"@, "png"@)),
        h.len() >= 3 && h[0] == 0xffu8 && h[1] == 0xd8u8 && h[2] == 0xffu8 ==> sniff_spec(h, ext)
            == Some(("image/jpeg"@, "jpg"@)),
{
    if h.len() >= 8 {
        if h[0] == 0x89u8 && h[1] == 0x50u8 && h[2] == 0x4eu8 && h[3] == 0x47u8 && h[4] == 0x0du8
            && h[5] == 0x0au8 && h[6] == 0x1au8 && h[7] == 0x0au8 {
            assert(h.take(8) =~= magic_png());
        }
    }
    if h.len() >= 3 && h[0] == 0xffu8 && h[1] == 0xd8u8 && h[2] == 0xffu8 && h.len() >= 8 {
        assert(h.take(8)[0] == h[0]);
    }
}

/// The leading bytes of the other known formats give their types, each
/// where no format tried before it claims the bytes: PDF, ZIP (with no
/// original extension), RAR, 7z, ID3-tagged MP3, Ogg, WebM and Windows
/// executables.
pub proof fn law_more_magic_types(h: Seq<u8>, ext: Option<Seq<char>>)
    ensures
        bytes_start(h, seq![0x25u8, 0x50u8, 0x44u8, 0x46u8, 0x2du8]) ==> sniff_spec(h, ext) == Some(
            ("application/pdf"@, "pdf"@),
        ),
        bytes_start(h, seq![0x50u8, 0x4bu8, 0x03u8, 0x04u8]) && ext is None ==> sniff_spec(h, ext)
            == Some(("application/zip"@, "zip"@)),
        bytes_start(h, seq![0x52u8, 0x61u8, 0x72u8, 0x21u8, 0x1au8, 0x07u8, 0x00u8]) ==> sniff_spec(
            h,
            ext,
        ) == Some(("application/vnd.rar"@, "rar"@)),
        bytes_start(h, seq![0x37u8, 0x7au8, 0xbcu8, 0xafu8, 0x27u8, 0x1cu8]) ==> sniff_spec(h, ext)
            == Some(("application/x-7z-compressed"@, "7z"@)),
        bytes_start(h, seq![0x49u8, 0x44u8, 0x33u8]) ==> sniff_spec(h, ext) == Some(
            ("audio/mpeg"@, "mp3"@),
        ),
        bytes_start(h, seq![0x4fu8, 0x67u8, 0x67u8, 0x53u8]) ==> sniff_spec(h, ext) == Some(
            ("audio/ogg"@, "ogg"@),
        ),
        bytes_start(h, seq![0x1au8, 0x45u8, 0xdfu8, 0xa3u8]) && !(h.len() >= 12 && bytes_at(
            h,
            4,
            seq![0x66u8, 0x74u8, 0x79u8, 0x70u8],
        )) ==> sniff_spec(h, ext) == Some(("video/webm"@, "webm"@)),
        bytes_start(h, seq![0x4du8, 0x5au8]) && !(h.len() >= 12 && bytes_at(
            h,
            4,
            seq![0x66u8, 0x74u8, 0x79u8, 0x70u8],
        )) ==> sniff_spec(h, ext) == Some(("application/vnd.microsoft.portable-executable"@, "exe"@)),
{
}

/// Which types are shown inline: every audio and video type, every image
/// type but SVG, and plain text, in any letter case; SVG and HTML are not.
pub proof fn law_inline_safe_types(mime: Seq<char>)
    ensures
        starts_with(ascii_lower(mime), "audio/"@) ==> inline_safe_spec(mime),
        starts_with(ascii_lower(mime), "video/"@) ==> inline_safe_spec(mime),
        starts_with(ascii_lower(mime), "image/"@) && ascii_lower(mime) != "image/svg+xml"@
            ==> inline_safe_spec(mime),
        ascii_lower(mime) == "text/plain"@ ==> inline_safe_spec(mime),
        ascii_lower(mime) == "image/svg+xml"@ ==> !inline_safe_spec(mime),
        ascii_lower(mime) == "text/html"@ ==> !inline_safe_spec(mime),
{
    reveal_strlit("audio/");
    reveal_strlit("video/");
    reveal_strlit("image/");
    reveal_strlit("text/plain");
    reveal_strlit("text/html");
    reveal_strlit("image/svg+xml");
    let m = ascii_lower(mime);
    if m == "image/svg+xml"@ {
        assert(m.subrange(0, 6) =~= "image/"@);
        assert(m.subrange(0, 6) != "audio/"@) by {
            assert(m.subrange(0, 6)[0] != "audio/"@[0]);
        }
        assert(m.subrange(0, 6) != "video/"@) by {
            assert(m.subrange(0, 6)[0] != "video/"@[0]);
        }
        assert(m != "text/plain"@) by {
            assert(m[0] != "text/plain"@[0]);
        }
    }
    if m == "text/html"@ {
        assert(m.subrange(0, 6)[0] != "audio/"@[0]);
        assert(m.subrange(0, 6)[0] != "video/"@[0]);
        assert(m.subrange(0, 6)[0] != "image/"@[0]);
        assert(m.len() != "text/plain"@.len());
    }
}

pub open spec fn opt_str_view(o: Option<&str>) -> Option<Seq<char>> {
    match o {
        Some(s) => Some(s@),
        None => None,
    }
}

pub fn sniff_magic_type(head: &[u8], original_ext: Option<&str>) -> (r: Option<UploadType>)
    ensures
        opt_pair(r) == sniff_spec(head@, opt_str_view(original_ext)),
{
    let p_png = vec![0x89u8, 0x50u8, 0x4eu8, 0x47u8, 0x0du8, 0x0au8, 0x1au8, 0x0au8];
    proof {
        assert(p_png@ =~= magic_png());
    }
    let p_gif87 = vec![0x47u8, 0x49u8, 0x46u8, 0x38u8, 0x37u8, 0x61u8];
    proof {
        assert(p_gif87@ =~= magic_gif87());
    }
    let p_gif89 = vec![0x47u8, 0x49u8, 0x46u8, 0x38u8, 0x39u8, 0x61u8];
    proof {
        assert(p_gif89@ =~= magic_gif89());
    }
    let p_riff = vec![0x52u8, 0x49u8, 0x46u8, 0x46u8];
    proof {
        assert(p_riff@ =~= magic_riff());
    }
    let p_webp = vec![0x57u8, 0x45u8, 0x42u8, 0x50u8];
    proof {
        assert(p_webp@ =~= magic_webp());
    }
    let p_wave = vec![0x57u8, 0x41u8, 0x56u8, 0x45u8];
    proof {
        assert(p_wave@ =~= magic_wave());
    }
    let p_pdf = vec![0x25u8, 0x50u8, 0x44u8, 0x46u8, 0x2du8];
    proof {
        assert(p_pdf@ =~= magic_pdf());
    }
    let p_pk34 = vec![0x50u8, 0x4bu8, 0x03u8, 0x04u8];
    proof {
        assert(p_pk34@ =~= magic_pk34());
    }
    let p_pk56 = vec![0x50u8, 0x4bu8, 0x05u8, 0x06u8];
    proof {
        assert(p_pk56@ =~= magic_pk56());
    }
    let p_pk78 = vec![0x50u8, 0x4bu8, 0x07u8, 0x08u8];
    proof {
        assert(p_pk78@ =~= magic_pk78());
    }
    let p_rar4 = vec![0x52u8, 0x61u8, 0x72u8, 0x21u8, 0x1au8, 0x07u8, 0x00u8];
    proof {
        assert(p_rar4@ =~= magic_rar4());
    }
    let p_rar5 = vec![0x52u8, 0x61u8, 0x72u8, 0x21u8, 0x1au8, 0x07u8, 0x01u8, 0x00u8];
    proof {
        assert(p_rar5@ =~= magic_rar5());
    }
    let p_sevenz = vec![0x37u8, 0x7au8, 0xbcu8, 0xafu8, 0x27u8, 0x1cu8];
    proof {
        assert(p_sevenz@ =~= magic_sevenz());
    }
    let p_id3 = vec![0x49u8, 0x44u8, 0x33u8];
    proof {
        assert(p_id3@ =~= magic_id3());
    }
    let p_ogg = vec![0x4fu8, 0x67u8, 0x67u8, 0x53u8];
    proof {
        assert(p_ogg@ =~= magic_ogg());
    }
    let p_ftyp = vec![0x66u8, 0x74u8, 0x79u8, 0x70u8];
    proof {
        assert(p_ftyp@ =~= magic_ftyp());
    }
    let p_qt = vec![0x71u8, 0x74u8, 0x20u8, 0x20u8];
    proof {
        assert(p_qt@ =~= magic_qt());
    }
    let p_ebml = vec![0x1au8, 0x45u8, 0xdfu8, 0xa3u8];
    proof {
        assert(p_ebml@ =~= magic_ebml());
    }
    let p_mz = vec![0x4du8, 0x5au8];
    proof {
        assert(p_mz@ =~= magic_mz());
    }
    let h = head;
    if bytes_start_exec(h, p_png.as_slice()) {
        return Some(UploadType { mime: "image/png", ext: "png" });
    }
    if h.len() >= 3 && h[0] == 0xff && h[1] == 0xd8 && h[2] == 0xff {
        return Some(UploadType { mime: "image/jpeg", ext: "jpg" });
    }
    if bytes_start_exec(h, p_gif87.as_slice()) || bytes_start_exec(h, p_gif89.as_slice()) {
        return Some(UploadType { mime: "image/gif", ext: "gif" });
    }
    if h.len() >= 12 && bytes_start_exec(h, p_riff.as_slice()) && bytes_at_exec(h, 8, p_webp.as_slice()) {
        return Some(UploadType { mime: "image/webp", ext: "webp" });
    }
    if h.len() >= 12 && bytes_start_exec(h, p_riff.as_slice()) && bytes_at_exec(h, 8, p_wave.as_slice()) {
        return Some(UploadType { mime: "audio/wav", ext: "wav" });
    }
    if bytes_start_exec(h, p_pdf.as_slice()) {
        return Some(UploadType { mime: "application/pdf", ext: "pdf" });
    }
    if bytes_start_exec(h, p_pk34.as_slice()) || bytes_start_exec(h, p_pk56.as_slice())
        || bytes_start_exec(h, p_pk78.as_slice()) {
        if let Some(ext) = original_ext {
            let e = chars_of(ext);
            if zip_container_chars(e.as_slice()) {
                if let Some(t) = ext_type_chars(e.as_slice()) {
                    return Some(t);
                }
            }
        }
        return Some(UploadType { mime: "application/zip", ext: "zip" });
    }
    if bytes_start_exec(h, p_rar4.as_slice()) || bytes_start_exec(h, p_rar5.as_slice()) {
        return Some(UploadType { mime: "application/vnd.rar", ext: "rar" });
    }
    if bytes_start_exec(h, p_sevenz.as_slice()) {
        return Some(UploadType { mime: "application/x-7z-compressed", ext: "7z" });
    }
    if bytes_start_exec(h, p_id3.as_slice()) || (h.len() >= 2 && h[0] == 0xff && (h[1] & 0xe0u8) == 0xe0u8) {
        return Some(UploadType { mime: "audio/mpeg", ext: "mp3" });
    }
    if bytes_start_exec(h, p_ogg.as_slice()) {
        return Some(UploadType { mime: "audio/ogg", ext: "ogg" });
    }
    if h.len() >= 12 && bytes_at_exec(h, 4, p_ftyp.as_slice()) {
        if bytes_at_exec(h, 8, p_qt.as_slice()) {
            return Some(UploadType { mime: "video/quicktime", ext: "mov" });
        }
        return Some(UploadType { mime: "video/mp4", ext: "mp4" });
    }
    if bytes_start_exec(h, p_ebml.as_slice()) {
        return Some(UploadType { mime: "video/webm", ext: "webm" });
    }
    if bytes_start_exec(h, p_mz.as_slice()) {
        return Some(UploadType { mime: "application/vnd.microsoft.portable-executable", ext: "exe" });
    }
    None
}


// ---------------------------------------------------------------------------
// Text detection and the upload decision
// ---------------------------------------------------------------------------

/// Whether the bytes are well-formed UTF-8 (`std::str::from_utf8` succeeds).
#[verifier::external_body]
fn utf8_is_valid(bytes: &[u8]) -> (r: bool)
    ensures
        r == vstd::utf8::valid_utf8(bytes@),
{
    match std::str::from_utf8(bytes) {
        Ok(_) => true,
        Err(_) => false,
    }
}

/// Control bytes other than tab, line feed and carriage return, and DEL.
pub open spec fn binary_byte(b: u8) -> bool {
    (b < 0x20 && b != 0x0a && b != 0x0d && b != 0x09) || b == 0x7f
}

/// Non-empty, well-formed UTF-8 with no binary control bytes.
pub open spec fn plain_text_spec(h: Seq<u8>) -> bool {
    &&& h.len() > 0
    &&& vstd::utf8::valid_utf8(h)
    &&& forall|i: int| 0 <= i < h.len() ==> !binary_byte(#[trigger] h[i])
}

pub fn looks_like_plain_text(head: &[u8]) -> (r: bool)
    ensures
        r == plain_text_spec(head@),
{
    if head.len() == 0 {
        return false;
    }
    if !utf8_is_valid(head) {
        return false;
    }
    let mut i: usize = 0;
    while i < head.len()
        invariant
            i <= head.len(),
            forall|j: int| 0 <= j < i ==> !binary_byte(#[trigger] head@[j]),
        decreases head.len() - i,
    {
        let b = head[i];
        if (b < 0x20 && b != 0x0a && b != 0x0d && b != 0x09) || b == 0x7f {
            return false;
        }
        i = i + 1;
    }
    true
}

/// Extensions of text formats, whose extension is trusted over a claimed type.
pub open spec fn text_ext(e: Seq<char>) -> bool {
    ||| e == "md"@
    ||| e == "markdown"@
    ||| e == "txt"@
    ||| e == "json"@
    ||| e == "csv"@
    ||| e == "log"@
    ||| e == "rs"@
    ||| e == "js"@
    ||| e == "ts"@
    ||| e == "html"@
    ||| e == "css"@
    ||| e == "sql"@
    ||| e == "ps1"@
    ||| e == "sh"@
}

fn text_ext_exec(e: &[char]) -> (r: bool)
    ensures
        r == text_ext(e@),
{
    eq_lit(e, "md") || eq_lit(e, "markdown") || eq_lit(e, "txt") || eq_lit(e, "json") || eq_lit(
        e,
        "csv",
    ) || eq_lit(e, "log") || eq_lit(e, "rs") || eq_lit(e, "js") || eq_lit(e, "ts") || eq_lit(
        e,
        "html",
    ) || eq_lit(e, "css") || eq_lit(e, "sql") || eq_lit(e, "ps1") || eq_lit(e, "sh")
}

/// The MIME type and extension an upload is stored with. The leading bytes
/// decide first; then a text extension; then the claimed MIME type; then any
/// known extension; then whether the bytes look like text.
pub open spec fn detect_upload_spec(head: Seq<u8>, original_name: Seq<char>, provided_mime: Seq<char>) -> (
    Seq<char>,
    Seq<char>,
) {
    let oe = safe_ext(original_name);
    let fallback = if plain_text_spec(head) {
        ("text/plain"@, "txt"@)
    } else {
        ("application/octet-stream"@, "bin"@)
    };
    match sniff_spec(head, oe) {
        Some(t) => t,
        None => if oe is Some && text_ext(oe->0) {
            let e = oe->0;
            if e == "markdown"@ {
                ("text/markdown"@, "md"@)
            } else {
                match ext_table(e) {
                    Some(t) => t,
                    None => ("text/plain"@, e),
                }
            }
        } else {
            match mime_table(mime_essence(provided_mime)) {
                Some(t) => t,
                None => match oe {
                    Some(e) => match ext_table(e) {
                        Some(t) => t,
                        None => fallback,
                    },
                    None => fallback,
                },
            }
        },
    }
}

fn pair_of(t: UploadType) -> (r: (String, String))
    ensures
        r.0@ == t.mime@,
        r.1@ == t.ext@,
{
    (String::from_str(t.mime), String::from_str(t.ext))
}

fn lit_pair(a: &str, b: &str) -> (r: (String, String))
    ensures
        r.0@ == a@,
        r.1@ == b@,
{
    (String::from_str(a), String::from_str(b))
}

pub fn detect_upload_type(head: &[u8], original_name: &str, provided_mime: &str) -> (r: (
    String,
    String,
))
    ensures
        (r.0@, r.1@) == detect_upload_spec(head@, original_name@, provided_mime@),
{
    let name = chars_of(original_name);
    let original_ext = safe_ext_chars(name.as_slice());
    let ext_string: Option<String> = match &original_ext {
        Some(e) => Some(string_of(e.as_slice())),
        None => None,
    };
    let ext_str: Option<&str> = match &ext_string {
        Some(e) => Some(e.as_str()),
        None => None,
    };
    if let Some(t) = sniff_magic_type(head, ext_str) {
        return pair_of(t);
    }
    if let Some(e) = &original_ext {
        let e = e.as_slice();
        if text_ext_exec(e) {
            if eq_lit(e, "markdown") {
                return lit_pair("text/markdown", "md");
            }
            if let Some(t) = ext_type_chars(e) {
                return pair_of(t);
            }
            return (String::from_str("text/plain"), string_of(e));
        }
    }
    if let Some(t) = known_type_from_mime(provided_mime) {
        return pair_of(t);
    }
    if let Some(e) = &original_ext {
        if let Some(t) = ext_type_chars(e.as_slice()) {
            return pair_of(t);
        }
    }
    if looks_like_plain_text(head) {
        return lit_pair("text/plain", "txt");
    }
    lit_pair("application/octet-stream", "bin")
}

/// The MIME type of a name's known extension.
pub open spec fn ext_mime(name: Seq<char>) -> Option<Seq<char>> {
    match safe_ext(name) {
        Some(e) => match ext_table(e) {
            Some(t) => Some(t.0),
            None => None,
        },
        None => None,
    }
}

/// The MIME type of a name's extension when it names a ZIP-based format.
pub open spec fn zip_container_mime(name: Seq<char>) -> Option<Seq<char>> {
    match safe_ext(name) {
        Some(e) => if zip_container_ext(e) {
            match ext_table(e) {
                Some(t) => Some(t.0),
                None => None,
            }
        } else {
            None
        },
        None => None,
    }
}

/// The MIME type a stored file is served with. A ZIP type gives way to the
/// ZIP-based format the original or stored name shows; a specific stored type
/// is normalised through the table; a generic one gives way to the type of
/// the original or stored name's extension.
pub open spec fn effective_mime_spec(stored_mime: Seq<char>, original_name: Seq<char>, stored_filename: Seq<char>) -> Seq<char> {
    let clean = mime_essence(stored_mime);
    let is_zip = clean == "application/zip"@ || clean == "application/x-zip-compressed"@;
    if is_zip && zip_container_mime(original_name) is Some {
        zip_container_mime(original_name)->0
    } else if is_zip && zip_container_mime(stored_filename) is Some {
        zip_container_mime(stored_filename)->0
    } else if !generic_essence(clean) {
        match mime_table(mime_essence(clean)) {
            Some(t) => t.0,
            None => clean,
        }
    } else if ext_mime(original_name) is Some {
        ext_mime(original_name)->0
    } else if ext_mime(stored_filename) is Some {
        ext_mime(stored_filename)->0
    } else {
        "application/octet-stream"@
    }
}

fn zip_container_mime_exec(name: &str) -> (r: Option<&'static str>)
    ensures
        match r {
            Some(m) => zip_container_mime(name@) == Some(m@),
            None => zip_container_mime(name@) is None,
        },
{
    let n = chars_of(name);
    if let Some(ext) = safe_ext_chars(n.as_slice()) {
        if zip_container_chars(ext.as_slice()) {
            if let Some(t) = ext_type_chars(ext.as_slice()) {
                return Some(t.mime);
            }
        }
    }
    None
}

fn ext_mime_exec(name: &str) -> (r: Option<&'static str>)
    ensures
        match r {
            Some(m) => ext_mime(name@) == Some(m@),
            None => ext_mime(name@) is None,
        },
{
    let n = chars_of(name);
    if let Some(ext) = safe_ext_chars(n.as_slice()) {
        if let Some(t) = ext_type_chars(ext.as_slice()) {
            return Some(t.mime);
        }
    }
    None
}

pub fn effective_mime_type(stored_mime: &str, original_name: &str, stored_filename: &str) -> (r: String)
    ensures
        r@ == effective_mime_spec(stored_mime@, original_name@, stored_filename@),
{
    let clean = mime_essence_exec(stored_mime);
    let c = clean.as_slice();
    if eq_lit(c, "application/zip") || eq_lit(c, "application/x-zip-compressed") {
        if let Some(m) = zip_container_mime_exec(original_name) {
            return String::from_str(m);
        }
        if let Some(m) = zip_container_mime_exec(stored_filename) {
            return String::from_str(m);
        }
    }
    if !generic_essence_exec(c) {
        let again = mime_essence_chars(c);
        if let Some(t) = mime_type_chars(again.as_slice()) {
            return String::from_str(t.mime);
        }
        return string_of(c);
    }
    if let Some(m) = ext_mime_exec(original_name) {
        return String::from_str(m);
    }
    if let Some(m) = ext_mime_exec(stored_filename) {
        return String::from_str(m);
    }
    String::from_str("application/octet-stream")
}



// ---------------------------------------------------------------------------
// The two tables agree
// ---------------------------------------------------------------------------

/// A character a canonical MIME type is written with.
pub open spec fn mime_char(c: char) -> bool {
    ('a' <= c && c <= 'z') || ('0' <= c && c <= '9') || c == '/' || c == '.' || c == '-' || c == '+'
}

/// A text written only with such characters is its own essence.
proof fn lemma_plain_mime_essence(s: Seq<char>)
    requires
        forall|i: int| 0 <= i < s.len() ==> mime_char(#[trigger] s[i]),
    ensures
        mime_essence(s) == s,
{
    assert(!has_char(s, ';'));
    assert(before_char(s, ';') == s);
    if s.len() > 0 {
        assert(!is_ws(s[0]));
        assert(!is_ws(s.last()));
    }
    assert(trim_start(s) == s);
    assert(trim_end(s) == s);
    assert(ascii_lower(s) =~= s);
}

/// `image/jpeg` is its own essence and the table gives it back.
proof fn lemma_mime_row_jpg()
    ensures
        mime_essence("image/jpeg"@) == "image/jpeg"@,
        mime_table("image/jpeg"@) == Some(("image/jpeg"@, "jpg"@)),
{
    reveal_strlit("image/jpeg");
    assert forall|i: int| 0 <= i < 10 implies mime_char(#[trigger] "image/jpeg"@[i]) by {
        if i == 0 {} else if i == 1 {} else if i == 2 {} else if i == 3 {} else if i == 4 {} else if i == 5 {} else if i == 6 {} else if i == 7 {} else if i == 8 {} else if i == 9 {}
    }
    lemma_plain_mime_essence("image/jpeg"@);
}

/// `image/png` is its own essence and the table gives it back.
proof fn lemma_mime_row_png()
    ensures
        mime_essence("image/png"@) == "image/png"@,
        mime_table("image/png"@) == Some(("image/png"@, "png"@)),
{
    reveal_strlit("image/jpeg");
    reveal_strlit("image/jpg");
    reveal_strlit("image/png");
    assert forall|i: int| 0 <= i < 9 implies mime_char(#[trigger] "image/png"@[i]) by {
        if i == 0 {} else if i == 1 {} else if i == 2 {} else if i == 3 {} else if i == 4 {} else if i == 5 {} else if i == 6 {} else if i == 7 {} else if i == 8 {}
    }
    lemma_plain_mime_essence("image/png"@);
    assert("image/jpeg"@.len() != "image/png"@.len());
    assert("image/jpg"@[6] != "image/png"@[6]);
}

/// `image/gif` is its own essence and the table gives it back.
proof fn lemma_mime_row_gif()
    ensures
        mime_essence("image/gif"@) == "image/gif"@,
        mime_table("image/gif"@) == Some(("image/gif"@, "gif"@)),
{
    reveal_strlit("image/gif");
    reveal_strlit("image/jpeg");
    reveal_strlit("image/jpg");
    reveal_strlit("image/png");
    assert forall|i: int| 0 <= i < 9 implies mime_char(#[trigger] "image/gif"@[i]) by {
        if i == 0 {} else if i == 1 {} else if i == 2 {} else if i == 3 {} else if i == 4 {} else if i == 5 {} else if i == 6 {} else if i == 7 {} else if i == 8 {}
    }
    lemma_plain_mime_essence("image/gif"@);
    assert("image/jpeg"@.len() != "image/gif"@.len());
    assert("image/jpg"@[6] != "image/gif"@[6]);
    assert("image/png"@[6] != "image/gif"@[6]);
}

/// `image/webp` is its own essence and the table gives it back.
proof fn lemma_mime_row_webp()
    ensures
        mime_essence("image/webp"@) == "image/webp"@,
        mime_table("image/webp"@) == Some(("image/webp"@, "webp"@)),
{
    reveal_strlit("image/gif");
    reveal_strlit("image/jpeg");
    reveal_strlit("image/jpg");
    reveal_strlit("image/png");
    reveal_strlit("image/webp");
    assert forall|i: int| 0 <= i < 10 implies mime_char(#[trigger] "image/webp"@[i]) by {
        if i == 0 {} else if i == 1 {} else if i == 2 {} else if i == 3 {} else if i == 4 {} else if i == 5 {} else if i == 6 {} else if i == 7 {} else if i == 8 {} else if i == 9 {}
    }
    lemma_plain_mime_essence("image/webp"@);
    assert("image/jpeg"@[6] != "image/webp"@[6]);
    assert("image/jpg"@.len() != "image/webp"@.len());
    assert("image/png"@.len() != "image/webp"@.len());
    assert("image/gif"@.len() != "image/webp"@.len());
}

/// `image/bmp` is its own essence and the table gives it back.
proof fn lemma_mime_row_bmp()
    ensures
        mime_essence("image/bmp"@) == "image/bmp"@,
        mime_table("image/bmp"@) == Some(("image/bmp"@, "bmp"@)),
{
    reveal_strlit("image/bmp");
    reveal_strlit("image/gif");
    reveal_strlit("image/jpeg");
    reveal_strlit("image/jpg");
    reveal_strlit("image/png");
    reveal_strlit("image/webp");
    assert forall|i: int| 0 <= i < 9 implies mime_char(#[trigger] "image/bmp"@[i]) by {
        if i == 0 {} else if i == 1 {} else if i == 2 {} else if i == 3 {} else if i == 4 {} else if i == 5 {} else if i == 6 {} else if i == 7 {} else if i == 8 {}
    }
    lemma_plain_mime_essence("image/bmp"@);
    assert("image/jpeg"@.len() != "image/bmp"@.len());
    assert("image/jpg"@[6] != "image/bmp"@[6]);
    assert("image/png"@[6] != "image/bmp"@[6]);
    assert("image/gif"@[6] != "image/bmp"@[6]);
    assert("image/webp"@.len() != "image/bmp"@.len());
}

/// `image/tiff` is its own essence and the table gives it back.
proof fn lemma_mime_row_tiff()
    ensures
        mime_essence("image/tiff"@) == "image/tiff"@,
        mime_table("image/tiff"@) == Some(("image/tiff"@, "tiff"@)),
{
    reveal_strlit("image/bmp");
    reveal_strlit("image/gif");
    reveal_strlit("image/jpeg");
    reveal_strlit("image/jpg");
    reveal_strlit("image/png");
    reveal_strlit("image/tiff");
    reveal_strlit("image/webp");
    assert forall|i: int| 0 <= i < 10 implies mime_char(#[trigger] "image/tiff"@[i]) by {
        if i == 0 {} else if i == 1 {} else if i == 2 {} else if i == 3 {} else if i == 4 {} else if i == 5 {} else if i == 6 {} else if i == 7 {} else if i == 8 {} else if i == 9 {}
    }
    lemma_plain_mime_essence("image/tiff"@);
    assert("image/jpeg"@[6] != "image/tiff"@[6]);
    assert("image/jpg"@.len() != "image/tiff"@.len());
    assert("image/png"@.len() != "image/tiff"@.len());
    assert("image/gif"@.len() != "image/tiff"@.len());
    assert("image/webp"@[6] != "image/tiff"@[6]);
    assert("image/bmp"@.len() != "image/tiff"@.len());
}

/// `image/svg+xml` is its own essence and the table gives it back.
proof fn lemma_mime_row_svg()
    ensures
        mime_essence("image/svg+xml"@) == "image/svg+xml"@,
        mime_table("image/svg+xml"@) == Some(("image/svg+xml"@, "svg"@)),
{
    reveal_strlit("image/bmp");
    reveal_strlit("image/gif");
    reveal_strlit("image/jpeg");
    reveal_strlit("image/jpg");
    reveal_strlit("image/png");
    reveal_strlit("image/svg+xml");
    reveal_strlit("image/tiff");
    reveal_strlit("image/webp");
    assert forall|i: int| 0 <= i < 13 implies mime_char(#[trigger] "image/svg+xml"@[i]) by {
        if i == 0 {} else if i == 1 {} else if i == 2 {} else if i == 3 {} else if i == 4 {} else if i == 5 {} else if i == 6 {} else if i == 7 {} else if i == 8 {} else if i == 9 {} else if i == 10 {} else if i == 11 {} else if i == 12 {}
    }
    lemma_plain_mime_essence("image/svg+xml"@);
    assert("image/jpeg"@.len() != "image/svg+xml"@.len());
    assert("image/jpg"@.len() != "image/svg+xml"@.len());
    assert("image/png"@.len() != "image/svg+xml"@.len());
    assert("image/gif"@.len() != "image/svg+xml"@.len());
    assert("image/webp"@.len() != "image/svg+xml"@.len());
    assert("image/bmp"@.len() != "image/svg+xml"@.len());
    assert("image/tiff"@.len() != "image/svg+xml"@.len());
}

/// `video/mp4` is its own essence and the table gives it back.
proof fn lemma_mime_row_mp4()
    ensures
        mime_essence("video/mp4"@) == "video/mp4"@,
        mime_table("video/mp4"@) == Some(("video/mp4"@, "mp4"@)),
{
    reveal_strlit("image/bmp");
    reveal_strlit("image/gif");
    reveal_strlit("image/jpeg");
    reveal_strlit("image/jpg");
    reveal_strlit("image/png");
    reveal_strlit("image/svg+xml");
    reveal_strlit("image/tiff");
    reveal_strlit("image/webp");
    reveal_strlit("video/mp4");
    assert forall|i: int| 0 <= i < 9 implies mime_char(#[trigger] "video/mp4"@[i]) by {
        if i == 0 {} else if i == 1 {} else if i == 2 {} else if i == 3 {} else if i == 4 {} else if i == 5 {} else if i == 6 {} else if i == 7 {} else if i == 8 {}
    }
    lemma_plain_mime_essence("video/mp4"@);
    assert("image/jpeg"@.len() != "video/mp4"@.len());
    assert("image/jpg"@[0] != "video/mp4"@[0]);
    assert("image/png"@[0] != "video/mp4"@[0]);
    assert("image/gif"@[0] != "video/mp4"@[0]);
    assert("image/webp"@.len() != "video/mp4"@.len());
    assert("image/bmp"@[0] != "video/mp4"@[0]);
    assert("image/tiff"@.len() != "video/mp4"@.len());
    assert("image/svg+xml"@.len() != "video/mp4"@.len());
}

/// `video/quicktime` is its own essence and the table gives it back.
proof fn lemma_mime_row_mov()
    ensures
        mime_essence("video/quicktime"@) == "video/quicktime"@,
        mime_table("video/quicktime"@) == Some(("video/quicktime"@, "mov"@)),
{
    reveal_strlit("image/bmp");
    reveal_strlit("image/gif");
    reveal_strlit("image/jpeg");
    reveal_strlit("image/jpg");
    reveal_strlit("image/png");
    reveal_strlit("image/svg+xml");
    reveal_strlit("image/tiff");
    reveal_strlit("image/webp");
    reveal_strlit("video/mp4");
    reveal_strlit("video/quicktime");
    assert forall|i: int| 0 <= i < 15 implies mime_char(#[trigger] "video/quicktime"@[i]) by {
        if i == 0 {} else if i == 1 {} else if i == 2 {} else if i == 3 {} else if i == 4 {} else if i == 5 {} else if i == 6 {} else if i == 7 {} else if i == 8 {} else if i == 9 {} else if i == 10 {} else if i == 11 {} else if i == 12 {} else if i == 13 {} else if i == 14 {}
    }
    lemma_plain_mime_essence("video/quicktime"@);
    assert("image/jpeg"@.len() != "video/quicktime"@.len());
    assert("image/jpg"@.len() != "video/quicktime"@.len());
    assert("image/png"@.len() != "video/quicktime"@.len());
    assert("image/gif"@.len() != "video/quicktime"@.len());
    assert("image/webp"@.len() != "video/quicktime"@.len());
    assert("image/bmp"@.len() != "video/quicktime"@.len());
    assert("image/tiff"@.len() != "video/quicktime"@.len());
    assert("image/svg+xml"@.len() != "video/quicktime"@.len());
    assert("video/mp4"@.len() != "video/quicktime"@.len());
}

/// `video/webm` is its own essence and the table gives it back.
proof fn lemma_mime_row_webm()
    ensures
        mime_essence("video/webm"@) == "video/webm"@,
        mime_table("video/webm"@) == Some(("video/webm"@, "webm"@)),
{
    reveal_strlit("image/bmp");
    reveal_strlit("image/gif");
    reveal_strlit("image/jpeg");
    reveal_strlit("image/jpg");
    reveal_strlit("image/png");
    reveal_strlit("image/svg+xml");
    reveal_strlit("image/tiff");
    reveal_strlit("image/webp");
    reveal_strlit("video/mp4");
    reveal_strlit("video/quicktime");
    reveal_strlit("video/webm");
    assert forall|i: int| 0 <= i < 10 implies mime_char(#[trigger] "video/webm"@[i]) by {
        if i == 0 {} else if i == 1 {} else if i == 2 {} else if i == 3 {} else if i == 4 {} else if i == 5 {} else if i == 6 {} else if i == 7 {} else if i == 8 {} else if i == 9 {}
    }
    lemma_plain_mime_essence("video/webm"@);
    assert("image/jpeg"@[0] != "video/webm"@[0]);
    assert("image/jpg"@.len() != "video/webm"@.len());
    assert("image/png"@.len() != "video/webm"@.len());
    assert("image/gif"@.len() != "video/webm"@.len());
    assert("image/webp"@[0] != "video/webm"@[0]);
    assert("image/bmp"@.len() != "video/webm"@.len());
    assert("image/tiff"@[0] != "video/webm"@[0]);
    assert("image/svg+xml"@.len() != "video/webm"@.len());
    assert("video/mp4"@.len() != "video/webm"@.len());
    assert("video/quicktime"@.len() != "video/webm"@.len());
}

/// `video/x-msvideo` is its own essence and the table gives it back.
proof fn lemma_mime_row_avi()
    ensures
        mime_essence("video/x-msvideo"@) == "video/x-msvideo"@,
        mime_table("video/x-msvideo"@) == Some(("video/x-msvideo"@, "avi"@)),
{
    reveal_strlit("image/bmp");
    reveal_strlit("image/gif");
    reveal_strlit("image/jpeg");
    reveal_strlit("image/jpg");
    reveal_strlit("image/png");
    reveal_strlit("image/svg+xml");
    reveal_strlit("image/tiff");
    reveal_strlit("image/webp");
    reveal_strlit("video/mp4");
    reveal_strlit("video/quicktime");
    reveal_strlit("video/webm");
    reveal_strlit("video/x-msvideo");
    assert forall|i: int| 0 <= i < 15 implies mime_char(#[trigger] "video/x-msvideo"@[i]) by {
        if i == 0 {} else if i == 1 {} else if i == 2 {} else if i == 3 {} else if i == 4 {} else if i == 5 {} else if i == 6 {} else if i == 7 {} else if i == 8 {} else if i == 9 {} else if i == 10 {} else if i == 11 {} else if i == 12 {} else if i == 13 {} else if i == 14 {}
    }
    lemma_plain_mime_essence("video/x-msvideo"@);
    assert("image/jpeg"@.len() != "video/x-msvideo"@.len());
    assert("image/jpg"@.len() != "video/x-msvideo"@.len());
    assert("image/png"@.len() != "video/x-msvideo"@.len());
    assert("image/gif"@.len() != "video/x-msvideo"@.len());
    assert("image/webp"@.len() != "video/x-msvideo"@.len());
    assert("image/bmp"@.len() != "video/x-msvideo"@.len());
    assert("image/tiff"@.len() != "video/x-msvideo"@.len());
    assert("image/svg+xml"@.len() != "video/x-msvideo"@.len());
    assert("video/mp4"@.len() != "video/x-msvideo"@.len());
    assert("video/quicktime"@[6] != "video/x-msvideo"@[6]);
    assert("video/webm"@.len() != "video/x-msvideo"@.len());
}

/// `video/x-matroska` is its own essence and the table gives it back.
proof fn lemma_mime_row_mkv()
    ensures
        mime_essence("video/x-matroska"@) == "video/x-matroska"@,
        mime_table("video/x-matroska"@) == Some(("video/x-matroska"@, "mkv"@)),
{
    reveal_strlit("image/bmp");
    reveal_strlit("image/gif");
    reveal_strlit("image/jpeg");
    reveal_strlit("image/jpg");
    reveal_strlit("image/png");
    reveal_strlit("image/svg+xml");
    reveal_strlit("image/tiff");
    reveal_strlit("image/webp");
    reveal_strlit("video/mp4");
    reveal_strlit("video/quicktime");
    reveal_strlit("video/webm");
    reveal_strlit("video/x-matroska");
    reveal_strlit("video/x-msvideo");
    assert forall|i: int| 0 <= i < 16 implies mime_char(#[trigger] "video/x-matroska"@[i]) by {
        if i == 0 {} else if i == 1 {} else if i == 2 {} else if i == 3 {} else if i == 4 {} else if i == 5 {} else if i == 6 {} else if i == 7 {} else if i == 8 {} else if i == 9 {} else if i == 10 {} else if i == 11 {} else if i == 12 {} else if i == 13 {} else if i == 14 {} else if i == 15 {}
    }
    lemma_plain_mime_essence("video/x-matroska"@);
    assert("image/jpeg"@.len() != "video/x-matroska"@.len());
    assert("image/jpg"@.len() != "video/x-matroska"@.len());
    assert("image/png"@.len() != "video/x-matroska"@.len());
    assert("image/gif"@.len() != "video/x-matroska"@.len());
    assert("image/webp"@.len() != "video/x-matroska"@.len());
    assert("image/bmp"@.len() != "video/x-matroska"@.len());
    assert("image/tiff"@.len() != "video/x-matroska"@.len());
    assert("image/svg+xml"@.len() != "video/x-matroska"@.len());
    assert("video/mp4"@.len() != "video/x-matroska"@.len());
    assert("video/quicktime"@.len() != "video/x-matroska"@.len());
    assert("video/webm"@.len() != "video/x-matroska"@.len());
    assert("video/x-msvideo"@.len() != "video/x-matroska"@.len());
}

/// `audio/mpeg` is its own essence and the table gives it back.
proof fn lemma_mime_row_mp3()
    ensures
        mime_essence("audio/mpeg"@) == "audio/mpeg"@,
        mime_table("audio/mpeg"@) == Some(("audio/mpeg"@, "mp3"@)),
{
    reveal_strlit("audio/mpeg");
    reveal_strlit("image/bmp");
    reveal_strlit("image/gif");
    reveal_strlit("image/jpeg");
    reveal_strlit("image/jpg");
    reveal_strlit("image/png");
    reveal_strlit("image/svg+xml");
    reveal_strlit("image/tiff");
    reveal_strlit("image/webp");
    reveal_strlit("video/mp4");
    reveal_strlit("video/quicktime");
    reveal_strlit("video/webm");
    reveal_strlit("video/x-matroska");
    reveal_strlit("video/x-msvideo");
    assert forall|i: int| 0 <= i < 10 implies mime_char(#[trigger] "audio/mpeg"@[i]) by {
        if i == 0 {} else if i == 1 {} else if i == 2 {} else if i == 3 {} else if i == 4 {} else if i == 5 {} else if i == 6 {} else if i == 7 {} else if i == 8 {} else if i == 9 {}
    }
    lemma_plain_mime_essence("audio/mpeg"@);
    assert("image/jpeg"@[0] != "audio/mpeg"@[0]);
    assert("image/jpg"@.len() != "audio/mpeg"@.len());
    assert("image/png"@.len() != "audio/mpeg"@.len());
    assert("image/gif"@.len() != "audio/mpeg"@.len());
    assert("image/webp"@[0] != "audio/mpeg"@[0]);
    assert("image/bmp"@.len() != "audio/mpeg"@.len());
    assert("image/tiff"@[0] != "audio/mpeg"@[0]);
    assert("image/svg+xml"@.len() != "audio/mpeg"@.len());
    assert("video/mp4"@.len() != "audio/mpeg"@.len());
    assert("video/quicktime"@.len() != "audio/mpeg"@.len());
    assert("video/webm"@[0] != "audio/mpeg"@[0]);
    assert("video/x-msvideo"@.len() != "audio/mpeg"@.len());
    assert("video/x-matroska"@.len() != "audio/mpeg"@.len());
}

/// `audio/wav` is its own essence and the table gives it back.
proof fn lemma_mime_row_wav()
    ensures
        mime_essence("audio/wav"@) == "audio/wav"@,
        mime_table("audio/wav"@) == Some(("audio/wav"@, "wav"@)),
{
    reveal_strlit("audio/mp3");
    reveal_strlit("audio/mpeg");
    reveal_strlit("audio/wav");
    reveal_strlit("image/bmp");
    reveal_strlit("image/gif");
    reveal_strlit("image/jpeg");
    reveal_strlit("image/jpg");
    reveal_strlit("image/png");
    reveal_strlit("image/svg+xml");
    reveal_strlit("image/tiff");
    reveal_strlit("image/webp");
    reveal_strlit("video/mp4");
    reveal_strlit("video/quicktime");
    reveal_strlit("video/webm");
    reveal_strlit("video/x-matroska");
    reveal_strlit("video/x-msvideo");
    assert forall|i: int| 0 <= i < 9 implies mime_char(#[trigger] "audio/wav"@[i]) by {
        if i == 0 {} else if i == 1 {} else if i == 2 {} else if i == 3 {} else if i == 4 {} else if i == 5 {} else if i == 6 {} else if i == 7 {} else if i == 8 {}
    }
    lemma_plain_mime_essence("audio/wav"@);
    assert("image/jpeg"@.len() != "audio/wav"@.len());
    assert("image/jpg"@[0] != "audio/wav"@[0]);
    assert("image/png"@[0] != "audio/wav"@[0]);
    assert("image/gif"@[0] != "audio/wav"@[0]);
    assert("image/webp"@.len() != "audio/wav"@.len());
    assert("image/bmp"@[0] != "audio/wav"@[0]);
    assert("image/tiff"@.len() != "audio/wav"@.len());
    assert("image/svg+xml"@.len() != "audio/wav"@.len());
    assert("video/mp4"@[0] != "audio/wav"@[0]);
    assert("video/quicktime"@.len() != "audio/wav"@.len());
    assert("video/webm"@.len() != "audio/wav"@.len());
    assert("video/x-msvideo"@.len() != "audio/wav"@.len());
    assert("video/x-matroska"@.len() != "audio/wav"@.len());
    assert("audio/mpeg"@.len() != "audio/wav"@.len());
    assert("audio/mp3"@[6] != "audio/wav"@[6]);
}

/// `audio/ogg` is its own essence and the table gives it back.
proof fn lemma_mime_row_ogg()
    ensures
        mime_essence("audio/ogg"@) == "audio/ogg"@,
        mime_table("audio/ogg"@) == Some(("audio/ogg"@, "ogg"@)),
{
    reveal_strlit("audio/mp3");
    reveal_strlit("audio/mpeg");
    reveal_strlit("audio/ogg");
    reveal_strlit("audio/wav");
    reveal_strlit("audio/wave");
    reveal_strlit("audio/x-wav");
    reveal_strlit("image/bmp");
    reveal_strlit("image/gif");
    reveal_strlit("image/jpeg");
    reveal_strlit("image/jpg");
    reveal_strlit("image/png");
    reveal_strlit("image/svg+xml");
    reveal_strlit("image/tiff");
    reveal_strlit("image/webp");
    reveal_strlit("video/mp4");
    reveal_strlit("video/quicktime");
    reveal_strlit("video/webm");
    reveal_strlit("video/x-matroska");
    reveal_strlit("video/x-msvideo");
    assert forall|i: int| 0 <= i < 9 implies mime_char(#[trigger] "audio/ogg"@[i]) by {
        if i == 0 {} else if i == 1 {} else if i == 2 {} else if i == 3 {} else if i == 4 {} else if i == 5 {} else if i == 6 {} else if i == 7 {} else if i == 8 {}
    }
    lemma_plain_mime_essence("audio/ogg"@);
    assert("image/jpeg"@.len() != "audio/ogg"@.len());
    assert("image/jpg"@[0] != "audio/ogg"@[0]);
    assert("image/png"@[0] != "audio/ogg"@[0]);
    assert("image/gif"@[0] != "audio/ogg"@[0]);
    assert("image/webp"@.len() != "audio/ogg"@.len());
    assert("image/bmp"@[0] != "audio/ogg"@[0]);
    assert("image/tiff"@.len() != "audio/ogg"@.len());
    assert("image/svg+xml"@.len() != "audio/ogg"@.len());
    assert("video/mp4"@[0] != "audio/ogg"@[0]);
    assert("video/quicktime"@.len() != "audio/ogg"@.len());
    assert("video/webm"@.len() != "audio/ogg"@.len());
    assert("video/x-msvideo"@.len() != "audio/ogg"@.len());
    assert("video/x-matroska"@.len() != "audio/ogg"@.len());
    assert("audio/mpeg"@.len() != "audio/ogg"@.len());
    assert("audio/mp3"@[6] != "audio/ogg"@[6]);
    assert("audio/wav"@[6] != "audio/ogg"@[6]);
    assert("audio/wave"@.len() != "audio/ogg"@.len());
    assert("audio/x-wav"@.len() != "audio/ogg"@.len());
}

/// `audio/flac` is its own essence and the table gives it back.
proof fn lemma_mime_row_flac()
    ensures
        mime_essence("audio/flac"@) == "audio/flac"@,
        mime_table("audio/flac"@) == Some(("audio/flac"@, "flac"@)),
{
    reveal_strlit("audio/flac");
    reveal_strlit("audio/mp3");
    reveal_strlit("audio/mpeg");
    reveal_strlit("audio/ogg");
    reveal_strlit("audio/wav");
    reveal_strlit("audio/wave");
    reveal_strlit("audio/x-wav");
    reveal_strlit("image/bmp");
    reveal_strlit("image/gif");
    reveal_strlit("image/jpeg");
    reveal_strlit("image/jpg");
    reveal_strlit("image/png");
    reveal_strlit("image/svg+xml");
    reveal_strlit("image/tiff");
    reveal_strlit("image/webp");
    reveal_strlit("video/mp4");
    reveal_strlit("video/quicktime");
    reveal_strlit("video/webm");
    reveal_strlit("video/x-matroska");
    reveal_strlit("video/x-msvideo");
    assert forall|i: int| 0 <= i < 10 implies mime_char(#[trigger] "audio/flac"@[i]) by {
        if i == 0 {} else if i == 1 {} else if i == 2 {} else if i == 3 {} else if i == 4 {} else if i == 5 {} else if i == 6 {} else if i == 7 {} else if i == 8 {} else if i == 9 {}
    }
    lemma_plain_mime_essence("audio/flac"@);
    assert("image/jpeg"@[0] != "audio/flac"@[0]);
    assert("image/jpg"@.len() != "audio/flac"@.len());
    assert("image/png"@.len() != "audio/flac"@.len());
    assert("image/gif"@.len() != "audio/flac"@.len());
    assert("image/webp"@[0] != "audio/flac"@[0]);
    assert("image/bmp"@.len() != "audio/flac"@.len());
    assert("image/tiff"@[0] != "audio/flac"@[0]);
    assert("image/svg+xml"@.len() != "audio/flac"@.len());
    assert("video/mp4"@.len() != "audio/flac"@.len());
    assert("video/quicktime"@.len() != "audio/flac"@.len());
    assert("video/webm"@[0] != "audio/flac"@[0]);
    assert("video/x-msvideo"@.len() != "audio/flac"@.len());
    assert("video/x-matroska"@.len() != "audio/flac"@.len());
    assert("audio/mpeg"@[6] != "audio/flac"@[6]);
    assert("audio/mp3"@.len() != "audio/flac"@.len());
    assert("audio/wav"@.len() != "audio/flac"@.len());
    assert("audio/wave"@[6] != "audio/flac"@[6]);
    assert("audio/x-wav"@.len() != "audio/flac"@.len());
    assert("audio/ogg"@.len() != "audio/flac"@.len());
}

/// `audio/mp4` is its own essence and the table gives it back.
proof fn lemma_mime_row_m4a()
    ensures
        mime_essence("audio/mp4"@) == "audio/mp4"@,
        mime_table("audio/mp4"@) == Some(("audio/mp4"@, "m4a"@)),
{
    reveal_strlit("audio/flac");
    reveal_strlit("audio/mp3");
    reveal_strlit("audio/mp4");
    reveal_strlit("audio/mpeg");
    reveal_strlit("audio/ogg");
    reveal_strlit("audio/wav");
    reveal_strlit("audio/wave");
    reveal_strlit("audio/x-wav");
    reveal_strlit("image/bmp");
    reveal_strlit("image/gif");
    reveal_strlit("image/jpeg");
    reveal_strlit("image/jpg");
    reveal_strlit("image/png");
    reveal_strlit("image/svg+xml");
    reveal_strlit("image/tiff");
    reveal_strlit("image/webp");
    reveal_strlit("video/mp4");
    reveal_strlit("video/quicktime");
    reveal_strlit("video/webm");
    reveal_strlit("video/x-matroska");
    reveal_strlit("video/x-msvideo");
    assert forall|i: int| 0 <= i < 9 implies mime_char(#[trigger] "audio/mp4"@[i]) by {
        if i == 0 {} else if i == 1 {} else if i == 2 {} else if i == 3 {} else if i == 4 {} else if i == 5 {} else if i == 6 {} else if i == 7 {} else if i == 8 {}
    }
    lemma_plain_mime_essence("audio/mp4"@);
    assert("image/jpeg"@.len() != "audio/mp4"@.len());
    assert("image/jpg"@[0] != "audio/mp4"@[0]);
    assert("image/png"@[0] != "audio/mp4"@[0]);
    assert("image/gif"@[0] != "audio/mp4"@[0]);
    assert("image/webp"@.len() != "audio/mp4"@.len());
    assert("image/bmp"@[0] != "audio/mp4"@[0]);
    assert("image/tiff"@.len() != "audio/mp4"@.len());
    assert("image/svg+xml"@.len() != "audio/mp4"@.len());
    assert("video/mp4"@[0] != "audio/mp4"@[0]);
    assert("video/quicktime"@.len() != "audio/mp4"@.len());
    assert("video/webm"@.len() != "audio/mp4"@.len());
    assert("video/x-msvideo"@.len() != "audio/mp4"@.len());
    assert("video/x-matroska"@.len() != "audio/mp4"@.len());
    assert("audio/mpeg"@.len() != "audio/mp4"@.len());
    assert("audio/mp3"@[8] != "audio/mp4"@[8]);
    assert("audio/wav"@[6] != "audio/mp4"@[6]);
    assert("audio/wave"@.len() != "audio/mp4"@.len());
    assert("audio/x-wav"@.len() != "audio/mp4"@.len());
    assert("audio/ogg"@[6] != "audio/mp4"@[6]);
    assert("audio/flac"@.len() != "audio/mp4"@.len());
}

/// `application/pdf` is its own essence and the table gives it back.
proof fn lemma_mime_row_pdf()
    ensures
        mime_essence("application/pdf"@) == "application/pdf"@,
        mime_table("application/pdf"@) == Some(("application/pdf"@, "pdf"@)),
{
    reveal_strlit("application/pdf");
    reveal_strlit("audio/flac");
    reveal_strlit("audio/mp3");
    reveal_strlit("audio/mp4");
    reveal_strlit("audio/mpeg");
    reveal_strlit("audio/ogg");
    reveal_strlit("audio/wav");
    reveal_strlit("audio/wave");
    reveal_strlit("audio/x-wav");
    reveal_strlit("image/bmp");
    reveal_strlit("image/gif");
    reveal_strlit("image/jpeg");
    reveal_strlit("image/jpg");
    reveal_strlit("image/png");
    reveal_strlit("image/svg+xml");
    reveal_strlit("image/tiff");
    reveal_strlit("image/webp");
    reveal_strlit("video/mp4");
    reveal_strlit("video/quicktime");
    reveal_strlit("video/webm");
    reveal_strlit("video/x-matroska");
    reveal_strlit("video/x-msvideo");
    assert forall|i: int| 0 <= i < 15 implies mime_char(#[trigger] "application/pdf"@[i]) by {
        if i == 0 {} else if i == 1 {} else if i == 2 {} else if i == 3 {} else if i == 4 {} else if i == 5 {} else if i == 6 {} else if i == 7 {} else if i == 8 {} else if i == 9 {} else if i == 10 {} else if i == 11 {} else if i == 12 {} else if i == 13 {} else if i == 14 {}
    }
    lemma_plain_mime_essence("application/pdf"@);
    assert("image/jpeg"@.len() != "application/pdf"@.len());
    assert("image/jpg"@.len() != "application/pdf"@.len());
    assert("image/png"@.len() != "application/pdf"@.len());
    assert("image/gif"@.len() != "application/pdf"@.len());
    assert("image/webp"@.len() != "application/pdf"@.len());
    assert("image/bmp"@.len() != "application/pdf"@.len());
    assert("image/tiff"@.len() != "application/pdf"@.len());
    assert("image/svg+xml"@.len() != "application/pdf"@.len());
    assert("video/mp4"@.len() != "application/pdf"@.len());
    assert("video/quicktime"@[0] != "application/pdf"@[0]);
    assert("video/webm"@.len() != "application/pdf"@.len());
    assert("video/x-msvideo"@[0] != "application/pdf"@[0]);
    assert("video/x-matroska"@.len() != "application/pdf"@.len());
    assert("audio/mpeg"@.len() != "application/pdf"@.len());
    assert("audio/mp3"@.len() != "application/pdf"@.len());
    assert("audio/wav"@.len() != "application/pdf"@.len());
    assert("audio/wave"@.len() != "application/pdf"@.len());
    assert("audio/x-wav"@.len() != "application/pdf"@.len());
    assert("audio/ogg"@.len() != "application/pdf"@.len());
    assert("audio/flac"@.len() != "application/pdf"@.len());
    assert("audio/mp4"@.len() != "application/pdf"@.len());
}

/// `application/zip` is its own essence and the table gives it back.
proof fn lemma_mime_row_zip()
    ensures
        mime_essence("application/zip"@) == "application/zip"@,
        mime_table("application/zip"@) == Some(("application/zip"@, "zip"@)),
{
    reveal_strlit("application/pdf");
    reveal_strlit("application/zip");
    reveal_strlit("audio/flac");
    reveal_strlit("audio/mp3");
    reveal_strlit("audio/mp4");
    reveal_strlit("audio/mpeg");
    reveal_strlit("audio/ogg");
    reveal_strlit("audio/wav");
    reveal_strlit("audio/wave");
    reveal_strlit("audio/x-wav");
    reveal_strlit("image/bmp");
    reveal_strlit("image/gif");
    reveal_strlit("image/jpeg");
    reveal_strlit("image/jpg");
    reveal_strlit("image/png");
    reveal_strlit("image/svg+xml");
    reveal_strlit("image/tiff");
    reveal_strlit("image/webp");
    reveal_strlit("video/mp4");
    reveal_strlit("video/quicktime");
    reveal_strlit("video/webm");
    reveal_strlit("video/x-matroska");
    reveal_strlit("video/x-msvideo");
    assert forall|i: int| 0 <= i < 15 implies mime_char(#[trigger] "application/zip"@[i]) by {
        if i == 0 {} else if i == 1 {} else if i == 2 {} else if i == 3 {} else if i == 4 {} else if i == 5 {} else if i == 6 {} else if i == 7 {} else if i == 8 {} else if i == 9 {} else if i == 10 {} else if i == 11 {} else if i == 12 {} else if i == 13 {} else if i == 14 {}
    }
    lemma_plain_mime_essence("application/zip"@);
    assert("image/jpeg"@.len() != "application/zip"@.len());
    assert("image/jpg"@.len() != "application/zip"@.len());
    assert("image/png"@.len() != "application/zip"@.len());
    assert("image/gif"@.len() != "application/zip"@.len());
    assert("image/webp"@.len() != "application/zip"@.len());
    assert("image/bmp"@.len() != "application/zip"@.len());
    assert("image/tiff"@.len() != "application/zip"@.len());
    assert("image/svg+xml"@.len() != "application/zip"@.len());
    assert("video/mp4"@.len() != "application/zip"@.len());
    assert("video/quicktime"@[0] != "application/zip"@[0]);
    assert("video/webm"@.len() != "application/zip"@.len());
    assert("video/x-msvideo"@[0] != "application/zip"@[0]);
    assert("video/x-matroska"@.len() != "application/zip"@.len());
    assert("audio/mpeg"@.len() != "application/zip"@.len());
    assert("audio/mp3"@.len() != "application/zip"@.len());
    assert("audio/wav"@.len() != "application/zip"@.len());
    assert("audio/wave"@.len() != "application/zip"@.len());
    assert("audio/x-wav"@.len() != "application/zip"@.len());
    assert("audio/ogg"@.len() != "application/zip"@.len());
    assert("audio/flac"@.len() != "application/zip"@.len());
    assert("audio/mp4"@.len() != "application/zip"@.len());
    assert("application/pdf"@[12] != "application/zip"@[12]);
}

/// `application/vnd.android.package-archive` is its own essence and the table gives it back.
proof fn lemma_mime_row_apk()
    ensures
        mime_essence("application/vnd.android.package-archive"@) == "application/vnd.android.package-archive"@,
        mime_table("application/vnd.android.package-archive"@) == Some(("application/vnd.android.package-archive"@, "apk"@)),
{
    reveal_strlit("application/pdf");
    reveal_strlit("application/vnd.android.package-archive");
    reveal_strlit("application/x-zip-compressed");
    reveal_strlit("application/zip");
    reveal_strlit("audio/flac");
    reveal_strlit("audio/mp3");
    reveal_strlit("audio/mp4");
    reveal_strlit("audio/mpeg");
    reveal_strlit("audio/ogg");
    reveal_strlit("audio/wav");
    reveal_strlit("audio/wave");
    reveal_strlit("audio/x-wav");
    reveal_strlit("image/bmp");
    reveal_strlit("image/gif");
    reveal_strlit("image/jpeg");
    reveal_strlit("image/jpg");
    reveal_strlit("image/png");
    reveal_strlit("image/svg+xml");
    reveal_strlit("image/tiff");
    reveal_strlit("image/webp");
    reveal_strlit("video/mp4");
    reveal_strlit("video/quicktime");
    reveal_strlit("video/webm");
    reveal_strlit("video/x-matroska");
    reveal_strlit("video/x-msvideo");
    assert forall|i: int| 0 <= i < 39 implies mime_char(#[trigger] "application/vnd.android.package-archive"@[i]) by {
        if i == 0 {} else if i == 1 {} else if i == 2 {} else if i == 3 {} else if i == 4 {} else if i == 5 {} else if i == 6 {} else if i == 7 {} else if i == 8 {} else if i == 9 {} else if i == 10 {} else if i == 11 {} else if i == 12 {} else if i == 13 {} else if i == 14 {} else if i == 15 {} else if i == 16 {} else if i == 17 {} else if i == 18 {} else if i == 19 {} else if i == 20 {} else if i == 21 {} else if i == 22 {} else if i == 23 {} else if i == 24 {} else if i == 25 {} else if i == 26 {} else if i == 27 {} else if i == 28 {} else if i == 29 {} else if i == 30 {} else if i == 31 {} else if i == 32 {} else if i == 33 {} else if i == 34 {} else if i == 35 {} else if i == 36 {} else if i == 37 {} else if i == 38 {}
    }
    lemma_plain_mime_essence("application/vnd.android.package-archive"@);
    assert("image/jpeg"@.len() != "application/vnd.android.package-archive"@.len());
    assert("image/jpg"@.len() != "application/vnd.android.package-archive"@.len());
    assert("image/png"@.len() != "application/vnd.android.package-archive"@.len());
    assert("image/gif"@.len() != "application/vnd.android.package-archive"@.len());
    assert("image/webp"@.len() != "application/vnd.android.package-archive"@.len());
    assert("image/bmp"@.len() != "application/vnd.android.package-archive"@.len());
    assert("image/tiff"@.len() != "application/vnd.android.package-archive"@.len());
    assert("image/svg+xml"@.len() != "application/vnd.android.package-archive"@.len());
    assert("video/mp4"@.len() != "application/vnd.android.package-archive"@.len());
    assert("video/quicktime"@.len() != "application/vnd.android.package-archive"@.len());
    assert("video/webm"@.len() != "application/vnd.android.package-archive"@.len());
    assert("video/x-msvideo"@.len() != "application/vnd.android.package-archive"@.len());
    assert("video/x-matroska"@.len() != "application/vnd.android.package-archive"@.len());
    assert("audio/mpeg"@.len() != "application/vnd.android.package-archive"@.len());
    assert("audio/mp3"@.len() != "application/vnd.android.package-archive"@.len());
    assert("audio/wav"@.len() != "application/vnd.android.package-archive"@.len());
    assert("audio/wave"@.len() != "application/vnd.android.package-archive"@.len());
    assert("audio/x-wav"@.len() != "application/vnd.android.package-archive"@.len());
    assert("audio/ogg"@.len() != "application/vnd.android.package-archive"@.len());
    assert("audio/flac"@.len() != "application/vnd.android.package-archive"@.len());
    assert("audio/mp4"@.len() != "application/vnd.android.package-archive"@.len());
    assert("application/pdf"@.len() != "application/vnd.android.package-archive"@.len());
    assert("application/zip"@.len() != "application/vnd.android.package-archive"@.len());
    assert("application/x-zip-compressed"@.len() != "application/vnd.android.package-archive"@.len());
}

/// `application/vnd.rar` is its own essence and the table gives it back.
proof fn lemma_mime_row_rar()
    ensures
        mime_essence("application/vnd.rar"@) == "application/vnd.rar"@,
        mime_table("application/vnd.rar"@) == Some(("application/vnd.rar"@, "rar"@)),
{
    reveal_strlit("application/pdf");
    reveal_strlit("application/vnd.android.package-archive");
    reveal_strlit("application/vnd.rar");
    reveal_strlit("application/x-zip-compressed");
    reveal_strlit("application/zip");
    reveal_strlit("audio/flac");
    reveal_strlit("audio/mp3");
    reveal_strlit("audio/mp4");
    reveal_strlit("audio/mpeg");
    reveal_strlit("audio/ogg");
    reveal_strlit("audio/wav");
    reveal_strlit("audio/wave");
    reveal_strlit("audio/x-wav");
    reveal_strlit("image/bmp");
    reveal_strlit("image/gif");
    reveal_strlit("image/jpeg");
    reveal_strlit("image/jpg");
    reveal_strlit("image/png");
    reveal_strlit("image/svg+xml");
    reveal_strlit("image/tiff");
    reveal_strlit("image/webp");
    reveal_strlit("video/mp4");
    reveal_strlit("video/quicktime");
    reveal_strlit("video/webm");
    reveal_strlit("video/x-matroska");
    reveal_strlit("video/x-msvideo");
    assert forall|i: int| 0 <= i < 19 implies mime_char(#[trigger] "application/vnd.rar"@[i]) by {
        if i == 0 {} else if i == 1 {} else if i == 2 {} else if i == 3 {} else if i == 4 {} else if i == 5 {} else if i == 6 {} else if i == 7 {} else if i == 8 {} else if i == 9 {} else if i == 10 {} else if i == 11 {} else if i == 12 {} else if i == 13 {} else if i == 14 {} else if i == 15 {} else if i == 16 {} else if i == 17 {} else if i == 18 {}
    }
    lemma_plain_mime_essence("application/vnd.rar"@);
    assert("image/jpeg"@.len() != "application/vnd.rar"@.len());
    assert("image/jpg"@.len() != "application/vnd.rar"@.len());
    assert("image/png"@.len() != "application/vnd.rar"@.len());
    assert("image/gif"@.len() != "application/vnd.rar"@.len());
    assert("image/webp"@.len() != "application/vnd.rar"@.len());
    assert("image/bmp"@.len() != "application/vnd.rar"@.len());
    assert("image/tiff"@.len() != "application/vnd.rar"@.len());
    assert("image/svg+xml"@.len() != "application/vnd.rar"@.len());
    assert("video/mp4"@.len() != "application/vnd.rar"@.len());
    assert("video/quicktime"@.len() != "application/vnd.rar"@.len());
    assert("video/webm"@.len() != "application/vnd.rar"@.len());
    assert("video/x-msvideo"@.len() != "application/vnd.rar"@.len());
    assert("video/x-matroska"@.len() != "application/vnd.rar"@.len());
    assert("audio/mpeg"@.len() != "application/vnd.rar"@.len());
    assert("audio/mp3"@.len() != "application/vnd.rar"@.len());
    assert("audio/wav"@.len() != "application/vnd.rar"@.len());
    assert("audio/wave"@.len() != "application/vnd.rar"@.len());
    assert("audio/x-wav"@.len() != "application/vnd.rar"@.len());
    assert("audio/ogg"@.len() != "application/vnd.rar"@.len());
    assert("audio/flac"@.len() != "application/vnd.rar"@.len());
    assert("audio/mp4"@.len() != "application/vnd.rar"@.len());
    assert("application/pdf"@.len() != "application/vnd.rar"@.len());
    assert("application/zip"@.len() != "application/vnd.rar"@.len());
    assert("application/x-zip-compressed"@.len() != "application/vnd.rar"@.len());
    assert("application/vnd.android.package-archive"@.len() != "application/vnd.rar"@.len());
}

/// `application/x-7z-compressed` is its own essence and the table gives it back.
proof fn lemma_mime_row_7z()
    ensures
        mime_essence("application/x-7z-compressed"@) == "application/x-7z-compressed"@,
        mime_table("application/x-7z-compressed"@) == Some(("application/x-7z-compressed"@, "7z"@)),
{
    reveal_strlit("application/pdf");
    reveal_strlit("application/vnd.android.package-archive");
    reveal_strlit("application/vnd.rar");
    reveal_strlit("application/x-7z-compressed");
    reveal_strlit("application/x-rar-compressed");
    reveal_strlit("application/x-zip-compressed");
    reveal_strlit("application/zip");
    reveal_strlit("audio/flac");
    reveal_strlit("audio/mp3");
    reveal_strlit("audio/mp4");
    reveal_strlit("audio/mpeg");
    reveal_strlit("audio/ogg");
    reveal_strlit("audio/wav");
    reveal_strlit("audio/wave");
    reveal_strlit("audio/x-wav");
    reveal_strlit("image/bmp");
    reveal_strlit("image/gif");
    reveal_strlit("image/jpeg");
    reveal_strlit("image/jpg");
    reveal_strlit("image/png");
    reveal_strlit("image/svg+xml");
    reveal_strlit("image/tiff");
    reveal_strlit("image/webp");
    reveal_strlit("video/mp4");
    reveal_strlit("video/quicktime");
    reveal_strlit("video/webm");
    reveal_strlit("video/x-matroska");
    reveal_strlit("video/x-msvideo");
    assert forall|i: int| 0 <= i < 27 implies mime_char(#[trigger] "application/x-7z-compressed"@[i]) by {
        if i == 0 {} else if i == 1 {} else if i == 2 {} else if i == 3 {} else if i == 4 {} else if i == 5 {} else if i == 6 {} else if i == 7 {} else if i == 8 {} else if i == 9 {} else if i == 10 {} else if i == 11 {} else if i == 12 {} else if i == 13 {} else if i == 14 {} else if i == 15 {} else if i == 16 {} else if i == 17 {} else if i == 18 {} else if i == 19 {} else if i == 20 {} else if i == 21 {} else if i == 22 {} else if i == 23 {} else if i == 24 {} else if i == 25 {} else if i == 26 {}
    }
    lemma_plain_mime_essence("application/x-7z-compressed"@);
    assert("image/jpeg"@.len() != "application/x-7z-compressed"@.len());
    assert("image/jpg"@.len() != "application/x-7z-compressed"@.len());
    assert("image/png"@.len() != "application/x-7z-compressed"@.len());
    assert("image/gif"@.len() != "application/x-7z-compressed"@.len());
    assert("image/webp"@.len() != "application/x-7z-compressed"@.len());
    assert("image/bmp"@.len() != "application/x-7z-compressed"@.len());
    assert("image/tiff"@.len() != "application/x-7z-compressed"@.len());
    assert("image/svg+xml"@.len() != "application/x-7z-compressed"@.len());
    assert("video/mp4"@.len() != "application/x-7z-compressed"@.len());
    assert("video/quicktime"@.len() != "application/x-7z-compressed"@.len());
    assert("video/webm"@.len() != "application/x-7z-compressed"@.len());
    assert("video/x-msvideo"@.len() != "application/x-7z-compressed"@.len());
    assert("video/x-matroska"@.len() != "application/x-7z-compressed"@.len());
    assert("audio/mpeg"@.len() != "application/x-7z-compressed"@.len());
    assert("audio/mp3"@.len() != "application/x-7z-compressed"@.len());
    assert("audio/wav"@.len() != "application/x-7z-compressed"@.len());
    assert("audio/wave"@.len() != "application/x-7z-compressed"@.len());
    assert("audio/x-wav"@.len() != "application/x-7z-compressed"@.len());
    assert("audio/ogg"@.len() != "application/x-7z-compressed"@.len());
    assert("audio/flac"@.len() != "application/x-7z-compressed"@.len());
    assert("audio/mp4"@.len() != "application/x-7z-compressed"@.len());
    assert("application/pdf"@.len() != "application/x-7z-compressed"@.len());
    assert("application/zip"@.len() != "application/x-7z-compressed"@.len());
    assert("application/x-zip-compressed"@.len() != "application/x-7z-compressed"@.len());
    assert("application/vnd.android.package-archive"@.len() != "application/x-7z-compressed"@.len());
    assert("application/vnd.rar"@.len() != "application/x-7z-compressed"@.len());
    assert("application/x-rar-compressed"@.len() != "application/x-7z-compressed"@.len());
}

/// `application/vnd.microsoft.portable-executable` is its own essence and the table gives it back.
proof fn lemma_mime_row_exe()
    ensures
        mime_essence("application/vnd.microsoft.portable-executable"@) == "application/vnd.microsoft.portable-executable"@,
        mime_table("application/vnd.microsoft.portable-executable"@) == Some(("application/vnd.microsoft.portable-executable"@, "exe"@)),
{
    reveal_strlit("application/pdf");
    reveal_strlit("application/vnd.android.package-archive");
    reveal_strlit("application/vnd.microsoft.portable-executable");
    reveal_strlit("application/vnd.rar");
    reveal_strlit("application/x-7z-compressed");
    reveal_strlit("application/x-rar-compressed");
    reveal_strlit("application/x-zip-compressed");
    reveal_strlit("application/zip");
    reveal_strlit("audio/flac");
    reveal_strlit("audio/mp3");
    reveal_strlit("audio/mp4");
    reveal_strlit("audio/mpeg");
    reveal_strlit("audio/ogg");
    reveal_strlit("audio/wav");
    reveal_strlit("audio/wave");
    reveal_strlit("audio/x-wav");
    reveal_strlit("image/bmp");
    reveal_strlit("image/gif");
    reveal_strlit("image/jpeg");
    reveal_strlit("image/jpg");
    reveal_strlit("image/png");
    reveal_strlit("image/svg+xml");
    reveal_strlit("image/tiff");
    reveal_strlit("image/webp");
    reveal_strlit("video/mp4");
    reveal_strlit("video/quicktime");
    reveal_strlit("video/webm");
    reveal_strlit("video/x-matroska");
    reveal_strlit("video/x-msvideo");
    assert forall|i: int| 0 <= i < 45 implies mime_char(#[trigger] "application/vnd.microsoft.portable-executable"@[i]) by {
        if i == 0 {} else if i == 1 {} else if i == 2 {} else if i == 3 {} else if i == 4 {} else if i == 5 {} else if i == 6 {} else if i == 7 {} else if i == 8 {} else if i == 9 {} else if i == 10 {} else if i == 11 {} else if i == 12 {} else if i == 13 {} else if i == 14 {} else if i == 15 {} else if i == 16 {} else if i == 17 {} else if i == 18 {} else if i == 19 {} else if i == 20 {} else if i == 21 {} else if i == 22 {} else if i == 23 {} else if i == 24 {} else if i == 25 {} else if i == 26 {} else if i == 27 {} else if i == 28 {} else if i == 29 {} else if i == 30 {} else if i == 31 {} else if i == 32 {} else if i == 33 {} else if i == 34 {} else if i == 35 {} else if i == 36 {} else if i == 37 {} else if i == 38 {} else if i == 39 {} else if i == 40 {} else if i == 41 {} else if i == 42 {} else if i == 43 {} else if i == 44 {}
    }
    lemma_plain_mime_essence("application/vnd.microsoft.portable-executable"@);
    assert("image/jpeg"@.len() != "application/vnd.microsoft.portable-executable"@.len());
    assert("image/jpg"@.len() != "application/vnd.microsoft.portable-executable"@.len());
    assert("image/png"@.len() != "application/vnd.microsoft.portable-executable"@.len());
    assert("image/gif"@.len() != "application/vnd.microsoft.portable-executable"@.len());
    assert("image/webp"@.len() != "application/vnd.microsoft.portable-executable"@.len());
    assert("image/bmp"@.len() != "application/vnd.microsoft.portable-executable"@.len());
    assert("image/tiff"@.len() != "application/vnd.microsoft.portable-executable"@.len());
    assert("image/svg+xml"@.len() != "application/vnd.microsoft.portable-executable"@.len());
    assert("video/mp4"@.len() != "application/vnd.microsoft.portable-executable"@.len());
    assert("video/quicktime"@.len() != "application/vnd.microsoft.portable-executable"@.len());
    assert("video/webm"@.len() != "application/vnd.microsoft.portable-executable"@.len());
    assert("video/x-msvideo"@.len() != "application/vnd.microsoft.portable-executable"@.len());
    assert("video/x-matroska"@.len() != "application/vnd.microsoft.portable-executable"@.len());
    assert("audio/mpeg"@.len() != "application/vnd.microsoft.portable-executable"@.len());
    assert("audio/mp3"@.len() != "application/vnd.microsoft.portable-executable"@.len());
    assert("audio/wav"@.len() != "application/vnd.microsoft.portable-executable"@.len());
    assert("audio/wave"@.len() != "application/vnd.microsoft.portable-executable"@.len());
    assert("audio/x-wav"@.len() != "application/vnd.microsoft.portable-executable"@.len());
    assert("audio/ogg"@.len() != "application/vnd.microsoft.portable-executable"@.len());
    assert("audio/flac"@.len() != "application/vnd.microsoft.portable-executable"@.len());
    assert("audio/mp4"@.len() != "application/vnd.microsoft.portable-executable"@.len());
    assert("application/pdf"@.len() != "application/vnd.microsoft.portable-executable"@.len());
    assert("application/zip"@.len() != "application/vnd.microsoft.portable-executable"@.len());
    assert("application/x-zip-compressed"@.len() != "application/vnd.microsoft.portable-executable"@.len());
    assert("application/vnd.android.package-archive"@.len() != "application/vnd.microsoft.portable-executable"@.len());
    assert("application/vnd.rar"@.len() != "application/vnd.microsoft.portable-executable"@.len());
    assert("application/x-rar-compressed"@.len() != "application/vnd.microsoft.portable-executable"@.len());
    assert("application/x-7z-compressed"@.len() != "application/vnd.microsoft.portable-executable"@.len());
}

/// `application/x-msi` is its own essence and the table gives it back.
proof fn lemma_mime_row_msi()
    ensures
        mime_essence("application/x-msi"@) == "application/x-msi"@,
        mime_table("application/x-msi"@) == Some(("application/x-msi"@, "msi"@)),
{
    reveal_strlit("application/pdf");
    reveal_strlit("application/vnd.android.package-archive");
    reveal_strlit("application/vnd.microsoft.portable-executable");
    reveal_strlit("application/vnd.rar");
    reveal_strlit("application/x-7z-compressed");
    reveal_strlit("application/x-msdownload");
    reveal_strlit("application/x-msi");
    reveal_strlit("application/x-rar-compressed");
    reveal_strlit("application/x-zip-compressed");
    reveal_strlit("application/zip");
    reveal_strlit("audio/flac");
    reveal_strlit("audio/mp3");
    reveal_strlit("audio/mp4");
    reveal_strlit("audio/mpeg");
    reveal_strlit("audio/ogg");
    reveal_strlit("audio/wav");
    reveal_strlit("audio/wave");
    reveal_strlit("audio/x-wav");
    reveal_strlit("image/bmp");
    reveal_strlit("image/gif");
    reveal_strlit("image/jpeg");
    reveal_strlit("image/jpg");
    reveal_strlit("image/png");
    reveal_strlit("image/svg+xml");
    reveal_strlit("image/tiff");
    reveal_strlit("image/webp");
    reveal_strlit("video/mp4");
    reveal_strlit("video/quicktime");
    reveal_strlit("video/webm");
    reveal_strlit("video/x-matroska");
    reveal_strlit("video/x-msvideo");
    assert forall|i: int| 0 <= i < 17 implies mime_char(#[trigger] "application/x-msi"@[i]) by {
        if i == 0 {} else if i == 1 {} else if i == 2 {} else if i == 3 {} else if i == 4 {} else if i == 5 {} else if i == 6 {} else if i == 7 {} else if i == 8 {} else if i == 9 {} else if i == 10 {} else if i == 11 {} else if i == 12 {} else if i == 13 {} else if i == 14 {} else if i == 15 {} else if i == 16 {}
    }
    lemma_plain_mime_essence("application/x-msi"@);
    assert("image/jpeg"@.len() != "application/x-msi"@.len());
    assert("image/jpg"@.len() != "application/x-msi"@.len());
    assert("image/png"@.len() != "application/x-msi"@.len());
    assert("image/gif"@.len() != "application/x-msi"@.len());
    assert("image/webp"@.len() != "application/x-msi"@.len());
    assert("image/bmp"@.len() != "application/x-msi"@.len());
    assert("image/tiff"@.len() != "application/x-msi"@.len());
    assert("image/svg+xml"@.len() != "application/x-msi"@.len());
    assert("video/mp4"@.len() != "application/x-msi"@.len());
    assert("video/quicktime"@.len() != "application/x-msi"@.len());
    assert("video/webm"@.len() != "application/x-msi"@.len());
    assert("video/x-msvideo"@.len() != "application/x-msi"@.len());
    assert("video/x-matroska"@.len() != "application/x-msi"@.len());
    assert("audio/mpeg"@.len() != "application/x-msi"@.len());
    assert("audio/mp3"@.len() != "application/x-msi"@.len());
    assert("audio/wav"@.len() != "application/x-msi"@.len());
    assert("audio/wave"@.len() != "application/x-msi"@.len());
    assert("audio/x-wav"@.len() != "application/x-msi"@.len());
    assert("audio/ogg"@.len() != "application/x-msi"@.len());
    assert("audio/flac"@.len() != "application/x-msi"@.len());
    assert("audio/mp4"@.len() != "application/x-msi"@.len());
    assert("application/pdf"@.len() != "application/x-msi"@.len());
    assert("application/zip"@.len() != "application/x-msi"@.len());
    assert("application/x-zip-compressed"@.len() != "application/x-msi"@.len());
    assert("application/vnd.android.package-archive"@.len() != "application/x-msi"@.len());
    assert("application/vnd.rar"@.len() != "application/x-msi"@.len());
    assert("application/x-rar-compressed"@.len() != "application/x-msi"@.len());
    assert("application/x-7z-compressed"@.len() != "application/x-msi"@.len());
    assert("application/vnd.microsoft.portable-executable"@.len() != "application/x-msi"@.len());
    assert("application/x-msdownload"@.len() != "application/x-msi"@.len());
}

/// `text/plain` is its own essence and the table gives it back.
proof fn lemma_mime_row_txt()
    ensures
        mime_essence("text/plain"@) == "text/plain"@,
        mime_table("text/plain"@) == Some(("text/plain"@, "txt"@)),
{
    reveal_strlit("application/pdf");
    reveal_strlit("application/vnd.android.package-archive");
    reveal_strlit("application/vnd.microsoft.portable-executable");
    reveal_strlit("application/vnd.rar");
    reveal_strlit("application/x-7z-compressed");
    reveal_strlit("application/x-msdownload");
    reveal_strlit("application/x-msi");
    reveal_strlit("application/x-rar-compressed");
    reveal_strlit("application/x-zip-compressed");
    reveal_strlit("application/zip");
    reveal_strlit("audio/flac");
    reveal_strlit("audio/mp3");
    reveal_strlit("audio/mp4");
    reveal_strlit("audio/mpeg");
    reveal_strlit("audio/ogg");
    reveal_strlit("audio/wav");
    reveal_strlit("audio/wave");
    reveal_strlit("audio/x-wav");
    reveal_strlit("image/bmp");
    reveal_strlit("image/gif");
    reveal_strlit("image/jpeg");
    reveal_strlit("image/jpg");
    reveal_strlit("image/png");
    reveal_strlit("image/svg+xml");
    reveal_strlit("image/tiff");
    reveal_strlit("image/webp");
    reveal_strlit("text/plain");
    reveal_strlit("video/mp4");
    reveal_strlit("video/quicktime");
    reveal_strlit("video/webm");
    reveal_strlit("video/x-matroska");
    reveal_strlit("video/x-msvideo");
    assert forall|i: int| 0 <= i < 10 implies mime_char(#[trigger] "text/plain"@[i]) by {
        if i == 0 {} else if i == 1 {} else if i == 2 {} else if i == 3 {} else if i == 4 {} else if i == 5 {} else if i == 6 {} else if i == 7 {} else if i == 8 {} else if i == 9 {}
    }
    lemma_plain_mime_essence("text/plain"@);
    assert("image/jpeg"@[0] != "text/plain"@[0]);
    assert("image/jpg"@.len() != "text/plain"@.len());
    assert("image/png"@.len() != "text/plain"@.len());
    assert("image/gif"@.len() != "text/plain"@.len());
    assert("image/webp"@[0] != "text/plain"@[0]);
    assert("image/bmp"@.len() != "text/plain"@.len());
    assert("image/tiff"@[0] != "text/plain"@[0]);
    assert("image/svg+xml"@.len() != "text/plain"@.len());
    assert("video/mp4"@.len() != "text/plain"@.len());
    assert("video/quicktime"@.len() != "text/plain"@.len());
    assert("video/webm"@[0] != "text/plain"@[0]);
    assert("video/x-msvideo"@.len() != "text/plain"@.len());
    assert("video/x-matroska"@.len() != "text/plain"@.len());
    assert("audio/mpeg"@[0] != "text/plain"@[0]);
    assert("audio/mp3"@.len() != "text/plain"@.len());
    assert("audio/wav"@.len() != "text/plain"@.len());
    assert("audio/wave"@[0] != "text/plain"@[0]);
    assert("audio/x-wav"@.len() != "text/plain"@.len());
    assert("audio/ogg"@.len() != "text/plain"@.len());
    assert("audio/flac"@[0] != "text/plain"@[0]);
    assert("audio/mp4"@.len() != "text/plain"@.len());
    assert("application/pdf"@.len() != "text/plain"@.len());
    assert("application/zip"@.len() != "text/plain"@.len());
    assert("application/x-zip-compressed"@.len() != "text/plain"@.len());
    assert("application/vnd.android.package-archive"@.len() != "text/plain"@.len());
    assert("application/vnd.rar"@.len() != "text/plain"@.len());
    assert("application/x-rar-compressed"@.len() != "text/plain"@.len());
    assert("application/x-7z-compressed"@.len() != "text/plain"@.len());
    assert("application/vnd.microsoft.portable-executable"@.len() != "text/plain"@.len());
    assert("application/x-msdownload"@.len() != "text/plain"@.len());
    assert("application/x-msi"@.len() != "text/plain"@.len());
}

/// `text/markdown` is its own essence and the table gives it back.
proof fn lemma_mime_row_md()
    ensures
        mime_essence("text/markdown"@) == "text/markdown"@,
        mime_table("text/markdown"@) == Some(("text/markdown"@, "md"@)),
{
    reveal_strlit("application/pdf");
    reveal_strlit("application/vnd.android.package-archive");
    reveal_strlit("application/vnd.microsoft.portable-executable");
    reveal_strlit("application/vnd.rar");
    reveal_strlit("application/x-7z-compressed");
    reveal_strlit("application/x-msdownload");
    reveal_strlit("application/x-msi");
    reveal_strlit("application/x-rar-compressed");
    reveal_strlit("application/x-zip-compressed");
    reveal_strlit("application/zip");
    reveal_strlit("audio/flac");
    reveal_strlit("audio/mp3");
    reveal_strlit("audio/mp4");
    reveal_strlit("audio/mpeg");
    reveal_strlit("audio/ogg");
    reveal_strlit("audio/wav");
    reveal_strlit("audio/wave");
    reveal_strlit("audio/x-wav");
    reveal_strlit("image/bmp");
    reveal_strlit("image/gif");
    reveal_strlit("image/jpeg");
    reveal_strlit("image/jpg");
    reveal_strlit("image/png");
    reveal_strlit("image/svg+xml");
    reveal_strlit("image/tiff");
    reveal_strlit("image/webp");
    reveal_strlit("text/markdown");
    reveal_strlit("text/plain");
    reveal_strlit("video/mp4");
    reveal_strlit("video/quicktime");
    reveal_strlit("video/webm");
    reveal_strlit("video/x-matroska");
    reveal_strlit("video/x-msvideo");
    assert forall|i: int| 0 <= i < 13 implies mime_char(#[trigger] "text/markdown"@[i]) by {
        if i == 0 {} else if i == 1 {} else if i == 2 {} else if i == 3 {} else if i == 4 {} else if i == 5 {} else if i == 6 {} else if i == 7 {} else if i == 8 {} else if i == 9 {} else if i == 10 {} else if i == 11 {} else if i == 12 {}
    }
    lemma_plain_mime_essence("text/markdown"@);
    assert("image/jpeg"@.len() != "text/markdown"@.len());
    assert("image/jpg"@.len() != "text/markdown"@.len());
    assert("image/png"@.len() != "text/markdown"@.len());
    assert("image/gif"@.len() != "text/markdown"@.len());
    assert("image/webp"@.len() != "text/markdown"@.len());
    assert("image/bmp"@.len() != "text/markdown"@.len());
    assert("image/tiff"@.len() != "text/markdown"@.len());
    assert("image/svg+xml"@[0] != "text/markdown"@[0]);
    assert("video/mp4"@.len() != "text/markdown"@.len());
    assert("video/quicktime"@.len() != "text/markdown"@.len());
    assert("video/webm"@.len() != "text/markdown"@.len());
    assert("video/x-msvideo"@.len() != "text/markdown"@.len());
    assert("video/x-matroska"@.len() != "text/markdown"@.len());
    assert("audio/mpeg"@.len() != "text/markdown"@.len());
    assert("audio/mp3"@.len() != "text/markdown"@.len());
    assert("audio/wav"@.len() != "text/markdown"@.len());
    assert("audio/wave"@.len() != "text/markdown"@.len());
    assert("audio/x-wav"@.len() != "text/markdown"@.len());
    assert("audio/ogg"@.len() != "text/markdown"@.len());
    assert("audio/flac"@.len() != "text/markdown"@.len());
    assert("audio/mp4"@.len() != "text/markdown"@.len());
    assert("application/pdf"@.len() != "text/markdown"@.len());
    assert("application/zip"@.len() != "text/markdown"@.len());
    assert("application/x-zip-compressed"@.len() != "text/markdown"@.len());
    assert("application/vnd.android.package-archive"@.len() != "text/markdown"@.len());
    assert("application/vnd.rar"@.len() != "text/markdown"@.len());
    assert("application/x-rar-compressed"@.len() != "text/markdown"@.len());
    assert("application/x-7z-compressed"@.len() != "text/markdown"@.len());
    assert("application/vnd.microsoft.portable-executable"@.len() != "text/markdown"@.len());
    assert("application/x-msdownload"@.len() != "text/markdown"@.len());
    assert("application/x-msi"@.len() != "text/markdown"@.len());
    assert("text/plain"@.len() != "text/markdown"@.len());
}

/// `text/csv` is its own essence and the table gives it back.
proof fn lemma_mime_row_csv()
    ensures
        mime_essence("text/csv"@) == "text/csv"@,
        mime_table("text/csv"@) == Some(("text/csv"@, "csv"@)),
{
    reveal_strlit("application/pdf");
    reveal_strlit("application/vnd.android.package-archive");
    reveal_strlit("application/vnd.microsoft.portable-executable");
    reveal_strlit("application/vnd.rar");
    reveal_strlit("application/x-7z-compressed");
    reveal_strlit("application/x-msdownload");
    reveal_strlit("application/x-msi");
    reveal_strlit("application/x-rar-compressed");
    reveal_strlit("application/x-zip-compressed");
    reveal_strlit("application/zip");
    reveal_strlit("audio/flac");
    reveal_strlit("audio/mp3");
    reveal_strlit("audio/mp4");
    reveal_strlit("audio/mpeg");
    reveal_strlit("audio/ogg");
    reveal_strlit("audio/wav");
    reveal_strlit("audio/wave");
    reveal_strlit("audio/x-wav");
    reveal_strlit("image/bmp");
    reveal_strlit("image/gif");
    reveal_strlit("image/jpeg");
    reveal_strlit("image/jpg");
    reveal_strlit("image/png");
    reveal_strlit("image/svg+xml");
    reveal_strlit("image/tiff");
    reveal_strlit("image/webp");
    reveal_strlit("text/csv");
    reveal_strlit("text/markdown");
    reveal_strlit("text/plain");
    reveal_strlit("video/mp4");
    reveal_strlit("video/quicktime");
    reveal_strlit("video/webm");
    reveal_strlit("video/x-matroska");
    reveal_strlit("video/x-msvideo");
    assert forall|i: int| 0 <= i < 8 implies mime_char(#[trigger] "text/csv"@[i]) by {
        if i == 0 {} else if i == 1 {} else if i == 2 {} else if i == 3 {} else if i == 4 {} else if i == 5 {} else if i == 6 {} else if i == 7 {}
    }
    lemma_plain_mime_essence("text/csv"@);
    assert("image/jpeg"@.len() != "text/csv"@.len());
    assert("image/jpg"@.len() != "text/csv"@.len());
    assert("image/png"@.len() != "text/csv"@.len());
    assert("image/gif"@.len() != "text/csv"@.len());
    assert("image/webp"@.len() != "text/csv"@.len());
    assert("image/bmp"@.len() != "text/csv"@.len());
    assert("image/tiff"@.len() != "text/csv"@.len());
    assert("image/svg+xml"@.len() != "text/csv"@.len());
    assert("video/mp4"@.len() != "text/csv"@.len());
    assert("video/quicktime"@.len() != "text/csv"@.len());
    assert("video/webm"@.len() != "text/csv"@.len());
    assert("video/x-msvideo"@.len() != "text/csv"@.len());
    assert("video/x-matroska"@.len() != "text/csv"@.len());
    assert("audio/mpeg"@.len() != "text/csv"@.len());
    assert("audio/mp3"@.len() != "text/csv"@.len());
    assert("audio/wav"@.len() != "text/csv"@.len());
    assert("audio/wave"@.len() != "text/csv"@.len());
    assert("audio/x-wav"@.len() != "text/csv"@.len());
    assert("audio/ogg"@.len() != "text/csv"@.len());
    assert("audio/flac"@.len() != "text/csv"@.len());
    assert("audio/mp4"@.len() != "text/csv"@.len());
    assert("application/pdf"@.len() != "text/csv"@.len());
    assert("application/zip"@.len() != "text/csv"@.len());
    assert("application/x-zip-compressed"@.len() != "text/csv"@.len());
    assert("application/vnd.android.package-archive"@.len() != "text/csv"@.len());
    assert("application/vnd.rar"@.len() != "text/csv"@.len());
    assert("application/x-rar-compressed"@.len() != "text/csv"@.len());
    assert("application/x-7z-compressed"@.len() != "text/csv"@.len());
    assert("application/vnd.microsoft.portable-executable"@.len() != "text/csv"@.len());
    assert("application/x-msdownload"@.len() != "text/csv"@.len());
    assert("application/x-msi"@.len() != "text/csv"@.len());
    assert("text/plain"@.len() != "text/csv"@.len());
    assert("text/markdown"@.len() != "text/csv"@.len());
}

/// `application/json` is its own essence and the table gives it back.
proof fn lemma_mime_row_json()
    ensures
        mime_essence("application/json"@) == "application/json"@,
        mime_table("application/json"@) == Some(("application/json"@, "json"@)),
{
    reveal_strlit("application/json");
    reveal_strlit("application/pdf");
    reveal_strlit("application/vnd.android.package-archive");
    reveal_strlit("application/vnd.microsoft.portable-executable");
    reveal_strlit("application/vnd.rar");
    reveal_strlit("application/x-7z-compressed");
    reveal_strlit("application/x-msdownload");
    reveal_strlit("application/x-msi");
    reveal_strlit("application/x-rar-compressed");
    reveal_strlit("application/x-zip-compressed");
    reveal_strlit("application/zip");
    reveal_strlit("audio/flac");
    reveal_strlit("audio/mp3");
    reveal_strlit("audio/mp4");
    reveal_strlit("audio/mpeg");
    reveal_strlit("audio/ogg");
    reveal_strlit("audio/wav");
    reveal_strlit("audio/wave");
    reveal_strlit("audio/x-wav");
    reveal_strlit("image/bmp");
    reveal_strlit("image/gif");
    reveal_strlit("image/jpeg");
    reveal_strlit("image/jpg");
    reveal_strlit("image/png");
    reveal_strlit("image/svg+xml");
    reveal_strlit("image/tiff");
    reveal_strlit("image/webp");
    reveal_strlit("text/csv");
    reveal_strlit("text/markdown");
    reveal_strlit("text/plain");
    reveal_strlit("video/mp4");
    reveal_strlit("video/quicktime");
    reveal_strlit("video/webm");
    reveal_strlit("video/x-matroska");
    reveal_strlit("video/x-msvideo");
    assert forall|i: int| 0 <= i < 16 implies mime_char(#[trigger] "application/json"@[i]) by {
        if i == 0 {} else if i == 1 {} else if i == 2 {} else if i == 3 {} else if i == 4 {} else if i == 5 {} else if i == 6 {} else if i == 7 {} else if i == 8 {} else if i == 9 {} else if i == 10 {} else if i == 11 {} else if i == 12 {} else if i == 13 {} else if i == 14 {} else if i == 15 {}
    }
    lemma_plain_mime_essence("application/json"@);
    assert("image/jpeg"@.len() != "application/json"@.len());
    assert("image/jpg"@.len() != "application/json"@.len());
    assert("image/png"@.len() != "application/json"@.len());
    assert("image/gif"@.len() != "application/json"@.len());
    assert("image/webp"@.len() != "application/json"@.len());
    assert("image/bmp"@.len() != "application/json"@.len());
    assert("image/tiff"@.len() != "application/json"@.len());
    assert("image/svg+xml"@.len() != "application/json"@.len());
    assert("video/mp4"@.len() != "application/json"@.len());
    assert("video/quicktime"@.len() != "application/json"@.len());
    assert("video/webm"@.len() != "application/json"@.len());
    assert("video/x-msvideo"@.len() != "application/json"@.len());
    assert("video/x-matroska"@[0] != "application/json"@[0]);
    assert("audio/mpeg"@.len() != "application/json"@.len());
    assert("audio/mp3"@.len() != "application/json"@.len());
    assert("audio/wav"@.len() != "application/json"@.len());
    assert("audio/wave"@.len() != "application/json"@.len());
    assert("audio/x-wav"@.len() != "application/json"@.len());
    assert("audio/ogg"@.len() != "application/json"@.len());
    assert("audio/flac"@.len() != "application/json"@.len());
    assert("audio/mp4"@.len() != "application/json"@.len());
    assert("application/pdf"@.len() != "application/json"@.len());
    assert("application/zip"@.len() != "application/json"@.len());
    assert("application/x-zip-compressed"@.len() != "application/json"@.len());
    assert("application/vnd.android.package-archive"@.len() != "application/json"@.len());
    assert("application/vnd.rar"@.len() != "application/json"@.len());
    assert("application/x-rar-compressed"@.len() != "application/json"@.len());
    assert("application/x-7z-compressed"@.len() != "application/json"@.len());
    assert("application/vnd.microsoft.portable-executable"@.len() != "application/json"@.len());
    assert("application/x-msdownload"@.len() != "application/json"@.len());
    assert("application/x-msi"@.len() != "application/json"@.len());
    assert("text/plain"@.len() != "application/json"@.len());
    assert("text/markdown"@.len() != "application/json"@.len());
    assert("text/csv"@.len() != "application/json"@.len());
}

/// `application/msword` is its own essence and the table gives it back.
proof fn lemma_mime_row_doc()
    ensures
        mime_essence("application/msword"@) == "application/msword"@,
        mime_table("application/msword"@) == Some(("application/msword"@, "doc"@)),
{
    reveal_strlit("application/json");
    reveal_strlit("application/msword");
    reveal_strlit("application/pdf");
    reveal_strlit("application/vnd.android.package-archive");
    reveal_strlit("application/vnd.microsoft.portable-executable");
    reveal_strlit("application/vnd.rar");
    reveal_strlit("application/x-7z-compressed");
    reveal_strlit("application/x-msdownload");
    reveal_strlit("application/x-msi");
    reveal_strlit("application/x-rar-compressed");
    reveal_strlit("application/x-zip-compressed");
    reveal_strlit("application/zip");
    reveal_strlit("audio/flac");
    reveal_strlit("audio/mp3");
    reveal_strlit("audio/mp4");
    reveal_strlit("audio/mpeg");
    reveal_strlit("audio/ogg");
    reveal_strlit("audio/wav");
    reveal_strlit("audio/wave");
    reveal_strlit("audio/x-wav");
    reveal_strlit("image/bmp");
    reveal_strlit("image/gif");
    reveal_strlit("image/jpeg");
    reveal_strlit("image/jpg");
    reveal_strlit("image/png");
    reveal_strlit("image/svg+xml");
    reveal_strlit("image/tiff");
    reveal_strlit("image/webp");
    reveal_strlit("text/csv");
    reveal_strlit("text/markdown");
    reveal_strlit("text/plain");
    reveal_strlit("video/mp4");
    reveal_strlit("video/quicktime");
    reveal_strlit("video/webm");
    reveal_strlit("video/x-matroska");
    reveal_strlit("video/x-msvideo");
    assert forall|i: int| 0 <= i < 18 implies mime_char(#[trigger] "application/msword"@[i]) by {
        if i == 0 {} else if i == 1 {} else if i == 2 {} else if i == 3 {} else if i == 4 {} else if i == 5 {} else if i == 6 {} else if i == 7 {} else if i == 8 {} else if i == 9 {} else if i == 10 {} else if i == 11 {} else if i == 12 {} else if i == 13 {} else if i == 14 {} else if i == 15 {} else if i == 16 {} else if i == 17 {}
    }
    lemma_plain_mime_essence("application/msword"@);
    assert("image/jpeg"@.len() != "application/msword"@.len());
    assert("image/jpg"@.len() != "application/msword"@.len());
    assert("image/png"@.len() != "application/msword"@.len());
    assert("image/gif"@.len() != "application/msword"@.len());
    assert("image/webp"@.len() != "application/msword"@.len());
    assert("image/bmp"@.len() != "application/msword"@.len());
    assert("image/tiff"@.len() != "application/msword"@.len());
    assert("image/svg+xml"@.len() != "application/msword"@.len());
    assert("video/mp4"@.len() != "application/msword"@.len());
    assert("video/quicktime"@.len() != "application/msword"@.len());
    assert("video/webm"@.len() != "application/msword"@.len());
    assert("video/x-msvideo"@.len() != "application/msword"@.len());
    assert("video/x-matroska"@.len() != "application/msword"@.len());
    assert("audio/mpeg"@.len() != "application/msword"@.len());
    assert("audio/mp3"@.len() != "application/msword"@.len());
    assert("audio/wav"@.len() != "application/msword"@.len());
    assert("audio/wave"@.len() != "application/msword"@.len());
    assert("audio/x-wav"@.len() != "application/msword"@.len());
    assert("audio/ogg"@.len() != "application/msword"@.len());
    assert("audio/flac"@.len() != "application/msword"@.len());
    assert("audio/mp4"@.len() != "application/msword"@.len());
    assert("application/pdf"@.len() != "application/msword"@.len());
    assert("application/zip"@.len() != "application/msword"@.len());
    assert("application/x-zip-compressed"@.len() != "application/msword"@.len());
    assert("application/vnd.android.package-archive"@.len() != "application/msword"@.len());
    assert("application/vnd.rar"@.len() != "application/msword"@.len());
    assert("application/x-rar-compressed"@.len() != "application/msword"@.len());
    assert("application/x-7z-compressed"@.len() != "application/msword"@.len());
    assert("application/vnd.microsoft.portable-executable"@.len() != "application/msword"@.len());
    assert("application/x-msdownload"@.len() != "application/msword"@.len());
    assert("application/x-msi"@.len() != "application/msword"@.len());
    assert("text/plain"@.len() != "application/msword"@.len());
    assert("text/markdown"@.len() != "application/msword"@.len());
    assert("text/csv"@.len() != "application/msword"@.len());
    assert("application/json"@.len() != "application/msword"@.len());
}

/// `application/vnd.openxmlformats-officedocument.wordprocessingml.document` is its own essence and the table gives it back.
proof fn lemma_mime_row_docx()
    ensures
        mime_essence("application/vnd.openxmlformats-officedocument.wordprocessingml.document"@) == "application/vnd.openxmlformats-officedocument.wordprocessingml.document"@,
        mime_table("application/vnd.openxmlformats-officedocument.wordprocessingml.document"@) == Some(("application/vnd.openxmlformats-officedocument.wordprocessingml.document"@, "docx"@)),
{
    reveal_strlit("application/json");
    reveal_strlit("application/msword");
    reveal_strlit("application/pdf");
    reveal_strlit("application/vnd.android.package-archive");
    reveal_strlit("application/vnd.microsoft.portable-executable");
    reveal_strlit("application/vnd.openxmlformats-officedocument.wordprocessingml.document");
    reveal_strlit("application/vnd.rar");
    reveal_strlit("application/x-7z-compressed");
    reveal_strlit("application/x-msdownload");
    reveal_strlit("application/x-msi");
    reveal_strlit("application/x-rar-compressed");
    reveal_strlit("application/x-zip-compressed");
    reveal_strlit("application/zip");
    reveal_strlit("audio/flac");
    reveal_strlit("audio/mp3");
    reveal_strlit("audio/mp4");
    reveal_strlit("audio/mpeg");
    reveal_strlit("audio/ogg");
    reveal_strlit("audio/wav");
    reveal_strlit("audio/wave");
    reveal_strlit("audio/x-wav");
    reveal_strlit("image/bmp");
    reveal_strlit("image/gif");
    reveal_strlit("image/jpeg");
    reveal_strlit("image/jpg");
    reveal_strlit("image/png");
    reveal_strlit("image/svg+xml");
    reveal_strlit("image/tiff");
    reveal_strlit("image/webp");
    reveal_strlit("text/csv");
    reveal_strlit("text/markdown");
    reveal_strlit("text/plain");
    reveal_strlit("video/mp4");
    reveal_strlit("video/quicktime");
    reveal_strlit("video/webm");
    reveal_strlit("video/x-matroska");
    reveal_strlit("video/x-msvideo");
    assert forall|i: int| 0 <= i < 71 implies mime_char(#[trigger] "application/vnd.openxmlformats-officedocument.wordprocessingml.document"@[i]) by {
        if i == 0 {} else if i == 1 {} else if i == 2 {} else if i == 3 {} else if i == 4 {} else if i == 5 {} else if i == 6 {} else if i == 7 {} else if i == 8 {} else if i == 9 {} else if i == 10 {} else if i == 11 {} else if i == 12 {} else if i == 13 {} else if i == 14 {} else if i == 15 {} else if i == 16 {} else if i == 17 {} else if i == 18 {} else if i == 19 {} else if i == 20 {} else if i == 21 {} else if i == 22 {} else if i == 23 {} else if i == 24 {} else if i == 25 {} else if i == 26 {} else if i == 27 {} else if i == 28 {} else if i == 29 {} else if i == 30 {} else if i == 31 {} else if i == 32 {} else if i == 33 {} else if i == 34 {} else if i == 35 {} else if i == 36 {} else if i == 37 {} else if i == 38 {} else if i == 39 {} else if i == 40 {} else if i == 41 {} else if i == 42 {} else if i == 43 {} else if i == 44 {} else if i == 45 {} else if i == 46 {} else if i == 47 {} else if i == 48 {} else if i == 49 {} else if i == 50 {} else if i == 51 {} else if i == 52 {} else if i == 53 {} else if i == 54 {} else if i == 55 {} else if i == 56 {} else if i == 57 {} else if i == 58 {} else if i == 59 {} else if i == 60 {} else if i == 61 {} else if i == 62 {} else if i == 63 {} else if i == 64 {} else if i == 65 {} else if i == 66 {} else if i == 67 {} else if i == 68 {} else if i == 69 {} else if i == 70 {}
    }
    lemma_plain_mime_essence("application/vnd.openxmlformats-officedocument.wordprocessingml.document"@);
    assert("image/jpeg"@.len() != "application/vnd.openxmlformats-officedocument.wordprocessingml.document"@.len());
    assert("image/jpg"@.len() != "application/vnd.openxmlformats-officedocument.wordprocessingml.document"@.len());
    assert("image/png"@.len() != "application/vnd.openxmlformats-officedocument.wordprocessingml.document"@.len());
    assert("image/gif"@.len() != "application/vnd.openxmlformats-officedocument.wordprocessingml.document"@.len());
    assert("image/webp"@.len() != "application/vnd.openxmlformats-officedocument.wordprocessingml.document"@.len());
    assert("image/bmp"@.len() != "application/vnd.openxmlformats-officedocument.wordprocessingml.document"@.len());
    assert("image/tiff"@.len() != "application/vnd.openxmlformats-officedocument.wordprocessingml.document"@.len());
    assert("image/svg+xml"@.len() != "application/vnd.openxmlformats-officedocument.wordprocessingml.document"@.len());
    assert("video/mp4"@.len() != "application/vnd.openxmlformats-officedocument.wordprocessingml.document"@.len());
    assert("video/quicktime"@.len() != "application/vnd.openxmlformats-officedocument.wordprocessingml.document"@.len());
    assert("video/webm"@.len() != "application/vnd.openxmlformats-officedocument.wordprocessingml.document"@.len());
    assert("video/x-msvideo"@.len() != "application/vnd.openxmlformats-officedocument.wordprocessingml.document"@.len());
    assert("video/x-matroska"@.len() != "application/vnd.openxmlformats-officedocument.wordprocessingml.document"@.len());
    assert("audio/mpeg"@.len() != "application/vnd.openxmlformats-officedocument.wordprocessingml.document"@.len());
    assert("audio/mp3"@.len() != "application/vnd.openxmlformats-officedocument.wordprocessingml.document"@.len());
    assert("audio/wav"@.len() != "application/vnd.openxmlformats-officedocument.wordprocessingml.document"@.len());
    assert("audio/wave"@.len() != "application/vnd.openxmlformats-officedocument.wordprocessingml.document"@.len());
    assert("audio/x-wav"@.len() != "application/vnd.openxmlformats-officedocument.wordprocessingml.document"@.len());
    assert("audio/ogg"@.len() != "application/vnd.openxmlformats-officedocument.wordprocessingml.document"@.len());
    assert("audio/flac"@.len() != "application/vnd.openxmlformats-officedocument.wordprocessingml.document"@.len());
    assert("audio/mp4"@.len() != "application/vnd.openxmlformats-officedocument.wordprocessingml.document"@.len());
    assert("application/pdf"@.len() != "application/vnd.openxmlformats-officedocument.wordprocessingml.document"@.len());
    assert("application/zip"@.len() != "application/vnd.openxmlformats-officedocument.wordprocessingml.document"@.len());
    assert("application/x-zip-compressed"@.len() != "application/vnd.openxmlformats-officedocument.wordprocessingml.document"@.len());
    assert("application/vnd.android.package-archive"@.len() != "application/vnd.openxmlformats-officedocument.wordprocessingml.document"@.len());
    assert("application/vnd.rar"@.len() != "application/vnd.openxmlformats-officedocument.wordprocessingml.document"@.len());
    assert("application/x-rar-compressed"@.len() != "application/vnd.openxmlformats-officedocument.wordprocessingml.document"@.len());
    assert("application/x-7z-compressed"@.len() != "application/vnd.openxmlformats-officedocument.wordprocessingml.document"@.len());
    assert("application/vnd.microsoft.portable-executable"@.len() != "application/vnd.openxmlformats-officedocument.wordprocessingml.document"@.len());
    assert("application/x-msdownload"@.len() != "application/vnd.openxmlformats-officedocument.wordprocessingml.document"@.len());
    assert("application/x-msi"@.len() != "application/vnd.openxmlformats-officedocument.wordprocessingml.document"@.len());
    assert("text/plain"@.len() != "application/vnd.openxmlformats-officedocument.wordprocessingml.document"@.len());
    assert("text/markdown"@.len() != "application/vnd.openxmlformats-officedocument.wordprocessingml.document"@.len());
    assert("text/csv"@.len() != "application/vnd.openxmlformats-officedocument.wordprocessingml.document"@.len());
    assert("application/json"@.len() != "application/vnd.openxmlformats-officedocument.wordprocessingml.document"@.len());
    assert("application/msword"@.len() != "application/vnd.openxmlformats-officedocument.wordprocessingml.document"@.len());
}

/// `application/vnd.ms-excel` is its own essence and the table gives it back.
proof fn lemma_mime_row_xls()
    ensures
        mime_essence("application/vnd.ms-excel"@) == "application/vnd.ms-excel"@,
        mime_table("application/vnd.ms-excel"@) == Some(("application/vnd.ms-excel"@, "xls"@)),
{
    reveal_strlit("application/json");
    reveal_strlit("application/msword");
    reveal_strlit("application/pdf");
    reveal_strlit("application/vnd.android.package-archive");
    reveal_strlit("application/vnd.microsoft.portable-executable");
    reveal_strlit("application/vnd.ms-excel");
    reveal_strlit("application/vnd.openxmlformats-officedocument.wordprocessingml.document");
    reveal_strlit("application/vnd.rar");
    reveal_strlit("application/x-7z-compressed");
    reveal_strlit("application/x-msdownload");
    reveal_strlit("application/x-msi");
    reveal_strlit("application/x-rar-compressed");
    reveal_strlit("application/x-zip-compressed");
    reveal_strlit("application/zip");
    reveal_strlit("audio/flac");
    reveal_strlit("audio/mp3");
    reveal_strlit("audio/mp4");
    reveal_strlit("audio/mpeg");
    reveal_strlit("audio/ogg");
    reveal_strlit("audio/wav");
    reveal_strlit("audio/wave");
    reveal_strlit("audio/x-wav");
    reveal_strlit("image/bmp");
    reveal_strlit("image/gif");
    reveal_strlit("image/jpeg");
    reveal_strlit("image/jpg");
    reveal_strlit("image/png");
    reveal_strlit("image/svg+xml");
    reveal_strlit("image/tiff");
    reveal_strlit("image/webp");
    reveal_strlit("text/csv");
    reveal_strlit("text/markdown");
    reveal_strlit("text/plain");
    reveal_strlit("video/mp4");
    reveal_strlit("video/quicktime");
    reveal_strlit("video/webm");
    reveal_strlit("video/x-matroska");
    reveal_strlit("video/x-msvideo");
    assert forall|i: int| 0 <= i < 24 implies mime_char(#[trigger] "application/vnd.ms-excel"@[i]) by {
        if i == 0 {} else if i == 1 {} else if i == 2 {} else if i == 3 {} else if i == 4 {} else if i == 5 {} else if i == 6 {} else if i == 7 {} else if i == 8 {} else if i == 9 {} else if i == 10 {} else if i == 11 {} else if i == 12 {} else if i == 13 {} else if i == 14 {} else if i == 15 {} else if i == 16 {} else if i == 17 {} else if i == 18 {} else if i == 19 {} else if i == 20 {} else if i == 21 {} else if i == 22 {} else if i == 23 {}
    }
    lemma_plain_mime_essence("application/vnd.ms-excel"@);
    assert("image/jpeg"@.len() != "application/vnd.ms-excel"@.len());
    assert("image/jpg"@.len() != "application/vnd.ms-excel"@.len());
    assert("image/png"@.len() != "application/vnd.ms-excel"@.len());
    assert("image/gif"@.len() != "application/vnd.ms-excel"@.len());
    assert("image/webp"@.len() != "application/vnd.ms-excel"@.len());
    assert("image/bmp"@.len() != "application/vnd.ms-excel"@.len());
    assert("image/tiff"@.len() != "application/vnd.ms-excel"@.len());
    assert("image/svg+xml"@.len() != "application/vnd.ms-excel"@.len());
    assert("video/mp4"@.len() != "application/vnd.ms-excel"@.len());
    assert("video/quicktime"@.len() != "application/vnd.ms-excel"@.len());
    assert("video/webm"@.len() != "application/vnd.ms-excel"@.len());
    assert("video/x-msvideo"@.len() != "application/vnd.ms-excel"@.len());
    assert("video/x-matroska"@.len() != "application/vnd.ms-excel"@.len());
    assert("audio/mpeg"@.len() != "application/vnd.ms-excel"@.len());
    assert("audio/mp3"@.len() != "application/vnd.ms-excel"@.len());
    assert("audio/wav"@.len() != "application/vnd.ms-excel"@.len());
    assert("audio/wave"@.len() != "application/vnd.ms-excel"@.len());
    assert("audio/x-wav"@.len() != "application/vnd.ms-excel"@.len());
    assert("audio/ogg"@.len() != "application/vnd.ms-excel"@.len());
    assert("audio/flac"@.len() != "application/vnd.ms-excel"@.len());
    assert("audio/mp4"@.len() != "application/vnd.ms-excel"@.len());
    assert("application/pdf"@.len() != "application/vnd.ms-excel"@.len());
    assert("application/zip"@.len() != "application/vnd.ms-excel"@.len());
    assert("application/x-zip-compressed"@.len() != "application/vnd.ms-excel"@.len());
    assert("application/vnd.android.package-archive"@.len() != "application/vnd.ms-excel"@.len());
    assert("application/vnd.rar"@.len() != "application/vnd.ms-excel"@.len());
    assert("application/x-rar-compressed"@.len() != "application/vnd.ms-excel"@.len());
    assert("application/x-7z-compressed"@.len() != "application/vnd.ms-excel"@.len());
    assert("application/vnd.microsoft.portable-executable"@.len() != "application/vnd.ms-excel"@.len());
    assert("application/x-msdownload"@[12] != "application/vnd.ms-excel"@[12]);
    assert("application/x-msi"@.len() != "application/vnd.ms-excel"@.len());
    assert("text/plain"@.len() != "application/vnd.ms-excel"@.len());
    assert("text/markdown"@.len() != "application/vnd.ms-excel"@.len());
    assert("text/csv"@.len() != "application/vnd.ms-excel"@.len());
    assert("application/json"@.len() != "application/vnd.ms-excel"@.len());
    assert("application/msword"@.len() != "application/vnd.ms-excel"@.len());
    assert("application/vnd.openxmlformats-officedocument.wordprocessingml.document"@.len() != "application/vnd.ms-excel"@.len());
}

/// `application/vnd.openxmlformats-officedocument.spreadsheetml.sheet` is its own essence and the table gives it back.
proof fn lemma_mime_row_xlsx()
    ensures
        mime_essence("application/vnd.openxmlformats-officedocument.spreadsheetml.sheet"@) == "application/vnd.openxmlformats-officedocument.spreadsheetml.sheet"@,
        mime_table("application/vnd.openxmlformats-officedocument.spreadsheetml.sheet"@) == Some(("application/vnd.openxmlformats-officedocument.spreadsheetml.sheet"@, "xlsx"@)),
{
    reveal_strlit("application/json");
    reveal_strlit("application/msword");
    reveal_strlit("application/pdf");
    reveal_strlit("application/vnd.android.package-archive");
    reveal_strlit("application/vnd.microsoft.portable-executable");
    reveal_strlit("application/vnd.ms-excel");
    reveal_strlit("application/vnd.openxmlformats-officedocument.spreadsheetml.sheet");
    reveal_strlit("application/vnd.openxmlformats-officedocument.wordprocessingml.document");
    reveal_strlit("application/vnd.rar");
    reveal_strlit("application/x-7z-compressed");
    reveal_strlit("application/x-msdownload");
    reveal_strlit("application/x-msi");
    reveal_strlit("application/x-rar-compressed");
    reveal_strlit("application/x-zip-compressed");
    reveal_strlit("application/zip");
    reveal_strlit("audio/flac");
    reveal_strlit("audio/mp3");
    reveal_strlit("audio/mp4");
    reveal_strlit("audio/mpeg");
    reveal_strlit("audio/ogg");
    reveal_strlit("audio/wav");
    reveal_strlit("audio/wave");
    reveal_strlit("audio/x-wav");
    reveal_strlit("image/bmp");
    reveal_strlit("image/gif");
    reveal_strlit("image/jpeg");
    reveal_strlit("image/jpg");
    reveal_strlit("image/png");
    reveal_strlit("image/svg+xml");
    reveal_strlit("image/tiff");
    reveal_strlit("image/webp");
    reveal_strlit("text/csv");
    reveal_strlit("text/markdown");
    reveal_strlit("text/plain");
    reveal_strlit("video/mp4");
    reveal_strlit("video/quicktime");
    reveal_strlit("video/webm");
    reveal_strlit("video/x-matroska");
    reveal_strlit("video/x-msvideo");
    assert forall|i: int| 0 <= i < 65 implies mime_char(#[trigger] "application/vnd.openxmlformats-officedocument.spreadsheetml.sheet"@[i]) by {
        if i == 0 {} else if i == 1 {} else if i == 2 {} else if i == 3 {} else if i == 4 {} else if i == 5 {} else if i == 6 {} else if i == 7 {} else if i == 8 {} else if i == 9 {} else if i == 10 {} else if i == 11 {} else if i == 12 {} else if i == 13 {} else if i == 14 {} else if i == 15 {} else if i == 16 {} else if i == 17 {} else if i == 18 {} else if i == 19 {} else if i == 20 {} else if i == 21 {} else if i == 22 {} else if i == 23 {} else if i == 24 {} else if i == 25 {} else if i == 26 {} else if i == 27 {} else if i == 28 {} else if i == 29 {} else if i == 30 {} else if i == 31 {} else if i == 32 {} else if i == 33 {} else if i == 34 {} else if i == 35 {} else if i == 36 {} else if i == 37 {} else if i == 38 {} else if i == 39 {} else if i == 40 {} else if i == 41 {} else if i == 42 {} else if i == 43 {} else if i == 44 {} else if i == 45 {} else if i == 46 {} else if i == 47 {} else if i == 48 {} else if i == 49 {} else if i == 50 {} else if i == 51 {} else if i == 52 {} else if i == 53 {} else if i == 54 {} else if i == 55 {} else if i == 56 {} else if i == 57 {} else if i == 58 {} else if i == 59 {} else if i == 60 {} else if i == 61 {} else if i == 62 {} else if i == 63 {} else if i == 64 {}
    }
    lemma_plain_mime_essence("application/vnd.openxmlformats-officedocument.spreadsheetml.sheet"@);
    assert("image/jpeg"@.len() != "application/vnd.openxmlformats-officedocument.spreadsheetml.sheet"@.len());
    assert("image/jpg"@.len() != "application/vnd.openxmlformats-officedocument.spreadsheetml.sheet"@.len());
    assert("image/png"@.len() != "application/vnd.openxmlformats-officedocument.spreadsheetml.sheet"@.len());
    assert("image/gif"@.len() != "application/vnd.openxmlformats-officedocument.spreadsheetml.sheet"@.len());
    assert("image/webp"@.len() != "application/vnd.openxmlformats-officedocument.spreadsheetml.sheet"@.len());
    assert("image/bmp"@.len() != "application/vnd.openxmlformats-officedocument.spreadsheetml.sheet"@.len());
    assert("image/tiff"@.len() != "application/vnd.openxmlformats-officedocument.spreadsheetml.sheet"@.len());
    assert("image/svg+xml"@.len() != "application/vnd.openxmlformats-officedocument.spreadsheetml.sheet"@.len());
    assert("video/mp4"@.len() != "application/vnd.openxmlformats-officedocument.spreadsheetml.sheet"@.len());
    assert("video/quicktime"@.len() != "application/vnd.openxmlformats-officedocument.spreadsheetml.sheet"@.len());
    assert("video/webm"@.len() != "application/vnd.openxmlformats-officedocument.spreadsheetml.sheet"@.len());
    assert("video/x-msvideo"@.len() != "application/vnd.openxmlformats-officedocument.spreadsheetml.sheet"@.len());
    assert("video/x-matroska"@.len() != "application/vnd.openxmlformats-officedocument.spreadsheetml.sheet"@.len());
    assert("audio/mpeg"@.len() != "application/vnd.openxmlformats-officedocument.spreadsheetml.sheet"@.len());
    assert("audio/mp3"@.len() != "application/vnd.openxmlformats-officedocument.spreadsheetml.sheet"@.len());
    assert("audio/wav"@.len() != "application/vnd.openxmlformats-officedocument.spreadsheetml.sheet"@.len());
    assert("audio/wave"@.len() != "application/vnd.openxmlformats-officedocument.spreadsheetml.sheet"@.len());
    assert("audio/x-wav"@.len() != "application/vnd.openxmlformats-officedocument.spreadsheetml.sheet"@.len());
    assert("audio/ogg"@.len() != "application/vnd.openxmlformats-officedocument.spreadsheetml.sheet"@.len());
    assert("audio/flac"@.len() != "application/vnd.openxmlformats-officedocument.spreadsheetml.sheet"@.len());
    assert("audio/mp4"@.len() != "application/vnd.openxmlformats-officedocument.spreadsheetml.sheet"@.len());
    assert("application/pdf"@.len() != "application/vnd.openxmlformats-officedocument.spreadsheetml.sheet"@.len());
    assert("application/zip"@.len() != "application/vnd.openxmlformats-officedocument.spreadsheetml.sheet"@.len());
    assert("application/x-zip-compressed"@.len() != "application/vnd.openxmlformats-officedocument.spreadsheetml.sheet"@.len());
    assert("application/vnd.android.package-archive"@.len() != "application/vnd.openxmlformats-officedocument.spreadsheetml.sheet"@.len());
    assert("application/vnd.rar"@.len() != "application/vnd.openxmlformats-officedocument.spreadsheetml.sheet"@.len());
    assert("application/x-rar-compressed"@.len() != "application/vnd.openxmlformats-officedocument.spreadsheetml.sheet"@.len());
    assert("application/x-7z-compressed"@.len() != "application/vnd.openxmlformats-officedocument.spreadsheetml.sheet"@.len());
    assert("application/vnd.microsoft.portable-executable"@.len() != "application/vnd.openxmlformats-officedocument.spreadsheetml.sheet"@.len());
    assert("application/x-msdownload"@.len() != "application/vnd.openxmlformats-officedocument.spreadsheetml.sheet"@.len());
    assert("application/x-msi"@.len() != "application/vnd.openxmlformats-officedocument.spreadsheetml.sheet"@.len());
    assert("text/plain"@.len() != "application/vnd.openxmlformats-officedocument.spreadsheetml.sheet"@.len());
    assert("text/markdown"@.len() != "application/vnd.openxmlformats-officedocument.spreadsheetml.sheet"@.len());
    assert("text/csv"@.len() != "application/vnd.openxmlformats-officedocument.spreadsheetml.sheet"@.len());
    assert("application/json"@.len() != "application/vnd.openxmlformats-officedocument.spreadsheetml.sheet"@.len());
    assert("application/msword"@.len() != "application/vnd.openxmlformats-officedocument.spreadsheetml.sheet"@.len());
    assert("application/vnd.openxmlformats-officedocument.wordprocessingml.document"@.len() != "application/vnd.openxmlformats-officedocument.spreadsheetml.sheet"@.len());
    assert("application/vnd.ms-excel"@.len() != "application/vnd.openxmlformats-officedocument.spreadsheetml.sheet"@.len());
}

/// `application/vnd.ms-powerpoint` is its own essence and the table gives it back.
proof fn lemma_mime_row_ppt()
    ensures
        mime_essence("application/vnd.ms-powerpoint"@) == "application/vnd.ms-powerpoint"@,
        mime_table("application/vnd.ms-powerpoint"@) == Some(("application/vnd.ms-powerpoint"@, "ppt"@)),
{
    reveal_strlit("application/json");
    reveal_strlit("application/msword");
    reveal_strlit("application/pdf");
    reveal_strlit("application/vnd.android.package-archive");
    reveal_strlit("application/vnd.microsoft.portable-executable");
    reveal_strlit("application/vnd.ms-excel");
    reveal_strlit("application/vnd.ms-powerpoint");
    reveal_strlit("application/vnd.openxmlformats-officedocument.spreadsheetml.sheet");
    reveal_strlit("application/vnd.openxmlformats-officedocument.wordprocessingml.document");
    reveal_strlit("application/vnd.rar");
    reveal_strlit("application/x-7z-compressed");
    reveal_strlit("application/x-msdownload");
    reveal_strlit("application/x-msi");
    reveal_strlit("application/x-rar-compressed");
    reveal_strlit("application/x-zip-compressed");
    reveal_strlit("application/zip");
    reveal_strlit("audio/flac");
    reveal_strlit("audio/mp3");
    reveal_strlit("audio/mp4");
    reveal_strlit("audio/mpeg");
    reveal_strlit("audio/ogg");
    reveal_strlit("audio/wav");
    reveal_strlit("audio/wave");
    reveal_strlit("audio/x-wav");
    reveal_strlit("image/bmp");
    reveal_strlit("image/gif");
    reveal_strlit("image/jpeg");
    reveal_strlit("image/jpg");
    reveal_strlit("image/png");
    reveal_strlit("image/svg+xml");
    reveal_strlit("image/tiff");
    reveal_strlit("image/webp");
    reveal_strlit("text/csv");
    reveal_strlit("text/markdown");
    reveal_strlit("text/plain");
    reveal_strlit("video/mp4");
    reveal_strlit("video/quicktime");
    reveal_strlit("video/webm");
    reveal_strlit("video/x-matroska");
    reveal_strlit("video/x-msvideo");
    assert forall|i: int| 0 <= i < 29 implies mime_char(#[trigger] "application/vnd.ms-powerpoint"@[i]) by {
        if i == 0 {} else if i == 1 {} else if i == 2 {} else if i == 3 {} else if i == 4 {} else if i == 5 {} else if i == 6 {} else if i == 7 {} else if i == 8 {} else if i == 9 {} else if i == 10 {} else if i == 11 {} else if i == 12 {} else if i == 13 {} else if i == 14 {} else if i == 15 {} else if i == 16 {} else if i == 17 {} else if i == 18 {} else if i == 19 {} else if i == 20 {} else if i == 21 {} else if i == 22 {} else if i == 23 {} else if i == 24 {} else if i == 25 {} else if i == 26 {} else if i == 27 {} else if i == 28 {}
    }
    lemma_plain_mime_essence("application/vnd.ms-powerpoint"@);
    assert("image/jpeg"@.len() != "application/vnd.ms-powerpoint"@.len());
    assert("image/jpg"@.len() != "application/vnd.ms-powerpoint"@.len());
    assert("image/png"@.len() != "application/vnd.ms-powerpoint"@.len());
    assert("image/gif"@.len() != "application/vnd.ms-powerpoint"@.len());
    assert("image/webp"@.len() != "application/vnd.ms-powerpoint"@.len());
    assert("image/bmp"@.len() != "application/vnd.ms-powerpoint"@.len());
    assert("image/tiff"@.len() != "application/vnd.ms-powerpoint"@.len());
    assert("image/svg+xml"@.len() != "application/vnd.ms-powerpoint"@.len());
    assert("video/mp4"@.len() != "application/vnd.ms-powerpoint"@.len());
    assert("video/quicktime"@.len() != "application/vnd.ms-powerpoint"@.len());
    assert("video/webm"@.len() != "application/vnd.ms-powerpoint"@.len());
    assert("video/x-msvideo"@.len() != "application/vnd.ms-powerpoint"@.len());
    assert("video/x-matroska"@.len() != "application/vnd.ms-powerpoint"@.len());
    assert("audio/mpeg"@.len() != "application/vnd.ms-powerpoint"@.len());
    assert("audio/mp3"@.len() != "application/vnd.ms-powerpoint"@.len());
    assert("audio/wav"@.len() != "application/vnd.ms-powerpoint"@.len());
    assert("audio/wave"@.len() != "application/vnd.ms-powerpoint"@.len());
    assert("audio/x-wav"@.len() != "application/vnd.ms-powerpoint"@.len());
    assert("audio/ogg"@.len() != "application/vnd.ms-powerpoint"@.len());
    assert("audio/flac"@.len() != "application/vnd.ms-powerpoint"@.len());
    assert("audio/mp4"@.len() != "application/vnd.ms-powerpoint"@.len());
    assert("application/pdf"@.len() != "application/vnd.ms-powerpoint"@.len());
    assert("application/zip"@.len() != "application/vnd.ms-powerpoint"@.len());
    assert("application/x-zip-compressed"@.len() != "application/vnd.ms-powerpoint"@.len());
    assert("application/vnd.android.package-archive"@.len() != "application/vnd.ms-powerpoint"@.len());
    assert("application/vnd.rar"@.len() != "application/vnd.ms-powerpoint"@.len());
    assert("application/x-rar-compressed"@.len() != "application/vnd.ms-powerpoint"@.len());
    assert("application/x-7z-compressed"@.len() != "application/vnd.ms-powerpoint"@.len());
    assert("application/vnd.microsoft.portable-executable"@.len() != "application/vnd.ms-powerpoint"@.len());
    assert("application/x-msdownload"@.len() != "application/vnd.ms-powerpoint"@.len());
    assert("application/x-msi"@.len() != "application/vnd.ms-powerpoint"@.len());
    assert("text/plain"@.len() != "application/vnd.ms-powerpoint"@.len());
    assert("text/markdown"@.len() != "application/vnd.ms-powerpoint"@.len());
    assert("text/csv"@.len() != "application/vnd.ms-powerpoint"@.len());
    assert("application/json"@.len() != "application/vnd.ms-powerpoint"@.len());
    assert("application/msword"@.len() != "application/vnd.ms-powerpoint"@.len());
    assert("application/vnd.openxmlformats-officedocument.wordprocessingml.document"@.len() != "application/vnd.ms-powerpoint"@.len());
    assert("application/vnd.ms-excel"@.len() != "application/vnd.ms-powerpoint"@.len());
    assert("application/vnd.openxmlformats-officedocument.spreadsheetml.sheet"@.len() != "application/vnd.ms-powerpoint"@.len());
}

/// `application/vnd.openxmlformats-officedocument.presentationml.presentation` is its own essence and the table gives it back.
proof fn lemma_mime_row_pptx()
    ensures
        mime_essence("application/vnd.openxmlformats-officedocument.presentationml.presentation"@) == "application/vnd.openxmlformats-officedocument.presentationml.presentation"@,
        mime_table("application/vnd.openxmlformats-officedocument.presentationml.presentation"@) == Some(("application/vnd.openxmlformats-officedocument.presentationml.presentation"@, "pptx"@)),
{
    reveal_strlit("application/json");
    reveal_strlit("application/msword");
    reveal_strlit("application/pdf");
    reveal_strlit("application/vnd.android.package-archive");
    reveal_strlit("application/vnd.microsoft.portable-executable");
    reveal_strlit("application/vnd.ms-excel");
    reveal_strlit("application/vnd.ms-powerpoint");
    reveal_strlit("application/vnd.openxmlformats-officedocument.presentationml.presentation");
    reveal_strlit("application/vnd.openxmlformats-officedocument.spreadsheetml.sheet");
    reveal_strlit("application/vnd.openxmlformats-officedocument.wordprocessingml.document");
    reveal_strlit("application/vnd.rar");
    reveal_strlit("application/x-7z-compressed");
    reveal_strlit("application/x-msdownload");
    reveal_strlit("application/x-msi");
    reveal_strlit("application/x-rar-compressed");
    reveal_strlit("application/x-zip-compressed");
    reveal_strlit("application/zip");
    reveal_strlit("audio/flac");
    reveal_strlit("audio/mp3");
    reveal_strlit("audio/mp4");
    reveal_strlit("audio/mpeg");
    reveal_strlit("audio/ogg");
    reveal_strlit("audio/wav");
    reveal_strlit("audio/wave");
    reveal_strlit("audio/x-wav");
    reveal_strlit("image/bmp");
    reveal_strlit("image/gif");
    reveal_strlit("image/jpeg");
    reveal_strlit("image/jpg");
    reveal_strlit("image/png");
    reveal_strlit("image/svg+xml");
    reveal_strlit("image/tiff");
    reveal_strlit("image/webp");
    reveal_strlit("text/csv");
    reveal_strlit("text/markdown");
    reveal_strlit("text/plain");
    reveal_strlit("video/mp4");
    reveal_strlit("video/quicktime");
    reveal_strlit("video/webm");
    reveal_strlit("video/x-matroska");
    reveal_strlit("video/x-msvideo");
    assert forall|i: int| 0 <= i < 73 implies mime_char(#[trigger] "application/vnd.openxmlformats-officedocument.presentationml.presentation"@[i]) by {
        if i == 0 {} else if i == 1 {} else if i == 2 {} else if i == 3 {} else if i == 4 {} else if i == 5 {} else if i == 6 {} else if i == 7 {} else if i == 8 {} else if i == 9 {} else if i == 10 {} else if i == 11 {} else if i == 12 {} else if i == 13 {} else if i == 14 {} else if i == 15 {} else if i == 16 {} else if i == 17 {} else if i == 18 {} else if i == 19 {} else if i == 20 {} else if i == 21 {} else if i == 22 {} else if i == 23 {} else if i == 24 {} else if i == 25 {} else if i == 26 {} else if i == 27 {} else if i == 28 {} else if i == 29 {} else if i == 30 {} else if i == 31 {} else if i == 32 {} else if i == 33 {} else if i == 34 {} else if i == 35 {} else if i == 36 {} else if i == 37 {} else if i == 38 {} else if i == 39 {} else if i == 40 {} else if i == 41 {} else if i == 42 {} else if i == 43 {} else if i == 44 {} else if i == 45 {} else if i == 46 {} else if i == 47 {} else if i == 48 {} else if i == 49 {} else if i == 50 {} else if i == 51 {} else if i == 52 {} else if i == 53 {} else if i == 54 {} else if i == 55 {} else if i == 56 {} else if i == 57 {} else if i == 58 {} else if i == 59 {} else if i == 60 {} else if i == 61 {} else if i == 62 {} else if i == 63 {} else if i == 64 {} else if i == 65 {} else if i == 66 {} else if i == 67 {} else if i == 68 {} else if i == 69 {} else if i == 70 {} else if i == 71 {} else if i == 72 {}
    }
    lemma_plain_mime_essence("application/vnd.openxmlformats-officedocument.presentationml.presentation"@);
    assert("image/jpeg"@.len() != "application/vnd.openxmlformats-officedocument.presentationml.presentation"@.len());
    assert("image/jpg"@.len() != "application/vnd.openxmlformats-officedocument.presentationml.presentation"@.len());
    assert("image/png"@.len() != "application/vnd.openxmlformats-officedocument.presentationml.presentation"@.len());
    assert("image/gif"@.len() != "application/vnd.openxmlformats-officedocument.presentationml.presentation"@.len());
    assert("image/webp"@.len() != "application/vnd.openxmlformats-officedocument.presentationml.presentation"@.len());
    assert("image/bmp"@.len() != "application/vnd.openxmlformats-officedocument.presentationml.presentation"@.len());
    assert("image/tiff"@.len() != "application/vnd.openxmlformats-officedocument.presentationml.presentation"@.len());
    assert("image/svg+xml"@.len() != "application/vnd.openxmlformats-officedocument.presentationml.presentation"@.len());
    assert("video/mp4"@.len() != "application/vnd.openxmlformats-officedocument.presentationml.presentation"@.len());
    assert("video/quicktime"@.len() != "application/vnd.openxmlformats-officedocument.presentationml.presentation"@.len());
    assert("video/webm"@.len() != "application/vnd.openxmlformats-officedocument.presentationml.presentation"@.len());
    assert("video/x-msvideo"@.len() != "application/vnd.openxmlformats-officedocument.presentationml.presentation"@.len());
    assert("video/x-matroska"@.len() != "application/vnd.openxmlformats-officedocument.presentationml.presentation"@.len());
    assert("audio/mpeg"@.len() != "application/vnd.openxmlformats-officedocument.presentationml.presentation"@.len());
    assert("audio/mp3"@.len() != "application/vnd.openxmlformats-officedocument.presentationml.presentation"@.len());
    assert("audio/wav"@.len() != "application/vnd.openxmlformats-officedocument.presentationml.presentation"@.len());
    assert("audio/wave"@.len() != "application/vnd.openxmlformats-officedocument.presentationml.presentation"@.len());
    assert("audio/x-wav"@.len() != "application/vnd.openxmlformats-officedocument.presentationml.presentation"@.len());
    assert("audio/ogg"@.len() != "application/vnd.openxmlformats-officedocument.presentationml.presentation"@.len());
    assert("audio/flac"@.len() != "application/vnd.openxmlformats-officedocument.presentationml.presentation"@.len());
    assert("audio/mp4"@.len() != "application/vnd.openxmlformats-officedocument.presentationml.presentation"@.len());
    assert("application/pdf"@.len() != "application/vnd.openxmlformats-officedocument.presentationml.presentation"@.len());
    assert("application/zip"@.len() != "application/vnd.openxmlformats-officedocument.presentationml.presentation"@.len());
    assert("application/x-zip-compressed"@.len() != "application/vnd.openxmlformats-officedocument.presentationml.presentation"@.len());
    assert("application/vnd.android.package-archive"@.len() != "application/vnd.openxmlformats-officedocument.presentationml.presentation"@.len());
    assert("application/vnd.rar"@.len() != "application/vnd.openxmlformats-officedocument.presentationml.presentation"@.len());
    assert("application/x-rar-compressed"@.len() != "application/vnd.openxmlformats-officedocument.presentationml.presentation"@.len());
    assert("application/x-7z-compressed"@.len() != "application/vnd.openxmlformats-officedocument.presentationml.presentation"@.len());
    assert("application/vnd.microsoft.portable-executable"@.len() != "application/vnd.openxmlformats-officedocument.presentationml.presentation"@.len());
    assert("application/x-msdownload"@.len() != "application/vnd.openxmlformats-officedocument.presentationml.presentation"@.len());
    assert("application/x-msi"@.len() != "application/vnd.openxmlformats-officedocument.presentationml.presentation"@.len());
    assert("text/plain"@.len() != "application/vnd.openxmlformats-officedocument.presentationml.presentation"@.len());
    assert("text/markdown"@.len() != "application/vnd.openxmlformats-officedocument.presentationml.presentation"@.len());
    assert("text/csv"@.len() != "application/vnd.openxmlformats-officedocument.presentationml.presentation"@.len());
    assert("application/json"@.len() != "application/vnd.openxmlformats-officedocument.presentationml.presentation"@.len());
    assert("application/msword"@.len() != "application/vnd.openxmlformats-officedocument.presentationml.presentation"@.len());
    assert("application/vnd.openxmlformats-officedocument.wordprocessingml.document"@.len() != "application/vnd.openxmlformats-officedocument.presentationml.presentation"@.len());
    assert("application/vnd.ms-excel"@.len() != "application/vnd.openxmlformats-officedocument.presentationml.presentation"@.len());
    assert("application/vnd.openxmlformats-officedocument.spreadsheetml.sheet"@.len() != "application/vnd.openxmlformats-officedocument.presentationml.presentation"@.len());
    assert("application/vnd.ms-powerpoint"@.len() != "application/vnd.openxmlformats-officedocument.presentationml.presentation"@.len());
}

/// The extension table gives `7z` back with its MIME type.
proof fn lemma_ext_row_7z()
    ensures
        ext_table("7z"@) == Some(("application/x-7z-compressed"@, "7z"@)),
{
    reveal_strlit("7z");
    reveal_strlit("avi");
    reveal_strlit("bmp");
    reveal_strlit("flac");
    reveal_strlit("gif");
    reveal_strlit("jpeg");
    reveal_strlit("jpg");
    reveal_strlit("m4a");
    reveal_strlit("m4v");
    reveal_strlit("mkv");
    reveal_strlit("mov");
    reveal_strlit("mp3");
    reveal_strlit("mp4");
    reveal_strlit("ogg");
    reveal_strlit("pdf");
    reveal_strlit("png");
    reveal_strlit("rar");
    reveal_strlit("svg");
    reveal_strlit("tif");
    reveal_strlit("tiff");
    reveal_strlit("wav");
    reveal_strlit("webm");
    reveal_strlit("webp");
    reveal_strlit("zip");
    assert("jpg"@.len() != "7z"@.len());
    assert("jpeg"@.len() != "7z"@.len());
    assert("png"@.len() != "7z"@.len());
    assert("gif"@.len() != "7z"@.len());
    assert("webp"@.len() != "7z"@.len());
    assert("bmp"@.len() != "7z"@.len());
    assert("tif"@.len() != "7z"@.len());
    assert("tiff"@.len() != "7z"@.len());
    assert("svg"@.len() != "7z"@.len());
    assert("mp4"@.len() != "7z"@.len());
    assert("m4v"@.len() != "7z"@.len());
    assert("mov"@.len() != "7z"@.len());
    assert("webm"@.len() != "7z"@.len());
    assert("avi"@.len() != "7z"@.len());
    assert("mkv"@.len() != "7z"@.len());
    assert("mp3"@.len() != "7z"@.len());
    assert("wav"@.len() != "7z"@.len());
    assert("ogg"@.len() != "7z"@.len());
    assert("flac"@.len() != "7z"@.len());
    assert("m4a"@.len() != "7z"@.len());
    assert("pdf"@.len() != "7z"@.len());
    assert("zip"@.len() != "7z"@.len());
    assert("rar"@.len() != "7z"@.len());
}

/// The extension table gives `apk` back with its MIME type.
proof fn lemma_ext_row_apk()
    ensures
        ext_table("apk"@) == Some(("application/vnd.android.package-archive"@, "apk"@)),
{
    reveal_strlit("7z");
    reveal_strlit("apk");
    reveal_strlit("avi");
    reveal_strlit("bmp");
    reveal_strlit("flac");
    reveal_strlit("gif");
    reveal_strlit("jpeg");
    reveal_strlit("jpg");
    reveal_strlit("m4a");
    reveal_strlit("m4v");
    reveal_strlit("mkv");
    reveal_strlit("mov");
    reveal_strlit("mp3");
    reveal_strlit("mp4");
    reveal_strlit("ogg");
    reveal_strlit("pdf");
    reveal_strlit("png");
    reveal_strlit("rar");
    reveal_strlit("svg");
    reveal_strlit("tif");
    reveal_strlit("tiff");
    reveal_strlit("wav");
    reveal_strlit("webm");
    reveal_strlit("webp");
    reveal_strlit("zip");
    assert("jpg"@[0] != "apk"@[0]);
    assert("jpeg"@.len() != "apk"@.len());
    assert("png"@[0] != "apk"@[0]);
    assert("gif"@[0] != "apk"@[0]);
    assert("webp"@.len() != "apk"@.len());
    assert("bmp"@[0] != "apk"@[0]);
    assert("tif"@[0] != "apk"@[0]);
    assert("tiff"@.len() != "apk"@.len());
    assert("svg"@[0] != "apk"@[0]);
    assert("mp4"@[0] != "apk"@[0]);
    assert("m4v"@[0] != "apk"@[0]);
    assert("mov"@[0] != "apk"@[0]);
    assert("webm"@.len() != "apk"@.len());
    assert("avi"@[1] != "apk"@[1]);
    assert("mkv"@[0] != "apk"@[0]);
    assert("mp3"@[0] != "apk"@[0]);
    assert("wav"@[0] != "apk"@[0]);
    assert("ogg"@[0] != "apk"@[0]);
    assert("flac"@.len() != "apk"@.len());
    assert("m4a"@[0] != "apk"@[0]);
    assert("pdf"@[0] != "apk"@[0]);
    assert("zip"@[0] != "apk"@[0]);
    assert("rar"@[0] != "apk"@[0]);
    assert("7z"@.len() != "apk"@.len());
}

/// The extension table gives `avi` back with its MIME type.
proof fn lemma_ext_row_avi()
    ensures
        ext_table("avi"@) == Some(("video/x-msvideo"@, "avi"@)),
{
    reveal_strlit("avi");
    reveal_strlit("bmp");
    reveal_strlit("gif");
    reveal_strlit("jpeg");
    reveal_strlit("jpg");
    reveal_strlit("m4v");
    reveal_strlit("mov");
    reveal_strlit("mp4");
    reveal_strlit("png");
    reveal_strlit("svg");
    reveal_strlit("tif");
    reveal_strlit("tiff");
    reveal_strlit("webm");
    reveal_strlit("webp");
    assert("jpg"@[0] != "avi"@[0]);
    assert("jpeg"@.len() != "avi"@.len());
    assert("png"@[0] != "avi"@[0]);
    assert("gif"@[0] != "avi"@[0]);
    assert("webp"@.len() != "avi"@.len());
    assert("bmp"@[0] != "avi"@[0]);
    assert("tif"@[0] != "avi"@[0]);
    assert("tiff"@.len() != "avi"@.len());
    assert("svg"@[0] != "avi"@[0]);
    assert("mp4"@[0] != "avi"@[0]);
    assert("m4v"@[0] != "avi"@[0]);
    assert("mov"@[0] != "avi"@[0]);
    assert("webm"@.len() != "avi"@.len());
}

/// The extension table gives `bmp` back with its MIME type.
proof fn lemma_ext_row_bmp()
    ensures
        ext_table("bmp"@) == Some(("image/bmp"@, "bmp"@)),
{
    reveal_strlit("bmp");
    reveal_strlit("gif");
    reveal_strlit("jpeg");
    reveal_strlit("jpg");
    reveal_strlit("png");
    reveal_strlit("webp");
    assert("jpg"@[0] != "bmp"@[0]);
    assert("jpeg"@.len() != "bmp"@.len());
    assert("png"@[0] != "bmp"@[0]);
    assert("gif"@[0] != "bmp"@[0]);
    assert("webp"@.len() != "bmp"@.len());
}

/// The extension table gives `csv` back with its MIME type.
proof fn lemma_ext_row_csv()
    ensures
        ext_table("csv"@) == Some(("text/csv"@, "csv"@)),
{
    reveal_strlit("7z");
    reveal_strlit("apk");
    reveal_strlit("avi");
    reveal_strlit("bmp");
    reveal_strlit("csv");
    reveal_strlit("dll");
    reveal_strlit("exe");
    reveal_strlit("flac");
    reveal_strlit("gif");
    reveal_strlit("jpeg");
    reveal_strlit("jpg");
    reveal_strlit("m4a");
    reveal_strlit("m4v");
    reveal_strlit("md");
    reveal_strlit("mkv");
    reveal_strlit("mov");
    reveal_strlit("mp3");
    reveal_strlit("mp4");
    reveal_strlit("msi");
    reveal_strlit("ogg");
    reveal_strlit("pdf");
    reveal_strlit("png");
    reveal_strlit("rar");
    reveal_strlit("svg");
    reveal_strlit("tif");
    reveal_strlit("tiff");
    reveal_strlit("txt");
    reveal_strlit("wav");
    reveal_strlit("webm");
    reveal_strlit("webp");
    reveal_strlit("zip");
    assert("jpg"@[0] != "csv"@[0]);
    assert("jpeg"@.len() != "csv"@.len());
    assert("png"@[0] != "csv"@[0]);
    assert("gif"@[0] != "csv"@[0]);
    assert("webp"@.len() != "csv"@.len());
    assert("bmp"@[0] != "csv"@[0]);
    assert("tif"@[0] != "csv"@[0]);
    assert("tiff"@.len() != "csv"@.len());
    assert("svg"@[0] != "csv"@[0]);
    assert("mp4"@[0] != "csv"@[0]);
    assert("m4v"@[0] != "csv"@[0]);
    assert("mov"@[0] != "csv"@[0]);
    assert("webm"@.len() != "csv"@.len());
    assert("avi"@[0] != "csv"@[0]);
    assert("mkv"@[0] != "csv"@[0]);
    assert("mp3"@[0] != "csv"@[0]);
    assert("wav"@[0] != "csv"@[0]);
    assert("ogg"@[0] != "csv"@[0]);
    assert("flac"@.len() != "csv"@.len());
    assert("m4a"@[0] != "csv"@[0]);
    assert("pdf"@[0] != "csv"@[0]);
    assert("zip"@[0] != "csv"@[0]);
    assert("rar"@[0] != "csv"@[0]);
    assert("7z"@.len() != "csv"@.len());
    assert("apk"@[0] != "csv"@[0]);
    assert("exe"@[0] != "csv"@[0]);
    assert("dll"@[0] != "csv"@[0]);
    assert("msi"@[0] != "csv"@[0]);
    assert("txt"@[0] != "csv"@[0]);
    assert("md"@.len() != "csv"@.len());
}

/// The extension table gives `doc` back with its MIME type.
proof fn lemma_ext_row_doc()
    ensures
        ext_table("doc"@) == Some(("application/msword"@, "doc"@)),
{
    reveal_strlit("7z");
    reveal_strlit("apk");
    reveal_strlit("avi");
    reveal_strlit("bmp");
    reveal_strlit("css");
    reveal_strlit("csv");
    reveal_strlit("dll");
    reveal_strlit("doc");
    reveal_strlit("exe");
    reveal_strlit("flac");
    reveal_strlit("gif");
    reveal_strlit("htm");
    reveal_strlit("html");
    reveal_strlit("jpeg");
    reveal_strlit("jpg");
    reveal_strlit("js");
    reveal_strlit("json");
    reveal_strlit("log");
    reveal_strlit("m4a");
    reveal_strlit("m4v");
    reveal_strlit("md");
    reveal_strlit("mkv");
    reveal_strlit("mov");
    reveal_strlit("mp3");
    reveal_strlit("mp4");
    reveal_strlit("msi");
    reveal_strlit("ogg");
    reveal_strlit("pdf");
    reveal_strlit("png");
    reveal_strlit("ps1");
    reveal_strlit("rar");
    reveal_strlit("rs");
    reveal_strlit("sh");
    reveal_strlit("sql");
    reveal_strlit("svg");
    reveal_strlit("tif");
    reveal_strlit("tiff");
    reveal_strlit("ts");
    reveal_strlit("txt");
    reveal_strlit("wav");
    reveal_strlit("webm");
    reveal_strlit("webp");
    reveal_strlit("zip");
    assert("jpg"@[0] != "doc"@[0]);
    assert("jpeg"@.len() != "doc"@.len());
    assert("png"@[0] != "doc"@[0]);
    assert("gif"@[0] != "doc"@[0]);
    assert("webp"@.len() != "doc"@.len());
    assert("bmp"@[0] != "doc"@[0]);
    assert("tif"@[0] != "doc"@[0]);
    assert("tiff"@.len() != "doc"@.len());
    assert("svg"@[0] != "doc"@[0]);
    assert("mp4"@[0] != "doc"@[0]);
    assert("m4v"@[0] != "doc"@[0]);
    assert("mov"@[0] != "doc"@[0]);
    assert("webm"@.len() != "doc"@.len());
    assert("avi"@[0] != "doc"@[0]);
    assert("mkv"@[0] != "doc"@[0]);
    assert("mp3"@[0] != "doc"@[0]);
    assert("wav"@[0] != "doc"@[0]);
    assert("ogg"@[0] != "doc"@[0]);
    assert("flac"@.len() != "doc"@.len());
    assert("m4a"@[0] != "doc"@[0]);
    assert("pdf"@[0] != "doc"@[0]);
    assert("zip"@[0] != "doc"@[0]);
    assert("rar"@[0] != "doc"@[0]);
    assert("7z"@.len() != "doc"@.len());
    assert("apk"@[0] != "doc"@[0]);
    assert("exe"@[0] != "doc"@[0]);
    assert("dll"@[1] != "doc"@[1]);
    assert("msi"@[0] != "doc"@[0]);
    assert("txt"@[0] != "doc"@[0]);
    assert("md"@.len() != "doc"@.len());
    assert("csv"@[0] != "doc"@[0]);
    assert("json"@.len() != "doc"@.len());
    assert("log"@[0] != "doc"@[0]);
    assert("rs"@.len() != "doc"@.len());
    assert("js"@.len() != "doc"@.len());
    assert("ts"@.len() != "doc"@.len());
    assert("html"@.len() != "doc"@.len());
    assert("htm"@[0] != "doc"@[0]);
    assert("css"@[0] != "doc"@[0]);
    assert("sql"@[0] != "doc"@[0]);
    assert("ps1"@[0] != "doc"@[0]);
    assert("sh"@.len() != "doc"@.len());
}

/// The extension table gives `docx` back with its MIME type.
proof fn lemma_ext_row_docx()
    ensures
        ext_table("docx"@) == Some(("application/vnd.openxmlformats-officedocument.wordprocessingml.document"@, "docx"@)),
{
    reveal_strlit("7z");
    reveal_strlit("apk");
    reveal_strlit("avi");
    reveal_strlit("bmp");
    reveal_strlit("css");
    reveal_strlit("csv");
    reveal_strlit("dll");
    reveal_strlit("doc");
    reveal_strlit("docx");
    reveal_strlit("exe");
    reveal_strlit("flac");
    reveal_strlit("gif");
    reveal_strlit("htm");
    reveal_strlit("html");
    reveal_strlit("jpeg");
    reveal_strlit("jpg");
    reveal_strlit("js");
    reveal_strlit("json");
    reveal_strlit("log");
    reveal_strlit("m4a");
    reveal_strlit("m4v");
    reveal_strlit("md");
    reveal_strlit("mkv");
    reveal_strlit("mov");
    reveal_strlit("mp3");
    reveal_strlit("mp4");
    reveal_strlit("msi");
    reveal_strlit("ogg");
    reveal_strlit("pdf");
    reveal_strlit("png");
    reveal_strlit("ps1");
    reveal_strlit("rar");
    reveal_strlit("rs");
    reveal_strlit("sh");
    reveal_strlit("sql");
    reveal_strlit("svg");
    reveal_strlit("tif");
    reveal_strlit("tiff");
    reveal_strlit("ts");
    reveal_strlit("txt");
    reveal_strlit("wav");
    reveal_strlit("webm");
    reveal_strlit("webp");
    reveal_strlit("zip");
    assert("jpg"@.len() != "docx"@.len());
    assert("jpeg"@[0] != "docx"@[0]);
    assert("png"@.len() != "docx"@.len());
    assert("gif"@.len() != "docx"@.len());
    assert("webp"@[0] != "docx"@[0]);
    assert("bmp"@.len() != "docx"@.len());
    assert("tif"@.len() != "docx"@.len());
    assert("tiff"@[0] != "docx"@[0]);
    assert("svg"@.len() != "docx"@.len());
    assert("mp4"@.len() != "docx"@.len());
    assert("m4v"@.len() != "docx"@.len());
    assert("mov"@.len() != "docx"@.len());
    assert("webm"@[0] != "docx"@[0]);
    assert("avi"@.len() != "docx"@.len());
    assert("mkv"@.len() != "docx"@.len());
    assert("mp3"@.len() != "docx"@.len());
    assert("wav"@.len() != "docx"@.len());
    assert("ogg"@.len() != "docx"@.len());
    assert("flac"@[0] != "docx"@[0]);
    assert("m4a"@.len() != "docx"@.len());
    assert("pdf"@.len() != "docx"@.len());
    assert("zip"@.len() != "docx"@.len());
    assert("rar"@.len() != "docx"@.len());
    assert("7z"@.len() != "docx"@.len());
    assert("apk"@.len() != "docx"@.len());
    assert("exe"@.len() != "docx"@.len());
    assert("dll"@.len() != "docx"@.len());
    assert("msi"@.len() != "docx"@.len());
    assert("txt"@.len() != "docx"@.len());
    assert("md"@.len() != "docx"@.len());
    assert("csv"@.len() != "docx"@.len());
    assert("json"@[0] != "docx"@[0]);
    assert("log"@.len() != "docx"@.len());
    assert("rs"@.len() != "docx"@.len());
    assert("js"@.len() != "docx"@.len());
    assert("ts"@.len() != "docx"@.len());
    assert("html"@[0] != "docx"@[0]);
    assert("htm"@.len() != "docx"@.len());
    assert("css"@.len() != "docx"@.len());
    assert("sql"@.len() != "docx"@.len());
    assert("ps1"@.len() != "docx"@.len());
    assert("sh"@.len() != "docx"@.len());
    assert("doc"@.len() != "docx"@.len());
}

/// The extension table gives `exe` back with its MIME type.
proof fn lemma_ext_row_exe()
    ensures
        ext_table("exe"@) == Some(("application/vnd.microsoft.portable-executable"@, "exe"@)),
{
    reveal_strlit("7z");
    reveal_strlit("apk");
    reveal_strlit("avi");
    reveal_strlit("bmp");
    reveal_strlit("exe");
    reveal_strlit("flac");
    reveal_strlit("gif");
    reveal_strlit("jpeg");
    reveal_strlit("jpg");
    reveal_strlit("m4a");
    reveal_strlit("m4v");
    reveal_strlit("mkv");
    reveal_strlit("mov");
    reveal_strlit("mp3");
    reveal_strlit("mp4");
    reveal_strlit("ogg");
    reveal_strlit("pdf");
    reveal_strlit("png");
    reveal_strlit("rar");
    reveal_strlit("svg");
    reveal_strlit("tif");
    reveal_strlit("tiff");
    reveal_strlit("wav");
    reveal_strlit("webm");
    reveal_strlit("webp");
    reveal_strlit("zip");
    assert("jpg"@[0] != "exe"@[0]);
    assert("jpeg"@.len() != "exe"@.len());
    assert("png"@[0] != "exe"@[0]);
    assert("gif"@[0] != "exe"@[0]);
    assert("webp"@.len() != "exe"@.len());
    assert("bmp"@[0] != "exe"@[0]);
    assert("tif"@[0] != "exe"@[0]);
    assert("tiff"@.len() != "exe"@.len());
    assert("svg"@[0] != "exe"@[0]);
    assert("mp4"@[0] != "exe"@[0]);
    assert("m4v"@[0] != "exe"@[0]);
    assert("mov"@[0] != "exe"@[0]);
    assert("webm"@.len() != "exe"@.len());
    assert("avi"@[0] != "exe"@[0]);
    assert("mkv"@[0] != "exe"@[0]);
    assert("mp3"@[0] != "exe"@[0]);
    assert("wav"@[0] != "exe"@[0]);
    assert("ogg"@[0] != "exe"@[0]);
    assert("flac"@.len() != "exe"@.len());
    assert("m4a"@[0] != "exe"@[0]);
    assert("pdf"@[0] != "exe"@[0]);
    assert("zip"@[0] != "exe"@[0]);
    assert("rar"@[0] != "exe"@[0]);
    assert("7z"@.len() != "exe"@.len());
    assert("apk"@[0] != "exe"@[0]);
}

/// The extension table gives `flac` back with its MIME type.
proof fn lemma_ext_row_flac()
    ensures
        ext_table("flac"@) == Some(("audio/flac"@, "flac"@)),
{
    reveal_strlit("avi");
    reveal_strlit("bmp");
    reveal_strlit("flac");
    reveal_strlit("gif");
    reveal_strlit("jpeg");
    reveal_strlit("jpg");
    reveal_strlit("m4v");
    reveal_strlit("mkv");
    reveal_strlit("mov");
    reveal_strlit("mp3");
    reveal_strlit("mp4");
    reveal_strlit("ogg");
    reveal_strlit("png");
    reveal_strlit("svg");
    reveal_strlit("tif");
    reveal_strlit("tiff");
    reveal_strlit("wav");
    reveal_strlit("webm");
    reveal_strlit("webp");
    assert("jpg"@.len() != "flac"@.len());
    assert("jpeg"@[0] != "flac"@[0]);
    assert("png"@.len() != "flac"@.len());
    assert("gif"@.len() != "flac"@.len());
    assert("webp"@[0] != "flac"@[0]);
    assert("bmp"@.len() != "flac"@.len());
    assert("tif"@.len() != "flac"@.len());
    assert("tiff"@[0] != "flac"@[0]);
    assert("svg"@.len() != "flac"@.len());
    assert("mp4"@.len() != "flac"@.len());
    assert("m4v"@.len() != "flac"@.len());
    assert("mov"@.len() != "flac"@.len());
    assert("webm"@[0] != "flac"@[0]);
    assert("avi"@.len() != "flac"@.len());
    assert("mkv"@.len() != "flac"@.len());
    assert("mp3"@.len() != "flac"@.len());
    assert("wav"@.len() != "flac"@.len());
    assert("ogg"@.len() != "flac"@.len());
}

/// The extension table gives `gif` back with its MIME type.
proof fn lemma_ext_row_gif()
    ensures
        ext_table("gif"@) == Some(("image/gif"@, "gif"@)),
{
    reveal_strlit("gif");
    reveal_strlit("jpeg");
    reveal_strlit("jpg");
    reveal_strlit("png");
    assert("jpg"@[0] != "gif"@[0]);
    assert("jpeg"@.len() != "gif"@.len());
    assert("png"@[0] != "gif"@[0]);
}

/// The extension table gives `jpg` back with its MIME type.
proof fn lemma_ext_row_jpg()
    ensures
        ext_table("jpg"@) == Some(("image/jpeg"@, "jpg"@)),
{
    reveal_strlit("jpg");
}

/// The extension table gives `json` back with its MIME type.
proof fn lemma_ext_row_json()
    ensures
        ext_table("json"@) == Some(("application/json"@, "json"@)),
{
    reveal_strlit("7z");
    reveal_strlit("apk");
    reveal_strlit("avi");
    reveal_strlit("bmp");
    reveal_strlit("csv");
    reveal_strlit("dll");
    reveal_strlit("exe");
    reveal_strlit("flac");
    reveal_strlit("gif");
    reveal_strlit("jpeg");
    reveal_strlit("jpg");
    reveal_strlit("json");
    reveal_strlit("m4a");
    reveal_strlit("m4v");
    reveal_strlit("md");
    reveal_strlit("mkv");
    reveal_strlit("mov");
    reveal_strlit("mp3");
    reveal_strlit("mp4");
    reveal_strlit("msi");
    reveal_strlit("ogg");
    reveal_strlit("pdf");
    reveal_strlit("png");
    reveal_strlit("rar");
    reveal_strlit("svg");
    reveal_strlit("tif");
    reveal_strlit("tiff");
    reveal_strlit("txt");
    reveal_strlit("wav");
    reveal_strlit("webm");
    reveal_strlit("webp");
    reveal_strlit("zip");
    assert("jpg"@.len() != "json"@.len());
    assert("jpeg"@[1] != "json"@[1]);
    assert("png"@.len() != "json"@.len());
    assert("gif"@.len() != "json"@.len());
    assert("webp"@[0] != "json"@[0]);
    assert("bmp"@.len() != "json"@.len());
    assert("tif"@.len() != "json"@.len());
    assert("tiff"@[0] != "json"@[0]);
    assert("svg"@.len() != "json"@.len());
    assert("mp4"@.len() != "json"@.len());
    assert("m4v"@.len() != "json"@.len());
    assert("mov"@.len() != "json"@.len());
    assert("webm"@[0] != "json"@[0]);
    assert("avi"@.len() != "json"@.len());
    assert("mkv"@.len() != "json"@.len());
    assert("mp3"@.len() != "json"@.len());
    assert("wav"@.len() != "json"@.len());
    assert("ogg"@.len() != "json"@.len());
    assert("flac"@[0] != "json"@[0]);
    assert("m4a"@.len() != "json"@.len());
    assert("pdf"@.len() != "json"@.len());
    assert("zip"@.len() != "json"@.len());
    assert("rar"@.len() != "json"@.len());
    assert("7z"@.len() != "json"@.len());
    assert("apk"@.len() != "json"@.len());
    assert("exe"@.len() != "json"@.len());
    assert("dll"@.len() != "json"@.len());
    assert("msi"@.len() != "json"@.len());
    assert("txt"@.len() != "json"@.len());
    assert("md"@.len() != "json"@.len());
    assert("csv"@.len() != "json"@.len());
}

/// The extension table gives `m4a` back with its MIME type.
proof fn lemma_ext_row_m4a()
    ensures
        ext_table("m4a"@) == Some(("audio/mp4"@, "m4a"@)),
{
    reveal_strlit("avi");
    reveal_strlit("bmp");
    reveal_strlit("flac");
    reveal_strlit("gif");
    reveal_strlit("jpeg");
    reveal_strlit("jpg");
    reveal_strlit("m4a");
    reveal_strlit("m4v");
    reveal_strlit("mkv");
    reveal_strlit("mov");
    reveal_strlit("mp3");
    reveal_strlit("mp4");
    reveal_strlit("ogg");
    reveal_strlit("png");
    reveal_strlit("svg");
    reveal_strlit("tif");
    reveal_strlit("tiff");
    reveal_strlit("wav");
    reveal_strlit("webm");
    reveal_strlit("webp");
    assert("jpg"@[0] != "m4a"@[0]);
    assert("jpeg"@.len() != "m4a"@.len());
    assert("png"@[0] != "m4a"@[0]);
    assert("gif"@[0] != "m4a"@[0]);
    assert("webp"@.len() != "m4a"@.len());
    assert("bmp"@[0] != "m4a"@[0]);
    assert("tif"@[0] != "m4a"@[0]);
    assert("tiff"@.len() != "m4a"@.len());
    assert("svg"@[0] != "m4a"@[0]);
    assert("mp4"@[1] != "m4a"@[1]);
    assert("m4v"@[2] != "m4a"@[2]);
    assert("mov"@[1] != "m4a"@[1]);
    assert("webm"@.len() != "m4a"@.len());
    assert("avi"@[0] != "m4a"@[0]);
    assert("mkv"@[1] != "m4a"@[1]);
    assert("mp3"@[1] != "m4a"@[1]);
    assert("wav"@[0] != "m4a"@[0]);
    assert("ogg"@[0] != "m4a"@[0]);
    assert("flac"@.len() != "m4a"@.len());
}

/// The extension table gives `md` back with its MIME type.
proof fn lemma_ext_row_md()
    ensures
        ext_table("md"@) == Some(("text/markdown"@, "md"@)),
{
    reveal_strlit("7z");
    reveal_strlit("apk");
    reveal_strlit("avi");
    reveal_strlit("bmp");
    reveal_strlit("dll");
    reveal_strlit("exe");
    reveal_strlit("flac");
    reveal_strlit("gif");
    reveal_strlit("jpeg");
    reveal_strlit("jpg");
    reveal_strlit("m4a");
    reveal_strlit("m4v");
    reveal_strlit("md");
    reveal_strlit("mkv");
    reveal_strlit("mov");
    reveal_strlit("mp3");
    reveal_strlit("mp4");
    reveal_strlit("msi");
    reveal_strlit("ogg");
    reveal_strlit("pdf");
    reveal_strlit("png");
    reveal_strlit("rar");
    reveal_strlit("svg");
    reveal_strlit("tif");
    reveal_strlit("tiff");
    reveal_strlit("txt");
    reveal_strlit("wav");
    reveal_strlit("webm");
    reveal_strlit("webp");
    reveal_strlit("zip");
    assert("jpg"@.len() != "md"@.len());
    assert("jpeg"@.len() != "md"@.len());
    assert("png"@.len() != "md"@.len());
    assert("gif"@.len() != "md"@.len());
    assert("webp"@.len() != "md"@.len());
    assert("bmp"@.len() != "md"@.len());
    assert("tif"@.len() != "md"@.len());
    assert("tiff"@.len() != "md"@.len());
    assert("svg"@.len() != "md"@.len());
    assert("mp4"@.len() != "md"@.len());
    assert("m4v"@.len() != "md"@.len());
    assert("mov"@.len() != "md"@.len());
    assert("webm"@.len() != "md"@.len());
    assert("avi"@.len() != "md"@.len());
    assert("mkv"@.len() != "md"@.len());
    assert("mp3"@.len() != "md"@.len());
    assert("wav"@.len() != "md"@.len());
    assert("ogg"@.len() != "md"@.len());
    assert("flac"@.len() != "md"@.len());
    assert("m4a"@.len() != "md"@.len());
    assert("pdf"@.len() != "md"@.len());
    assert("zip"@.len() != "md"@.len());
    assert("rar"@.len() != "md"@.len());
    assert("7z"@[0] != "md"@[0]);
    assert("apk"@.len() != "md"@.len());
    assert("exe"@.len() != "md"@.len());
    assert("dll"@.len() != "md"@.len());
    assert("msi"@.len() != "md"@.len());
    assert("txt"@.len() != "md"@.len());
}

/// The extension table gives `mkv` back with its MIME type.
proof fn lemma_ext_row_mkv()
    ensures
        ext_table("mkv"@) == Some(("video/x-matroska"@, "mkv"@)),
{
    reveal_strlit("avi");
    reveal_strlit("bmp");
    reveal_strlit("gif");
    reveal_strlit("jpeg");
    reveal_strlit("jpg");
    reveal_strlit("m4v");
    reveal_strlit("mkv");
    reveal_strlit("mov");
    reveal_strlit("mp4");
    reveal_strlit("png");
    reveal_strlit("svg");
    reveal_strlit("tif");
    reveal_strlit("tiff");
    reveal_strlit("webm");
    reveal_strlit("webp");
    assert("jpg"@[0] != "mkv"@[0]);
    assert("jpeg"@.len() != "mkv"@.len());
    assert("png"@[0] != "mkv"@[0]);
    assert("gif"@[0] != "mkv"@[0]);
    assert("webp"@.len() != "mkv"@.len());
    assert("bmp"@[0] != "mkv"@[0]);
    assert("tif"@[0] != "mkv"@[0]);
    assert("tiff"@.len() != "mkv"@.len());
    assert("svg"@[0] != "mkv"@[0]);
    assert("mp4"@[1] != "mkv"@[1]);
    assert("m4v"@[1] != "mkv"@[1]);
    assert("mov"@[1] != "mkv"@[1]);
    assert("webm"@.len() != "mkv"@.len());
    assert("avi"@[0] != "mkv"@[0]);
}

/// The extension table gives `mov` back with its MIME type.
proof fn lemma_ext_row_mov()
    ensures
        ext_table("mov"@) == Some(("video/quicktime"@, "mov"@)),
{
    reveal_strlit("bmp");
    reveal_strlit("gif");
    reveal_strlit("jpeg");
    reveal_strlit("jpg");
    reveal_strlit("m4v");
    reveal_strlit("mov");
    reveal_strlit("mp4");
    reveal_strlit("png");
    reveal_strlit("svg");
    reveal_strlit("tif");
    reveal_strlit("tiff");
    reveal_strlit("webp");
    assert("jpg"@[0] != "mov"@[0]);
    assert("jpeg"@.len() != "mov"@.len());
    assert("png"@[0] != "mov"@[0]);
    assert("gif"@[0] != "mov"@[0]);
    assert("webp"@.len() != "mov"@.len());
    assert("bmp"@[0] != "mov"@[0]);
    assert("tif"@[0] != "mov"@[0]);
    assert("tiff"@.len() != "mov"@.len());
    assert("svg"@[0] != "mov"@[0]);
    assert("mp4"@[1] != "mov"@[1]);
    assert("m4v"@[1] != "mov"@[1]);
}

/// The extension table gives `mp3` back with its MIME type.
proof fn lemma_ext_row_mp3()
    ensures
        ext_table("mp3"@) == Some(("audio/mpeg"@, "mp3"@)),
{
    reveal_strlit("avi");
    reveal_strlit("bmp");
    reveal_strlit("gif");
    reveal_strlit("jpeg");
    reveal_strlit("jpg");
    reveal_strlit("m4v");
    reveal_strlit("mkv");
    reveal_strlit("mov");
    reveal_strlit("mp3");
    reveal_strlit("mp4");
    reveal_strlit("png");
    reveal_strlit("svg");
    reveal_strlit("tif");
    reveal_strlit("tiff");
    reveal_strlit("webm");
    reveal_strlit("webp");
    assert("jpg"@[0] != "mp3"@[0]);
    assert("jpeg"@.len() != "mp3"@.len());
    assert("png"@[0] != "mp3"@[0]);
    assert("gif"@[0] != "mp3"@[0]);
    assert("webp"@.len() != "mp3"@.len());
    assert("bmp"@[0] != "mp3"@[0]);
    assert("tif"@[0] != "mp3"@[0]);
    assert("tiff"@.len() != "mp3"@.len());
    assert("svg"@[0] != "mp3"@[0]);
    assert("mp4"@[2] != "mp3"@[2]);
    assert("m4v"@[1] != "mp3"@[1]);
    assert("mov"@[1] != "mp3"@[1]);
    assert("webm"@.len() != "mp3"@.len());
    assert("avi"@[0] != "mp3"@[0]);
    assert("mkv"@[1] != "mp3"@[1]);
}

/// The extension table gives `mp4` back with its MIME type.
proof fn lemma_ext_row_mp4()
    ensures
        ext_table("mp4"@) == Some(("video/mp4"@, "mp4"@)),
{
    reveal_strlit("bmp");
    reveal_strlit("gif");
    reveal_strlit("jpeg");
    reveal_strlit("jpg");
    reveal_strlit("mp4");
    reveal_strlit("png");
    reveal_strlit("svg");
    reveal_strlit("tif");
    reveal_strlit("tiff");
    reveal_strlit("webp");
    assert("jpg"@[0] != "mp4"@[0]);
    assert("jpeg"@.len() != "mp4"@.len());
    assert("png"@[0] != "mp4"@[0]);
    assert("gif"@[0] != "mp4"@[0]);
    assert("webp"@.len() != "mp4"@.len());
    assert("bmp"@[0] != "mp4"@[0]);
    assert("tif"@[0] != "mp4"@[0]);
    assert("tiff"@.len() != "mp4"@.len());
    assert("svg"@[0] != "mp4"@[0]);
}

/// The extension table gives `msi` back with its MIME type.
proof fn lemma_ext_row_msi()
    ensures
        ext_table("msi"@) == Some(("application/x-msi"@, "msi"@)),
{
    reveal_strlit("7z");
    reveal_strlit("apk");
    reveal_strlit("avi");
    reveal_strlit("bmp");
    reveal_strlit("dll");
    reveal_strlit("exe");
    reveal_strlit("flac");
    reveal_strlit("gif");
    reveal_strlit("jpeg");
    reveal_strlit("jpg");
    reveal_strlit("m4a");
    reveal_strlit("m4v");
    reveal_strlit("mkv");
    reveal_strlit("mov");
    reveal_strlit("mp3");
    reveal_strlit("mp4");
    reveal_strlit("msi");
    reveal_strlit("ogg");
    reveal_strlit("pdf");
    reveal_strlit("png");
    reveal_strlit("rar");
    reveal_strlit("svg");
    reveal_strlit("tif");
    reveal_strlit("tiff");
    reveal_strlit("wav");
    reveal_strlit("webm");
    reveal_strlit("webp");
    reveal_strlit("zip");
    assert("jpg"@[0] != "msi"@[0]);
    assert("jpeg"@.len() != "msi"@.len());
    assert("png"@[0] != "msi"@[0]);
    assert("gif"@[0] != "msi"@[0]);
    assert("webp"@.len() != "msi"@.len());
    assert("bmp"@[0] != "msi"@[0]);
    assert("tif"@[0] != "msi"@[0]);
    assert("tiff"@.len() != "msi"@.len());
    assert("svg"@[0] != "msi"@[0]);
    assert("mp4"@[1] != "msi"@[1]);
    assert("m4v"@[1] != "msi"@[1]);
    assert("mov"@[1] != "msi"@[1]);
    assert("webm"@.len() != "msi"@.len());
    assert("avi"@[0] != "msi"@[0]);
    assert("mkv"@[1] != "msi"@[1]);
    assert("mp3"@[1] != "msi"@[1]);
    assert("wav"@[0] != "msi"@[0]);
    assert("ogg"@[0] != "msi"@[0]);
    assert("flac"@.len() != "msi"@.len());
    assert("m4a"@[1] != "msi"@[1]);
    assert("pdf"@[0] != "msi"@[0]);
    assert("zip"@[0] != "msi"@[0]);
    assert("rar"@[0] != "msi"@[0]);
    assert("7z"@.len() != "msi"@.len());
    assert("apk"@[0] != "msi"@[0]);
    assert("exe"@[0] != "msi"@[0]);
    assert("dll"@[0] != "msi"@[0]);
}

/// The extension table gives `ogg` back with its MIME type.
proof fn lemma_ext_row_ogg()
    ensures
        ext_table("ogg"@) == Some(("audio/ogg"@, "ogg"@)),
{
    reveal_strlit("avi");
    reveal_strlit("bmp");
    reveal_strlit("gif");
    reveal_strlit("jpeg");
    reveal_strlit("jpg");
    reveal_strlit("m4v");
    reveal_strlit("mkv");
    reveal_strlit("mov");
    reveal_strlit("mp3");
    reveal_strlit("mp4");
    reveal_strlit("ogg");
    reveal_strlit("png");
    reveal_strlit("svg");
    reveal_strlit("tif");
    reveal_strlit("tiff");
    reveal_strlit("wav");
    reveal_strlit("webm");
    reveal_strlit("webp");
    assert("jpg"@[0] != "ogg"@[0]);
    assert("jpeg"@.len() != "ogg"@.len());
    assert("png"@[0] != "ogg"@[0]);
    assert("gif"@[0] != "ogg"@[0]);
    assert("webp"@.len() != "ogg"@.len());
    assert("bmp"@[0] != "ogg"@[0]);
    assert("tif"@[0] != "ogg"@[0]);
    assert("tiff"@.len() != "ogg"@.len());
    assert("svg"@[0] != "ogg"@[0]);
    assert("mp4"@[0] != "ogg"@[0]);
    assert("m4v"@[0] != "ogg"@[0]);
    assert("mov"@[0] != "ogg"@[0]);
    assert("webm"@.len() != "ogg"@.len());
    assert("avi"@[0] != "ogg"@[0]);
    assert("mkv"@[0] != "ogg"@[0]);
    assert("mp3"@[0] != "ogg"@[0]);
    assert("wav"@[0] != "ogg"@[0]);
}

/// The extension table gives `pdf` back with its MIME type.
proof fn lemma_ext_row_pdf()
    ensures
        ext_table("pdf"@) == Some(("application/pdf"@, "pdf"@)),
{
    reveal_strlit("avi");
    reveal_strlit("bmp");
    reveal_strlit("flac");
    reveal_strlit("gif");
    reveal_strlit("jpeg");
    reveal_strlit("jpg");
    reveal_strlit("m4a");
    reveal_strlit("m4v");
    reveal_strlit("mkv");
    reveal_strlit("mov");
    reveal_strlit("mp3");
    reveal_strlit("mp4");
    reveal_strlit("ogg");
    reveal_strlit("pdf");
    reveal_strlit("png");
    reveal_strlit("svg");
    reveal_strlit("tif");
    reveal_strlit("tiff");
    reveal_strlit("wav");
    reveal_strlit("webm");
    reveal_strlit("webp");
    assert("jpg"@[0] != "pdf"@[0]);
    assert("jpeg"@.len() != "pdf"@.len());
    assert("png"@[1] != "pdf"@[1]);
    assert("gif"@[0] != "pdf"@[0]);
    assert("webp"@.len() != "pdf"@.len());
    assert("bmp"@[0] != "pdf"@[0]);
    assert("tif"@[0] != "pdf"@[0]);
    assert("tiff"@.len() != "pdf"@.len());
    assert("svg"@[0] != "pdf"@[0]);
    assert("mp4"@[0] != "pdf"@[0]);
    assert("m4v"@[0] != "pdf"@[0]);
    assert("mov"@[0] != "pdf"@[0]);
    assert("webm"@.len() != "pdf"@.len());
    assert("avi"@[0] != "pdf"@[0]);
    assert("mkv"@[0] != "pdf"@[0]);
    assert("mp3"@[0] != "pdf"@[0]);
    assert("wav"@[0] != "pdf"@[0]);
    assert("ogg"@[0] != "pdf"@[0]);
    assert("flac"@.len() != "pdf"@.len());
    assert("m4a"@[0] != "pdf"@[0]);
}

/// The extension table gives `png` back with its MIME type.
proof fn lemma_ext_row_png()
    ensures
        ext_table("png"@) == Some(("image/png"@, "png"@)),
{
    reveal_strlit("jpeg");
    reveal_strlit("jpg");
    reveal_strlit("png");
    assert("jpg"@[0] != "png"@[0]);
    assert("jpeg"@.len() != "png"@.len());
}

/// The extension table gives `ppt` back with its MIME type.
proof fn lemma_ext_row_ppt()
    ensures
        ext_table("ppt"@) == Some(("application/vnd.ms-powerpoint"@, "ppt"@)),
{
    reveal_strlit("7z");
    reveal_strlit("apk");
    reveal_strlit("avi");
    reveal_strlit("bmp");
    reveal_strlit("css");
    reveal_strlit("csv");
    reveal_strlit("dll");
    reveal_strlit("doc");
    reveal_strlit("docx");
    reveal_strlit("exe");
    reveal_strlit("flac");
    reveal_strlit("gif");
    reveal_strlit("htm");
    reveal_strlit("html");
    reveal_strlit("jpeg");
    reveal_strlit("jpg");
    reveal_strlit("js");
    reveal_strlit("json");
    reveal_strlit("log");
    reveal_strlit("m4a");
    reveal_strlit("m4v");
    reveal_strlit("md");
    reveal_strlit("mkv");
    reveal_strlit("mov");
    reveal_strlit("mp3");
    reveal_strlit("mp4");
    reveal_strlit("msi");
    reveal_strlit("ogg");
    reveal_strlit("pdf");
    reveal_strlit("png");
    reveal_strlit("ppt");
    reveal_strlit("ps1");
    reveal_strlit("rar");
    reveal_strlit("rs");
    reveal_strlit("sh");
    reveal_strlit("sql");
    reveal_strlit("svg");
    reveal_strlit("tif");
    reveal_strlit("tiff");
    reveal_strlit("ts");
    reveal_strlit("txt");
    reveal_strlit("wav");
    reveal_strlit("webm");
    reveal_strlit("webp");
    reveal_strlit("xls");
    reveal_strlit("xlsx");
    reveal_strlit("zip");
    assert("jpg"@[0] != "ppt"@[0]);
    assert("jpeg"@.len() != "ppt"@.len());
    assert("png"@[1] != "ppt"@[1]);
    assert("gif"@[0] != "ppt"@[0]);
    assert("webp"@.len() != "ppt"@.len());
    assert("bmp"@[0] != "ppt"@[0]);
    assert("tif"@[0] != "ppt"@[0]);
    assert("tiff"@.len() != "ppt"@.len());
    assert("svg"@[0] != "ppt"@[0]);
    assert("mp4"@[0] != "ppt"@[0]);
    assert("m4v"@[0] != "ppt"@[0]);
    assert("mov"@[0] != "ppt"@[0]);
    assert("webm"@.len() != "ppt"@.len());
    assert("avi"@[0] != "ppt"@[0]);
    assert("mkv"@[0] != "ppt"@[0]);
    assert("mp3"@[0] != "ppt"@[0]);
    assert("wav"@[0] != "ppt"@[0]);
    assert("ogg"@[0] != "ppt"@[0]);
    assert("flac"@.len() != "ppt"@.len());
    assert("m4a"@[0] != "ppt"@[0]);
    assert("pdf"@[1] != "ppt"@[1]);
    assert("zip"@[0] != "ppt"@[0]);
    assert("rar"@[0] != "ppt"@[0]);
    assert("7z"@.len() != "ppt"@.len());
    assert("apk"@[0] != "ppt"@[0]);
    assert("exe"@[0] != "ppt"@[0]);
    assert("dll"@[0] != "ppt"@[0]);
    assert("msi"@[0] != "ppt"@[0]);
    assert("txt"@[0] != "ppt"@[0]);
    assert("md"@.len() != "ppt"@.len());
    assert("csv"@[0] != "ppt"@[0]);
    assert("json"@.len() != "ppt"@.len());
    assert("log"@[0] != "ppt"@[0]);
    assert("rs"@.len() != "ppt"@.len());
    assert("js"@.len() != "ppt"@.len());
    assert("ts"@.len() != "ppt"@.len());
    assert("html"@.len() != "ppt"@.len());
    assert("htm"@[0] != "ppt"@[0]);
    assert("css"@[0] != "ppt"@[0]);
    assert("sql"@[0] != "ppt"@[0]);
    assert("ps1"@[1] != "ppt"@[1]);
    assert("sh"@.len() != "ppt"@.len());
    assert("doc"@[0] != "ppt"@[0]);
    assert("docx"@.len() != "ppt"@.len());
    assert("xls"@[0] != "ppt"@[0]);
    assert("xlsx"@.len() != "ppt"@.len());
}

/// The extension table gives `pptx` back with its MIME type.
proof fn lemma_ext_row_pptx()
    ensures
        ext_table("pptx"@) == Some(("application/vnd.openxmlformats-officedocument.presentationml.presentation"@, "pptx"@)),
{
    reveal_strlit("7z");
    reveal_strlit("apk");
    reveal_strlit("avi");
    reveal_strlit("bmp");
    reveal_strlit("css");
    reveal_strlit("csv");
    reveal_strlit("dll");
    reveal_strlit("doc");
    reveal_strlit("docx");
    reveal_strlit("exe");
    reveal_strlit("flac");
    reveal_strlit("gif");
    reveal_strlit("htm");
    reveal_strlit("html");
    reveal_strlit("jpeg");
    reveal_strlit("jpg");
    reveal_strlit("js");
    reveal_strlit("json");
    reveal_strlit("log");
    reveal_strlit("m4a");
    reveal_strlit("m4v");
    reveal_strlit("md");
    reveal_strlit("mkv");
    reveal_strlit("mov");
    reveal_strlit("mp3");
    reveal_strlit("mp4");
    reveal_strlit("msi");
    reveal_strlit("ogg");
    reveal_strlit("pdf");
    reveal_strlit("png");
    reveal_strlit("ppt");
    reveal_strlit("pptx");
    reveal_strlit("ps1");
    reveal_strlit("rar");
    reveal_strlit("rs");
    reveal_strlit("sh");
    reveal_strlit("sql");
    reveal_strlit("svg");
    reveal_strlit("tif");
    reveal_strlit("tiff");
    reveal_strlit("ts");
    reveal_strlit("txt");
    reveal_strlit("wav");
    reveal_strlit("webm");
    reveal_strlit("webp");
    reveal_strlit("xls");
    reveal_strlit("xlsx");
    reveal_strlit("zip");
    assert("jpg"@.len() != "pptx"@.len());
    assert("jpeg"@[0] != "pptx"@[0]);
    assert("png"@.len() != "pptx"@.len());
    assert("gif"@.len() != "pptx"@.len());
    assert("webp"@[0] != "pptx"@[0]);
    assert("bmp"@.len() != "pptx"@.len());
    assert("tif"@.len() != "pptx"@.len());
    assert("tiff"@[0] != "pptx"@[0]);
    assert("svg"@.len() != "pptx"@.len());
    assert("mp4"@.len() != "pptx"@.len());
    assert("m4v"@.len() != "pptx"@.len());
    assert("mov"@.len() != "pptx"@.len());
    assert("webm"@[0] != "pptx"@[0]);
    assert("avi"@.len() != "pptx"@.len());
    assert("mkv"@.len() != "pptx"@.len());
    assert("mp3"@.len() != "pptx"@.len());
    assert("wav"@.len() != "pptx"@.len());
    assert("ogg"@.len() != "pptx"@.len());
    assert("flac"@[0] != "pptx"@[0]);
    assert("m4a"@.len() != "pptx"@.len());
    assert("pdf"@.len() != "pptx"@.len());
    assert("zip"@.len() != "pptx"@.len());
    assert("rar"@.len() != "pptx"@.len());
    assert("7z"@.len() != "pptx"@.len());
    assert("apk"@.len() != "pptx"@.len());
    assert("exe"@.len() != "pptx"@.len());
    assert("dll"@.len() != "pptx"@.len());
    assert("msi"@.len() != "pptx"@.len());
    assert("txt"@.len() != "pptx"@.len());
    assert("md"@.len() != "pptx"@.len());
    assert("csv"@.len() != "pptx"@.len());
    assert("json"@[0] != "pptx"@[0]);
    assert("log"@.len() != "pptx"@.len());
    assert("rs"@.len() != "pptx"@.len());
    assert("js"@.len() != "pptx"@.len());
    assert("ts"@.len() != "pptx"@.len());
    assert("html"@[0] != "pptx"@[0]);
    assert("htm"@.len() != "pptx"@.len());
    assert("css"@.len() != "pptx"@.len());
    assert("sql"@.len() != "pptx"@.len());
    assert("ps1"@.len() != "pptx"@.len());
    assert("sh"@.len() != "pptx"@.len());
    assert("doc"@.len() != "pptx"@.len());
    assert("docx"@[0] != "pptx"@[0]);
    assert("xls"@.len() != "pptx"@.len());
    assert("xlsx"@[0] != "pptx"@[0]);
    assert("ppt"@.len() != "pptx"@.len());
}

/// The extension table gives `rar` back with its MIME type.
proof fn lemma_ext_row_rar()
    ensures
        ext_table("rar"@) == Some(("application/vnd.rar"@, "rar"@)),
{
    reveal_strlit("avi");
    reveal_strlit("bmp");
    reveal_strlit("flac");
    reveal_strlit("gif");
    reveal_strlit("jpeg");
    reveal_strlit("jpg");
    reveal_strlit("m4a");
    reveal_strlit("m4v");
    reveal_strlit("mkv");
    reveal_strlit("mov");
    reveal_strlit("mp3");
    reveal_strlit("mp4");
    reveal_strlit("ogg");
    reveal_strlit("pdf");
    reveal_strlit("png");
    reveal_strlit("rar");
    reveal_strlit("svg");
    reveal_strlit("tif");
    reveal_strlit("tiff");
    reveal_strlit("wav");
    reveal_strlit("webm");
    reveal_strlit("webp");
    reveal_strlit("zip");
    assert("jpg"@[0] != "rar"@[0]);
    assert("jpeg"@.len() != "rar"@.len());
    assert("png"@[0] != "rar"@[0]);
    assert("gif"@[0] != "rar"@[0]);
    assert("webp"@.len() != "rar"@.len());
    assert("bmp"@[0] != "rar"@[0]);
    assert("tif"@[0] != "rar"@[0]);
    assert("tiff"@.len() != "rar"@.len());
    assert("svg"@[0] != "rar"@[0]);
    assert("mp4"@[0] != "rar"@[0]);
    assert("m4v"@[0] != "rar"@[0]);
    assert("mov"@[0] != "rar"@[0]);
    assert("webm"@.len() != "rar"@.len());
    assert("avi"@[0] != "rar"@[0]);
    assert("mkv"@[0] != "rar"@[0]);
    assert("mp3"@[0] != "rar"@[0]);
    assert("wav"@[0] != "rar"@[0]);
    assert("ogg"@[0] != "rar"@[0]);
    assert("flac"@.len() != "rar"@.len());
    assert("m4a"@[0] != "rar"@[0]);
    assert("pdf"@[0] != "rar"@[0]);
    assert("zip"@[0] != "rar"@[0]);
}

/// The extension table gives `svg` back with its MIME type.
proof fn lemma_ext_row_svg()
    ensures
        ext_table("svg"@) == Some(("image/svg+xml"@, "svg"@)),
{
    reveal_strlit("bmp");
    reveal_strlit("gif");
    reveal_strlit("jpeg");
    reveal_strlit("jpg");
    reveal_strlit("png");
    reveal_strlit("svg");
    reveal_strlit("tif");
    reveal_strlit("tiff");
    reveal_strlit("webp");
    assert("jpg"@[0] != "svg"@[0]);
    assert("jpeg"@.len() != "svg"@.len());
    assert("png"@[0] != "svg"@[0]);
    assert("gif"@[0] != "svg"@[0]);
    assert("webp"@.len() != "svg"@.len());
    assert("bmp"@[0] != "svg"@[0]);
    assert("tif"@[0] != "svg"@[0]);
    assert("tiff"@.len() != "svg"@.len());
}

/// The extension table gives `tiff` back with its MIME type.
proof fn lemma_ext_row_tiff()
    ensures
        ext_table("tiff"@) == Some(("image/tiff"@, "tiff"@)),
{
    reveal_strlit("bmp");
    reveal_strlit("gif");
    reveal_strlit("jpeg");
    reveal_strlit("jpg");
    reveal_strlit("png");
    reveal_strlit("tif");
    reveal_strlit("tiff");
    reveal_strlit("webp");
    assert("jpg"@.len() != "tiff"@.len());
    assert("jpeg"@[0] != "tiff"@[0]);
    assert("png"@.len() != "tiff"@.len());
    assert("gif"@.len() != "tiff"@.len());
    assert("webp"@[0] != "tiff"@[0]);
    assert("bmp"@.len() != "tiff"@.len());
    assert("tif"@.len() != "tiff"@.len());
}

/// The extension table gives `txt` back with its MIME type.
proof fn lemma_ext_row_txt()
    ensures
        ext_table("txt"@) == Some(("text/plain"@, "txt"@)),
{
    reveal_strlit("7z");
    reveal_strlit("apk");
    reveal_strlit("avi");
    reveal_strlit("bmp");
    reveal_strlit("dll");
    reveal_strlit("exe");
    reveal_strlit("flac");
    reveal_strlit("gif");
    reveal_strlit("jpeg");
    reveal_strlit("jpg");
    reveal_strlit("m4a");
    reveal_strlit("m4v");
    reveal_strlit("mkv");
    reveal_strlit("mov");
    reveal_strlit("mp3");
    reveal_strlit("mp4");
    reveal_strlit("msi");
    reveal_strlit("ogg");
    reveal_strlit("pdf");
    reveal_strlit("png");
    reveal_strlit("rar");
    reveal_strlit("svg");
    reveal_strlit("tif");
    reveal_strlit("tiff");
    reveal_strlit("txt");
    reveal_strlit("wav");
    reveal_strlit("webm");
    reveal_strlit("webp");
    reveal_strlit("zip");
    assert("jpg"@[0] != "txt"@[0]);
    assert("jpeg"@.len() != "txt"@.len());
    assert("png"@[0] != "txt"@[0]);
    assert("gif"@[0] != "txt"@[0]);
    assert("webp"@.len() != "txt"@.len());
    assert("bmp"@[0] != "txt"@[0]);
    assert("tif"@[1] != "txt"@[1]);
    assert("tiff"@.len() != "txt"@.len());
    assert("svg"@[0] != "txt"@[0]);
    assert("mp4"@[0] != "txt"@[0]);
    assert("m4v"@[0] != "txt"@[0]);
    assert("mov"@[0] != "txt"@[0]);
    assert("webm"@.len() != "txt"@.len());
    assert("avi"@[0] != "txt"@[0]);
    assert("mkv"@[0] != "txt"@[0]);
    assert("mp3"@[0] != "txt"@[0]);
    assert("wav"@[0] != "txt"@[0]);
    assert("ogg"@[0] != "txt"@[0]);
    assert("flac"@.len() != "txt"@.len());
    assert("m4a"@[0] != "txt"@[0]);
    assert("pdf"@[0] != "txt"@[0]);
    assert("zip"@[0] != "txt"@[0]);
    assert("rar"@[0] != "txt"@[0]);
    assert("7z"@.len() != "txt"@.len());
    assert("apk"@[0] != "txt"@[0]);
    assert("exe"@[0] != "txt"@[0]);
    assert("dll"@[0] != "txt"@[0]);
    assert("msi"@[0] != "txt"@[0]);
}

/// The extension table gives `wav` back with its MIME type.
proof fn lemma_ext_row_wav()
    ensures
        ext_table("wav"@) == Some(("audio/wav"@, "wav"@)),
{
    reveal_strlit("avi");
    reveal_strlit("bmp");
    reveal_strlit("gif");
    reveal_strlit("jpeg");
    reveal_strlit("jpg");
    reveal_strlit("m4v");
    reveal_strlit("mkv");
    reveal_strlit("mov");
    reveal_strlit("mp3");
    reveal_strlit("mp4");
    reveal_strlit("png");
    reveal_strlit("svg");
    reveal_strlit("tif");
    reveal_strlit("tiff");
    reveal_strlit("wav");
    reveal_strlit("webm");
    reveal_strlit("webp");
    assert("jpg"@[0] != "wav"@[0]);
    assert("jpeg"@.len() != "wav"@.len());
    assert("png"@[0] != "wav"@[0]);
    assert("gif"@[0] != "wav"@[0]);
    assert("webp"@.len() != "wav"@.len());
    assert("bmp"@[0] != "wav"@[0]);
    assert("tif"@[0] != "wav"@[0]);
    assert("tiff"@.len() != "wav"@.len());
    assert("svg"@[0] != "wav"@[0]);
    assert("mp4"@[0] != "wav"@[0]);
    assert("m4v"@[0] != "wav"@[0]);
    assert("mov"@[0] != "wav"@[0]);
    assert("webm"@.len() != "wav"@.len());
    assert("avi"@[0] != "wav"@[0]);
    assert("mkv"@[0] != "wav"@[0]);
    assert("mp3"@[0] != "wav"@[0]);
}

/// The extension table gives `webm` back with its MIME type.
proof fn lemma_ext_row_webm()
    ensures
        ext_table("webm"@) == Some(("video/webm"@, "webm"@)),
{
    reveal_strlit("bmp");
    reveal_strlit("gif");
    reveal_strlit("jpeg");
    reveal_strlit("jpg");
    reveal_strlit("m4v");
    reveal_strlit("mov");
    reveal_strlit("mp4");
    reveal_strlit("png");
    reveal_strlit("svg");
    reveal_strlit("tif");
    reveal_strlit("tiff");
    reveal_strlit("webm");
    reveal_strlit("webp");
    assert("jpg"@.len() != "webm"@.len());
    assert("jpeg"@[0] != "webm"@[0]);
    assert("png"@.len() != "webm"@.len());
    assert("gif"@.len() != "webm"@.len());
    assert("webp"@[3] != "webm"@[3]);
    assert("bmp"@.len() != "webm"@.len());
    assert("tif"@.len() != "webm"@.len());
    assert("tiff"@[0] != "webm"@[0]);
    assert("svg"@.len() != "webm"@.len());
    assert("mp4"@.len() != "webm"@.len());
    assert("m4v"@.len() != "webm"@.len());
    assert("mov"@.len() != "webm"@.len());
}

/// The extension table gives `webp` back with its MIME type.
proof fn lemma_ext_row_webp()
    ensures
        ext_table("webp"@) == Some(("image/webp"@, "webp"@)),
{
    reveal_strlit("gif");
    reveal_strlit("jpeg");
    reveal_strlit("jpg");
    reveal_strlit("png");
    reveal_strlit("webp");
    assert("jpg"@.len() != "webp"@.len());
    assert("jpeg"@[0] != "webp"@[0]);
    assert("png"@.len() != "webp"@.len());
    assert("gif"@.len() != "webp"@.len());
}

/// The extension table gives `xls` back with its MIME type.
proof fn lemma_ext_row_xls()
    ensures
        ext_table("xls"@) == Some(("application/vnd.ms-excel"@, "xls"@)),
{
    reveal_strlit("7z");
    reveal_strlit("apk");
    reveal_strlit("avi");
    reveal_strlit("bmp");
    reveal_strlit("css");
    reveal_strlit("csv");
    reveal_strlit("dll");
    reveal_strlit("doc");
    reveal_strlit("docx");
    reveal_strlit("exe");
    reveal_strlit("flac");
    reveal_strlit("gif");
    reveal_strlit("htm");
    reveal_strlit("html");
    reveal_strlit("jpeg");
    reveal_strlit("jpg");
    reveal_strlit("js");
    reveal_strlit("json");
    reveal_strlit("log");
    reveal_strlit("m4a");
    reveal_strlit("m4v");
    reveal_strlit("md");
    reveal_strlit("mkv");
    reveal_strlit("mov");
    reveal_strlit("mp3");
    reveal_strlit("mp4");
    reveal_strlit("msi");
    reveal_strlit("ogg");
    reveal_strlit("pdf");
    reveal_strlit("png");
    reveal_strlit("ps1");
    reveal_strlit("rar");
    reveal_strlit("rs");
    reveal_strlit("sh");
    reveal_strlit("sql");
    reveal_strlit("svg");
    reveal_strlit("tif");
    reveal_strlit("tiff");
    reveal_strlit("ts");
    reveal_strlit("txt");
    reveal_strlit("wav");
    reveal_strlit("webm");
    reveal_strlit("webp");
    reveal_strlit("xls");
    reveal_strlit("zip");
    assert("jpg"@[0] != "xls"@[0]);
    assert("jpeg"@.len() != "xls"@.len());
    assert("png"@[0] != "xls"@[0]);
    assert("gif"@[0] != "xls"@[0]);
    assert("webp"@.len() != "xls"@.len());
    assert("bmp"@[0] != "xls"@[0]);
    assert("tif"@[0] != "xls"@[0]);
    assert("tiff"@.len() != "xls"@.len());
    assert("svg"@[0] != "xls"@[0]);
    assert("mp4"@[0] != "xls"@[0]);
    assert("m4v"@[0] != "xls"@[0]);
    assert("mov"@[0] != "xls"@[0]);
    assert("webm"@.len() != "xls"@.len());
    assert("avi"@[0] != "xls"@[0]);
    assert("mkv"@[0] != "xls"@[0]);
    assert("mp3"@[0] != "xls"@[0]);
    assert("wav"@[0] != "xls"@[0]);
    assert("ogg"@[0] != "xls"@[0]);
    assert("flac"@.len() != "xls"@.len());
    assert("m4a"@[0] != "xls"@[0]);
    assert("pdf"@[0] != "xls"@[0]);
    assert("zip"@[0] != "xls"@[0]);
    assert("rar"@[0] != "xls"@[0]);
    assert("7z"@.len() != "xls"@.len());
    assert("apk"@[0] != "xls"@[0]);
    assert("exe"@[0] != "xls"@[0]);
    assert("dll"@[0] != "xls"@[0]);
    assert("msi"@[0] != "xls"@[0]);
    assert("txt"@[0] != "xls"@[0]);
    assert("md"@.len() != "xls"@.len());
    assert("csv"@[0] != "xls"@[0]);
    assert("json"@.len() != "xls"@.len());
    assert("log"@[0] != "xls"@[0]);
    assert("rs"@.len() != "xls"@.len());
    assert("js"@.len() != "xls"@.len());
    assert("ts"@.len() != "xls"@.len());
    assert("html"@.len() != "xls"@.len());
    assert("htm"@[0] != "xls"@[0]);
    assert("css"@[0] != "xls"@[0]);
    assert("sql"@[0] != "xls"@[0]);
    assert("ps1"@[0] != "xls"@[0]);
    assert("sh"@.len() != "xls"@.len());
    assert("doc"@[0] != "xls"@[0]);
    assert("docx"@.len() != "xls"@.len());
}

/// The extension table gives `xlsx` back with its MIME type.
proof fn lemma_ext_row_xlsx()
    ensures
        ext_table("xlsx"@) == Some(("application/vnd.openxmlformats-officedocument.spreadsheetml.sheet"@, "xlsx"@)),
{
    reveal_strlit("7z");
    reveal_strlit("apk");
    reveal_strlit("avi");
    reveal_strlit("bmp");
    reveal_strlit("css");
    reveal_strlit("csv");
    reveal_strlit("dll");
    reveal_strlit("doc");
    reveal_strlit("docx");
    reveal_strlit("exe");
    reveal_strlit("flac");
    reveal_strlit("gif");
    reveal_strlit("htm");
    reveal_strlit("html");
    reveal_strlit("jpeg");
    reveal_strlit("jpg");
    reveal_strlit("js");
    reveal_strlit("json");
    reveal_strlit("log");
    reveal_strlit("m4a");
    reveal_strlit("m4v");
    reveal_strlit("md");
    reveal_strlit("mkv");
    reveal_strlit("mov");
    reveal_strlit("mp3");
    reveal_strlit("mp4");
    reveal_strlit("msi");
    reveal_strlit("ogg");
    reveal_strlit("pdf");
    reveal_strlit("png");
    reveal_strlit("ps1");
    reveal_strlit("rar");
    reveal_strlit("rs");
    reveal_strlit("sh");
    reveal_strlit("sql");
    reveal_strlit("svg");
    reveal_strlit("tif");
    reveal_strlit("tiff");
    reveal_strlit("ts");
    reveal_strlit("txt");
    reveal_strlit("wav");
    reveal_strlit("webm");
    reveal_strlit("webp");
    reveal_strlit("xls");
    reveal_strlit("xlsx");
    reveal_strlit("zip");
    assert("jpg"@.len() != "xlsx"@.len());
    assert("jpeg"@[0] != "xlsx"@[0]);
    assert("png"@.len() != "xlsx"@.len());
    assert("gif"@.len() != "xlsx"@.len());
    assert("webp"@[0] != "xlsx"@[0]);
    assert("bmp"@.len() != "xlsx"@.len());
    assert("tif"@.len() != "xlsx"@.len());
    assert("tiff"@[0] != "xlsx"@[0]);
    assert("svg"@.len() != "xlsx"@.len());
    assert("mp4"@.len() != "xlsx"@.len());
    assert("m4v"@.len() != "xlsx"@.len());
    assert("mov"@.len() != "xlsx"@.len());
    assert("webm"@[0] != "xlsx"@[0]);
    assert("avi"@.len() != "xlsx"@.len());
    assert("mkv"@.len() != "xlsx"@.len());
    assert("mp3"@.len() != "xlsx"@.len());
    assert("wav"@.len() != "xlsx"@.len());
    assert("ogg"@.len() != "xlsx"@.len());
    assert("flac"@[0] != "xlsx"@[0]);
    assert("m4a"@.len() != "xlsx"@.len());
    assert("pdf"@.len() != "xlsx"@.len());
    assert("zip"@.len() != "xlsx"@.len());
    assert("rar"@.len() != "xlsx"@.len());
    assert("7z"@.len() != "xlsx"@.len());
    assert("apk"@.len() != "xlsx"@.len());
    assert("exe"@.len() != "xlsx"@.len());
    assert("dll"@.len() != "xlsx"@.len());
    assert("msi"@.len() != "xlsx"@.len());
    assert("txt"@.len() != "xlsx"@.len());
    assert("md"@.len() != "xlsx"@.len());
    assert("csv"@.len() != "xlsx"@.len());
    assert("json"@[0] != "xlsx"@[0]);
    assert("log"@.len() != "xlsx"@.len());
    assert("rs"@.len() != "xlsx"@.len());
    assert("js"@.len() != "xlsx"@.len());
    assert("ts"@.len() != "xlsx"@.len());
    assert("html"@[0] != "xlsx"@[0]);
    assert("htm"@.len() != "xlsx"@.len());
    assert("css"@.len() != "xlsx"@.len());
    assert("sql"@.len() != "xlsx"@.len());
    assert("ps1"@.len() != "xlsx"@.len());
    assert("sh"@.len() != "xlsx"@.len());
    assert("doc"@.len() != "xlsx"@.len());
    assert("docx"@[0] != "xlsx"@[0]);
    assert("xls"@.len() != "xlsx"@.len());
}

/// The extension table gives `zip` back with its MIME type.
proof fn lemma_ext_row_zip()
    ensures
        ext_table("zip"@) == Some(("application/zip"@, "zip"@)),
{
    reveal_strlit("avi");
    reveal_strlit("bmp");
    reveal_strlit("flac");
    reveal_strlit("gif");
    reveal_strlit("jpeg");
    reveal_strlit("jpg");
    reveal_strlit("m4a");
    reveal_strlit("m4v");
    reveal_strlit("mkv");
    reveal_strlit("mov");
    reveal_strlit("mp3");
    reveal_strlit("mp4");
    reveal_strlit("ogg");
    reveal_strlit("pdf");
    reveal_strlit("png");
    reveal_strlit("svg");
    reveal_strlit("tif");
    reveal_strlit("tiff");
    reveal_strlit("wav");
    reveal_strlit("webm");
    reveal_strlit("webp");
    reveal_strlit("zip");
    assert("jpg"@[0] != "zip"@[0]);
    assert("jpeg"@.len() != "zip"@.len());
    assert("png"@[0] != "zip"@[0]);
    assert("gif"@[0] != "zip"@[0]);
    assert("webp"@.len() != "zip"@.len());
    assert("bmp"@[0] != "zip"@[0]);
    assert("tif"@[0] != "zip"@[0]);
    assert("tiff"@.len() != "zip"@.len());
    assert("svg"@[0] != "zip"@[0]);
    assert("mp4"@[0] != "zip"@[0]);
    assert("m4v"@[0] != "zip"@[0]);
    assert("mov"@[0] != "zip"@[0]);
    assert("webm"@.len() != "zip"@.len());
    assert("avi"@[0] != "zip"@[0]);
    assert("mkv"@[0] != "zip"@[0]);
    assert("mp3"@[0] != "zip"@[0]);
    assert("wav"@[0] != "zip"@[0]);
    assert("ogg"@[0] != "zip"@[0]);
    assert("flac"@.len() != "zip"@.len());
    assert("m4a"@[0] != "zip"@[0]);
    assert("pdf"@[0] != "zip"@[0]);
}

/// Every type the extension table gives is canonical: the MIME table,
/// asked with its MIME type, answers with that same type.
pub proof fn law_ext_types_canonical(e: Seq<char>)
    ensures
        ext_table(e) matches Some((m, _)) ==> (mime_table(mime_essence(m)) matches Some((m2, _)) && m2 == m),
{
    if ext_table(e) is Some {
        let (m, _) = ext_table(e)->0;
        if m == "image/jpeg"@ {
            lemma_mime_row_jpg();
        } else if m == "image/png"@ {
            lemma_mime_row_png();
        } else if m == "image/gif"@ {
            lemma_mime_row_gif();
        } else if m == "image/webp"@ {
            lemma_mime_row_webp();
        } else if m == "image/bmp"@ {
            lemma_mime_row_bmp();
        } else if m == "image/tiff"@ {
            lemma_mime_row_tiff();
        } else if m == "image/svg+xml"@ {
            lemma_mime_row_svg();
        } else if m == "video/mp4"@ {
            lemma_mime_row_mp4();
        } else if m == "video/quicktime"@ {
            lemma_mime_row_mov();
        } else if m == "video/webm"@ {
            lemma_mime_row_webm();
        } else if m == "video/x-msvideo"@ {
            lemma_mime_row_avi();
        } else if m == "video/x-matroska"@ {
            lemma_mime_row_mkv();
        } else if m == "audio/mpeg"@ {
            lemma_mime_row_mp3();
        } else if m == "audio/wav"@ {
            lemma_mime_row_wav();
        } else if m == "audio/ogg"@ {
            lemma_mime_row_ogg();
        } else if m == "audio/flac"@ {
            lemma_mime_row_flac();
        } else if m == "audio/mp4"@ {
            lemma_mime_row_m4a();
        } else if m == "application/pdf"@ {
            lemma_mime_row_pdf();
        } else if m == "application/zip"@ {
            lemma_mime_row_zip();
        } else if m == "application/vnd.android.package-archive"@ {
            lemma_mime_row_apk();
        } else if m == "application/vnd.rar"@ {
            lemma_mime_row_rar();
        } else if m == "application/x-7z-compressed"@ {
            lemma_mime_row_7z();
        } else if m == "application/vnd.microsoft.portable-executable"@ {
            lemma_mime_row_exe();
        } else if m == "application/x-msi"@ {
            lemma_mime_row_msi();
        } else if m == "text/plain"@ {
            lemma_mime_row_txt();
        } else if m == "text/markdown"@ {
            lemma_mime_row_md();
        } else if m == "text/csv"@ {
            lemma_mime_row_csv();
        } else if m == "application/json"@ {
            lemma_mime_row_json();
        } else if m == "application/msword"@ {
            lemma_mime_row_doc();
        } else if m == "application/vnd.openxmlformats-officedocument.wordprocessingml.document"@ {
            lemma_mime_row_docx();
        } else if m == "application/vnd.ms-excel"@ {
            lemma_mime_row_xls();
        } else if m == "application/vnd.openxmlformats-officedocument.spreadsheetml.sheet"@ {
            lemma_mime_row_xlsx();
        } else if m == "application/vnd.ms-powerpoint"@ {
            lemma_mime_row_ppt();
        } else if m == "application/vnd.openxmlformats-officedocument.presentationml.presentation"@ {
            lemma_mime_row_pptx();
        }
    }
}

/// Every type the MIME table gives comes back from the extension table
/// under its extension.
pub proof fn law_mime_types_round_trip(mime: Seq<char>)
    ensures
        mime_table(mime) matches Some((m, x)) ==> ext_table(x) == Some((m, x)),
{
    if mime_table(mime) is Some {
        let (m, x) = mime_table(mime)->0;
        if m == "image/jpeg"@ && x == "jpg"@ {
            lemma_ext_row_jpg();
        } else if m == "image/png"@ && x == "png"@ {
            lemma_ext_row_png();
        } else if m == "image/gif"@ && x == "gif"@ {
            lemma_ext_row_gif();
        } else if m == "image/webp"@ && x == "webp"@ {
            lemma_ext_row_webp();
        } else if m == "image/bmp"@ && x == "bmp"@ {
            lemma_ext_row_bmp();
        } else if m == "image/tiff"@ && x == "tiff"@ {
            lemma_ext_row_tiff();
        } else if m == "image/svg+xml"@ && x == "svg"@ {
            lemma_ext_row_svg();
        } else if m == "video/mp4"@ && x == "mp4"@ {
            lemma_ext_row_mp4();
        } else if m == "video/quicktime"@ && x == "mov"@ {
            lemma_ext_row_mov();
        } else if m == "video/webm"@ && x == "webm"@ {
            lemma_ext_row_webm();
        } else if m == "video/x-msvideo"@ && x == "avi"@ {
            lemma_ext_row_avi();
        } else if m == "video/x-matroska"@ && x == "mkv"@ {
            lemma_ext_row_mkv();
        } else if m == "audio/mpeg"@ && x == "mp3"@ {
            lemma_ext_row_mp3();
        } else if m == "audio/wav"@ && x == "wav"@ {
            lemma_ext_row_wav();
        } else if m == "audio/ogg"@ && x == "ogg"@ {
            lemma_ext_row_ogg();
        } else if m == "audio/flac"@ && x == "flac"@ {
            lemma_ext_row_flac();
        } else if m == "audio/mp4"@ && x == "m4a"@ {
            lemma_ext_row_m4a();
        } else if m == "application/pdf"@ && x == "pdf"@ {
            lemma_ext_row_pdf();
        } else if m == "application/zip"@ && x == "zip"@ {
            lemma_ext_row_zip();
        } else if m == "application/vnd.android.package-archive"@ && x == "apk"@ {
            lemma_ext_row_apk();
        } else if m == "application/vnd.rar"@ && x == "rar"@ {
            lemma_ext_row_rar();
        } else if m == "application/x-7z-compressed"@ && x == "7z"@ {
            lemma_ext_row_7z();
        } else if m == "application/vnd.microsoft.portable-executable"@ && x == "exe"@ {
            lemma_ext_row_exe();
        } else if m == "application/x-msi"@ && x == "msi"@ {
            lemma_ext_row_msi();
        } else if m == "text/plain"@ && x == "txt"@ {
            lemma_ext_row_txt();
        } else if m == "text/markdown"@ && x == "md"@ {
            lemma_ext_row_md();
        } else if m == "text/csv"@ && x == "csv"@ {
            lemma_ext_row_csv();
        } else if m == "application/json"@ && x == "json"@ {
            lemma_ext_row_json();
        } else if m == "application/msword"@ && x == "doc"@ {
            lemma_ext_row_doc();
        } else if m == "application/vnd.openxmlformats-officedocument.wordprocessingml.document"@ && x == "docx"@ {
            lemma_ext_row_docx();
        } else if m == "application/vnd.ms-excel"@ && x == "xls"@ {
            lemma_ext_row_xls();
        } else if m == "application/vnd.openxmlformats-officedocument.spreadsheetml.sheet"@ && x == "xlsx"@ {
            lemma_ext_row_xlsx();
        } else if m == "application/vnd.ms-powerpoint"@ && x == "ppt"@ {
            lemma_ext_row_ppt();
        } else if m == "application/vnd.openxmlformats-officedocument.presentationml.presentation"@ && x == "pptx"@ {
            lemma_ext_row_pptx();
        }
    }
}

/// Every type recognised by its magic number is canonical in the MIME table.
pub proof fn law_sniffed_types_canonical(head: Seq<u8>, ext: Option<Seq<char>>)
    ensures
        sniff_spec(head, ext) matches Some((m, _)) ==> (mime_table(mime_essence(m)) matches Some((m2, _)) && m2 == m),
{
    if sniff_spec(head, ext) is Some {
        let (m, _) = sniff_spec(head, ext)->0;
        if m == "image/jpeg"@ {
            lemma_mime_row_jpg();
        } else if m == "image/png"@ {
            lemma_mime_row_png();
        } else if m == "image/gif"@ {
            lemma_mime_row_gif();
        } else if m == "image/webp"@ {
            lemma_mime_row_webp();
        } else if m == "image/bmp"@ {
            lemma_mime_row_bmp();
        } else if m == "image/tiff"@ {
            lemma_mime_row_tiff();
        } else if m == "image/svg+xml"@ {
            lemma_mime_row_svg();
        } else if m == "video/mp4"@ {
            lemma_mime_row_mp4();
        } else if m == "video/quicktime"@ {
            lemma_mime_row_mov();
        } else if m == "video/webm"@ {
            lemma_mime_row_webm();
        } else if m == "video/x-msvideo"@ {
            lemma_mime_row_avi();
        } else if m == "video/x-matroska"@ {
            lemma_mime_row_mkv();
        } else if m == "audio/mpeg"@ {
            lemma_mime_row_mp3();
        } else if m == "audio/wav"@ {
            lemma_mime_row_wav();
        } else if m == "audio/ogg"@ {
            lemma_mime_row_ogg();
        } else if m == "audio/flac"@ {
            lemma_mime_row_flac();
        } else if m == "audio/mp4"@ {
            lemma_mime_row_m4a();
        } else if m == "application/pdf"@ {
            lemma_mime_row_pdf();
        } else if m == "application/zip"@ {
            lemma_mime_row_zip();
        } else if m == "application/vnd.android.package-archive"@ {
            lemma_mime_row_apk();
        } else if m == "application/vnd.rar"@ {
            lemma_mime_row_rar();
        } else if m == "application/x-7z-compressed"@ {
            lemma_mime_row_7z();
        } else if m == "application/vnd.microsoft.portable-executable"@ {
            lemma_mime_row_exe();
        } else if m == "application/x-msi"@ {
            lemma_mime_row_msi();
        } else if m == "text/plain"@ {
            lemma_mime_row_txt();
        } else if m == "text/markdown"@ {
            lemma_mime_row_md();
        } else if m == "text/csv"@ {
            lemma_mime_row_csv();
        } else if m == "application/json"@ {
            lemma_mime_row_json();
        } else if m == "application/msword"@ {
            lemma_mime_row_doc();
        } else if m == "application/vnd.openxmlformats-officedocument.wordprocessingml.document"@ {
            lemma_mime_row_docx();
        } else if m == "application/vnd.ms-excel"@ {
            lemma_mime_row_xls();
        } else if m == "application/vnd.openxmlformats-officedocument.spreadsheetml.sheet"@ {
            lemma_mime_row_xlsx();
        } else if m == "application/vnd.ms-powerpoint"@ {
            lemma_mime_row_ppt();
        } else if m == "application/vnd.openxmlformats-officedocument.presentationml.presentation"@ {
            lemma_mime_row_pptx();
        }
    }
}

} // verus!
