use laberry_core::downloads::{
    ascii_download_filename, available_download, download_disposition, normalize_platform,
    platform_title, unavailable_download,
};
use laberry_core::filetype::{
    detect_upload_type, effective_mime_type, inline_safe, is_generic_mime,
    is_normalizable_raster_image, is_raster_image, is_zip_container_ext, known_type_from_ext,
    known_type_from_mime, looks_like_plain_text, safe_ext_from_name, sanitize_filename,
    sniff_magic_type,
};
use laberry_core::paths::{thumb_candidate_paths, thumb_path_for};

fn pair(t: (String, String)) -> (String, String) {
    t
}

#[test]
fn extension_table() {
    let t = known_type_from_ext("jpeg").unwrap();
    assert_eq!((t.mime, t.ext), ("image/jpeg", "jpg"));
    let t = known_type_from_ext("htm").unwrap();
    assert_eq!((t.mime, t.ext), ("text/plain", "html"));
    let t = known_type_from_ext("dll").unwrap();
    assert_eq!((t.mime, t.ext), ("application/vnd.microsoft.portable-executable", "dll"));
    assert!(known_type_from_ext("JPG").is_none());
    assert!(known_type_from_ext("xyz").is_none());
}

#[test]
fn mime_table_uses_the_essence() {
    let t = known_type_from_mime(" Image/JPG ; q=1").unwrap();
    assert_eq!((t.mime, t.ext), ("image/jpeg", "jpg"));
    let t = known_type_from_mime("audio/x-wav").unwrap();
    assert_eq!((t.mime, t.ext), ("audio/wav", "wav"));
    let t = known_type_from_mime("application/x-msdownload").unwrap();
    assert_eq!(t.ext, "exe");
    assert!(known_type_from_mime("application/octet-stream").is_none());
}

#[test]
fn generic_mime_types() {
    assert!(is_generic_mime(""));
    assert!(is_generic_mime(" Application/Octet-Stream; charset=binary"));
    assert!(is_generic_mime("unknown/unknown"));
    assert!(!is_generic_mime("image/png"));
}

#[test]
fn zip_containers() {
    for e in ["docx", "xlsx", "pptx", "odt", "ods", "odp", "jar", "apk", "epub"] {
        assert!(is_zip_container_ext(e));
    }
    assert!(!is_zip_container_ext("zip"));
}

#[test]
fn extension_from_name() {
    assert_eq!(safe_ext_from_name("Photo.JPG").as_deref(), Some("jpg"));
    assert_eq!(safe_ext_from_name("archive.tar.gz").as_deref(), Some("gz"));
    assert_eq!(safe_ext_from_name("noext"), None);
    assert_eq!(safe_ext_from_name(".bashrc"), None);
    assert_eq!(safe_ext_from_name("a.b-c"), None);
    assert_eq!(safe_ext_from_name("a.abcdefghijklmnopq"), None);
    assert_eq!(safe_ext_from_name("a.abcdefghijklmnop").as_deref(), Some("abcdefghijklmnop"));
}

#[test]
fn filename_sanitizing() {
    assert_eq!(sanitize_filename("my file (1).txt"), "my_file__1_.txt");
    assert_eq!(sanitize_filename("отчёт.pdf"), "_____.pdf");
    assert_eq!(sanitize_filename(""), "file");
}

#[test]
fn inline_and_raster_rules() {
    assert!(inline_safe("IMAGE/PNG"));
    assert!(!inline_safe("image/svg+xml"));
    assert!(inline_safe("video/mp4"));
    assert!(inline_safe("text/plain"));
    assert!(!inline_safe("text/html"));
    assert!(is_raster_image("image/gif"));
    assert!(!is_raster_image("image/svg+xml"));
    assert!(is_normalizable_raster_image("Image/Png"));
    assert!(!is_normalizable_raster_image("image/gif"));
}

#[test]
fn magic_numbers() {
    let t = sniff_magic_type(b"\x89PNG\r\n\x1a\n....", None).unwrap();
    assert_eq!(t.ext, "png");
    let t = sniff_magic_type(&[0xff, 0xd8, 0xff, 0xe0], None).unwrap();
    assert_eq!(t.ext, "jpg");
    let t = sniff_magic_type(b"RIFF\0\0\0\0WEBPVP8 ", None).unwrap();
    assert_eq!(t.mime, "image/webp");
    let t = sniff_magic_type(b"RIFF\0\0\0\0WAVEfmt ", None).unwrap();
    assert_eq!(t.mime, "audio/wav");
    let t = sniff_magic_type(b"PK\x03\x04rest", Some("docx")).unwrap();
    assert_eq!(t.ext, "docx");
    let t = sniff_magic_type(b"PK\x03\x04rest", Some("txt")).unwrap();
    assert_eq!(t.ext, "zip");
    let t = sniff_magic_type(b"\0\0\0\x18ftypqt  ", None).unwrap();
    assert_eq!(t.ext, "mov");
    let t = sniff_magic_type(b"\0\0\0\x18ftypisom", None).unwrap();
    assert_eq!(t.ext, "mp4");
    let t = sniff_magic_type(b"MZ\x90\0", None).unwrap();
    assert_eq!(t.ext, "exe");
    let t = sniff_magic_type(&[0xff, 0xfb, 0x90], None).unwrap();
    assert_eq!(t.ext, "mp3");
    assert!(sniff_magic_type(b"hello", None).is_none());
    assert!(sniff_magic_type(b"", None).is_none());
}

#[test]
fn plain_text_heads() {
    assert!(looks_like_plain_text(b"hello\r\n\tworld"));
    assert!(looks_like_plain_text("привет".as_bytes()));
    assert!(!looks_like_plain_text(b""));
    assert!(!looks_like_plain_text(b"a\0b"));
    assert!(!looks_like_plain_text(b"a\x7fb"));
    assert!(!looks_like_plain_text(&[0xc3, 0x28]));
}

#[test]
fn upload_type_detection_order() {
    assert_eq!(pair(detect_upload_type(b"%PDF-1.4", "x.txt", "text/plain")), ("application/pdf".to_string(), "pdf".to_string()));
    assert_eq!(pair(detect_upload_type(b"# Title", "notes.md", "text/plain")), ("text/markdown".to_string(), "md".to_string()));
    assert_eq!(pair(detect_upload_type(b"# Title", "notes.markdown", "")), ("text/markdown".to_string(), "md".to_string()));
    assert_eq!(pair(detect_upload_type(b"abc", "a.bin", "image/png")), ("image/png".to_string(), "png".to_string()));
    assert_eq!(pair(detect_upload_type(b"abc", "movie.mkv", "application/octet-stream")), ("video/x-matroska".to_string(), "mkv".to_string()));
    assert_eq!(pair(detect_upload_type(b"abc", "noext", "")), ("text/plain".to_string(), "txt".to_string()));
    assert_eq!(pair(detect_upload_type(b"\0\x01", "noext", "")), ("application/octet-stream".to_string(), "bin".to_string()));
}

#[test]
fn effective_mime_of_stored_files() {
    assert_eq!(effective_mime_type("application/zip", "app.apk", "x.zip"), "application/vnd.android.package-archive");
    assert_eq!(effective_mime_type("Image/JPG", "a", "b"), "image/jpeg");
    assert_eq!(effective_mime_type("text/html; charset=utf-8", "a", "b"), "text/html");
    assert_eq!(effective_mime_type("application/octet-stream", "clip.mp4", "x"), "video/mp4");
    assert_eq!(effective_mime_type("", "noext", "stored.png"), "image/png");
    assert_eq!(effective_mime_type("", "noext", "noext"), "application/octet-stream");
}

#[test]
fn thumbnail_paths() {
    assert_eq!(thumb_path_for("abc.jpg"), "storage/files/thumbs/abc.png");
    assert_eq!(thumb_path_for("abc"), "storage/files/thumbs/abc.png");
    let c = thumb_candidate_paths("abc.jpg", Some("storage/files/def.bin"));
    assert_eq!(
        c,
        vec![
            "storage/files/thumbs/abc.png",
            "storage/files/thumbs/abc.webp",
            "storage/files/thumbs/abc.jpg",
            "storage/files/thumbs/abc.jpeg",
            "storage/files/thumbs/def.png",
            "storage/files/thumbs/def.webp",
            "storage/files/thumbs/def.jpg",
            "storage/files/thumbs/def.jpeg",
        ]
    );
    let same = thumb_candidate_paths("abc.jpg", Some("x/abc.png"));
    assert_eq!(same.len(), 4);
}

#[test]
fn download_platforms() {
    assert_eq!(normalize_platform(" Mobile "), Some("android"));
    assert_eq!(normalize_platform("DESKTOP"), Some("pc"));
    assert_eq!(normalize_platform("linux"), None);
    assert_eq!(platform_title("android"), "Мобильная версия");
    assert_eq!(platform_title("pc"), "ПК клиент");
    assert_eq!(platform_title("other"), "Клиент");
}

#[test]
fn download_file_names() {
    assert_eq!(ascii_download_filename("LaBerry Setup 1.2.exe", "pc"), "LaBerry_Setup_1.2.exe");
    assert_eq!(ascii_download_filename("клиент", "android"), "laberry.apk");
    assert_eq!(ascii_download_filename("", "pc"), "laberry-client.bin");
    assert_eq!(ascii_download_filename("!!!", "x"), "laberry-download.bin");
    let d = download_disposition("клиент v1.apk", "android");
    assert_eq!(
        d,
        "attachment; filename=\"_v1.apk\"; filename*=UTF-8''%D0%BA%D0%BB%D0%B8%D0%B5%D0%BD%D1%82%20v1.apk"
    );
}

#[test]
fn download_views() {
    let v = unavailable_download("pc");
    assert!(!v.available);
    assert_eq!(v.title, "ПК клиент");
    assert_eq!(v.version, "");
    assert!(v.download_url.is_none());
    let v = available_download("android", "1.0".to_string(), Some("a.apk".to_string()), Some(10), None);
    assert!(v.available);
    assert_eq!(v.platform, "android");
    assert_eq!(v.download_url.as_deref(), Some("/api/downloads/android/file"));
}
