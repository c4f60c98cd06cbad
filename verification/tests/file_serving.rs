use laberry_core::files::{
    archive_entry, can_access_chat, content_disposition, content_range, dedupe_decision,
    file_links, finished_upload_chat, is_zip_listing, parse_chat_id, plan_byte_range,
    plan_length, resolve_file_user, ChatInfo, ChatMembership, DownloadClaims, DupCandidate,
    FileAuthError, RangePlan, TokenUser, UploadProgress, MAX_UPLOAD_BYTES, image_size_ok,
    normalized_hash_wanted, normalized_image_hash,
};

#[test]
fn upload_progress_tracks_size_head_and_hash() {
    let mut p = UploadProgress::new();
    assert_eq!(p.size(), 0);
    assert!(p.add_chunk(b"ab"));
    assert!(p.add_chunk(b"c"));
    assert_eq!(p.size(), 3);
    assert_eq!(p.head(), b"abc");
    assert_eq!(
        p.content_hash(),
        "ba7816bf8f01cfea414140de5dae2223b00361a396177a9cb410ff61f20015ad"
    );
}

#[test]
fn upload_head_keeps_the_first_bytes_only() {
    let mut p = UploadProgress::new();
    let chunk = vec![7u8; 400];
    assert!(p.add_chunk(&chunk));
    assert!(p.add_chunk(&chunk));
    assert_eq!(p.size(), 800);
    assert_eq!(p.head().len(), 512);
}

#[test]
fn upload_limit_refuses_the_chunk_that_overflows() {
    let mut p = UploadProgress::new();
    let big = vec![0u8; MAX_UPLOAD_BYTES as usize];
    assert!(p.add_chunk(&big));
    assert!(!p.add_chunk(b"x"));
    assert_eq!(p.size(), MAX_UPLOAD_BYTES);
    assert!(p.add_chunk(b""));
}

#[test]
fn upload_fields() {
    assert_eq!(parse_chat_id(" 5"), None);
    assert_eq!(parse_chat_id("42"), Some(42));
    assert_eq!(parse_chat_id("+7"), Some(7));
    assert_eq!(parse_chat_id("-3"), Some(-3));
    assert_eq!(parse_chat_id("9223372036854775808"), None);
    assert_eq!(finished_upload_chat(Some(4), true, 10), Some(4));
    assert_eq!(finished_upload_chat(Some(4), true, 0), None);
    assert_eq!(finished_upload_chat(Some(4), false, 10), None);
    assert_eq!(finished_upload_chat(None, true, 10), None);
}

#[test]
fn deduplication() {
    let present = DupCandidate { id: 1, present: true };
    let gone = DupCandidate { id: 2, present: false };
    let other = DupCandidate { id: 3, present: true };
    let d = dedupe_decision(Some(present), Some(other));
    assert_eq!((d.duplicate_of, d.duplicate_by, d.raw_shared), (Some(1), Some("content_hash"), true));
    assert!(d.expired.is_empty());
    let d = dedupe_decision(Some(gone), Some(other));
    assert_eq!((d.duplicate_of, d.duplicate_by, d.raw_shared), (Some(3), Some("normalized_hash"), false));
    assert_eq!(d.expired, vec![2]);
    let d = dedupe_decision(Some(gone), Some(DupCandidate { id: 4, present: false }));
    assert_eq!(d.duplicate_of, None);
    assert_eq!(d.expired, vec![2, 4]);
    let d = dedupe_decision(None, None);
    assert_eq!(d.duplicate_of, None);
    assert!(d.expired.is_empty());
}

fn membership(in_server: bool, in_participants: bool, in_dm_pair: bool, voice: Option<i64>) -> ChatMembership {
    ChatMembership { in_server, in_participants, in_dm_pair, voice_channel: voice }
}

fn chat(server_id: Option<i64>, is_private: bool, kind: Option<&str>) -> Option<ChatInfo> {
    Some(ChatInfo { server_id, is_private, kind: kind.map(|k| k.to_string()) })
}

#[test]
fn chat_access_for_files() {
    assert!(can_access_chat(chat(Some(2), false, Some("text")), 9, membership(true, false, false, None)));
    assert!(!can_access_chat(chat(Some(2), false, Some("text")), 9, membership(false, true, true, None)));
    assert!(can_access_chat(chat(None, true, None), 9, membership(false, false, true, None)));
    assert!(!can_access_chat(chat(None, true, None), 9, membership(true, false, false, None)));
    assert!(can_access_chat(chat(Some(0), false, None), 9, membership(false, true, false, None)));
    assert!(can_access_chat(chat(Some(2), false, Some("voice")), 9, membership(true, false, false, Some(9))));
    assert!(!can_access_chat(chat(Some(2), false, Some("voice")), 9, membership(true, false, false, Some(8))));
    assert!(!can_access_chat(chat(Some(2), false, Some("voice")), 9, membership(true, false, false, None)));
    assert!(!can_access_chat(None, 9, membership(true, true, true, Some(9))));
}

#[test]
fn file_users_from_tokens() {
    let claims = DownloadClaims { uid: 5, file_id: 11, token_version: 1 };
    let user = TokenUser { token_version: 1, is_banned: false };
    assert_eq!(resolve_file_user(Some(3), false, None, 11, None), Ok(3));
    assert_eq!(resolve_file_user(None, false, Some(claims), 11, Some(user)), Err(FileAuthError::Unauthorized));
    assert_eq!(resolve_file_user(None, true, None, 11, Some(user)), Err(FileAuthError::Unauthorized));
    assert_eq!(resolve_file_user(None, true, Some(claims), 12, Some(user)), Err(FileAuthError::Forbidden));
    assert_eq!(resolve_file_user(None, true, Some(claims), 11, None), Err(FileAuthError::Unauthorized));
    let banned = TokenUser { token_version: 1, is_banned: true };
    assert_eq!(resolve_file_user(None, true, Some(claims), 11, Some(banned)), Err(FileAuthError::Forbidden));
    let rotated = TokenUser { token_version: 2, is_banned: false };
    assert_eq!(resolve_file_user(None, true, Some(claims), 11, Some(rotated)), Err(FileAuthError::Unauthorized));
    assert_eq!(resolve_file_user(None, true, Some(claims), 11, Some(user)), Ok(5));
}

#[test]
fn links_with_a_token() {
    let l = file_links(7, "a b+c", true);
    assert_eq!(l.download_url.as_deref(), Some("/api/files/7?dl=a%20b%2Bc"));
    assert_eq!(l.raw_url.as_deref(), Some("/api/files/7/raw?dl=a%20b%2Bc"));
    assert_eq!(l.preview_url, "/api/files/7/preview?dl=a%20b%2Bc");
    let l = file_links(7, "t", false);
    assert!(l.download_url.is_none() && l.raw_url.is_none());
    assert_eq!(l.preview_url, "/api/files/7/preview?dl=t");
}

#[test]
fn byte_ranges() {
    assert_eq!(plan_byte_range(None, 100), RangePlan::Full);
    assert_eq!(plan_byte_range(Some("bytes=0-9"), 100), RangePlan::Partial { start: 0, end: 9 });
    assert_eq!(plan_byte_range(Some("bytes=90-"), 100), RangePlan::Partial { start: 90, end: 99 });
    assert_eq!(plan_byte_range(Some("bytes=-10"), 100), RangePlan::Partial { start: 90, end: 99 });
    assert_eq!(plan_byte_range(Some("bytes=-1000"), 100), RangePlan::Partial { start: 0, end: 99 });
    assert_eq!(plan_byte_range(Some("bytes=50-1000"), 100), RangePlan::Partial { start: 50, end: 99 });
    assert_eq!(plan_byte_range(Some("bytes=100-"), 100), RangePlan::Unsatisfiable);
    assert_eq!(plan_byte_range(Some("bytes=9-3"), 100), RangePlan::Full);
    assert_eq!(plan_byte_range(Some("bytes=-0"), 100), RangePlan::Full);
    assert_eq!(plan_byte_range(Some("bytes=x-5"), 100), RangePlan::Partial { start: 0, end: 5 });
    assert_eq!(plan_byte_range(Some("items=0-5"), 100), RangePlan::Full);
    assert_eq!(plan_byte_range(Some("bytes=5"), 100), RangePlan::Full);
}

#[test]
fn range_lengths_and_headers() {
    let p = RangePlan::Partial { start: 10, end: 19 };
    assert_eq!(plan_length(p, 100), 10);
    assert_eq!(plan_length(RangePlan::Full, 100), 100);
    assert_eq!(plan_length(RangePlan::Unsatisfiable, 100), 0);
    assert_eq!(content_range(p, 100).as_deref(), Some("bytes 10-19/100"));
    assert_eq!(content_range(RangePlan::Unsatisfiable, 100).as_deref(), Some("bytes */100"));
    assert_eq!(content_range(RangePlan::Full, 100), None);
}

#[test]
fn dispositions() {
    assert_eq!(
        content_disposition("photo 1.png", "image/png", true),
        "inline; filename=\"photo_1.png\"; filename*=UTF-8''photo_1.png"
    );
    assert_eq!(
        content_disposition("page.html", "text/html", true),
        "attachment; filename=\"page.html\"; filename*=UTF-8''page.html"
    );
    assert_eq!(
        content_disposition("a.png", "image/png", false),
        "attachment; filename=\"a.png\"; filename*=UTF-8''a.png"
    );
}

#[test]
fn archives() {
    assert!(is_zip_listing("Application/ZIP", "x"));
    assert!(is_zip_listing("application/octet-stream", "Backup.ZIP"));
    assert!(!is_zip_listing("application/vnd.rar", "x.rar"));
    assert!(matches!(archive_entry("", '/', false, 5), Ok(None)));
    let e = archive_entry("dir\\file.txt", '\\', false, 42).ok().flatten().unwrap();
    assert_eq!((e.path.as_str(), e.size, e.is_dir), ("dir/file.txt", 42, false));
    let e = archive_entry("dir/", '/', false, 42).ok().flatten().unwrap();
    assert_eq!((e.path.as_str(), e.size, e.is_dir), ("dir/", 0, true));
    let e = archive_entry("sub", '/', true, 42).ok().flatten().unwrap();
    assert!(e.is_dir && e.size == 0);
    let long = "a".repeat(600);
    let e = archive_entry(&long, '/', false, 1).ok().flatten().unwrap();
    assert_eq!(e.path.len(), 512);
    let cut = format!("{}é", "a".repeat(511));
    assert!(archive_entry(&cut, '/', false, 1).is_err());
}

#[test]
fn image_limits_and_pixel_hash() {
    assert!(image_size_ok(12000, 6666));
    assert!(!image_size_ok(12000, 6667));
    assert!(!image_size_ok(12001, 1));
    assert!(!image_size_ok(1, 12001));
    assert!(image_size_ok(0, 0));
    assert!(normalized_hash_wanted("IMAGE/PNG", 10, 10));
    assert!(!normalized_hash_wanted("image/gif", 10, 10));
    assert!(!normalized_hash_wanted("image/png", 20000, 10));
    assert_eq!(
        normalized_image_hash(1, 1, &[255, 0, 0, 255]),
        "ac7b6715fa6b479f5a4d4c243268658b71acf2d0b441c10d638c1ebc03c7f03d"
    );
    assert_eq!(
        normalized_image_hash(256, 2, &[]),
        "fd529f2115b8dc57b9bc27e855ab5951f30cc3b31e12b90ad9057831e4ae6571"
    );
}
