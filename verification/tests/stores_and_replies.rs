use laberry_core::admin_content::{find_file_markers, marker_from_groups, split_file_markers};
use laberry_core::embeds::collapse_whitespace_exec;
use laberry_core::admin::{render_homie_center_panel, AdminSession};
use laberry_core::auth::{
    login_refusal, refresh_check, refresh_refusal, register_refusal, two_factor_refusal, LoginStep,
    RefreshError, RefreshUser, RegisterError, TwoFactorOutcome,
};
use laberry_core::dm::{
    chars_le_exec, dm_open_reply, group_member_check, group_member_names, group_member_reply,
    GroupMemberRefusal, group_participants, group_size_reply,
    plan_group, send_refusal_reply, sort_group_members, DmIndex, DmOpenError, GroupMember,
    GroupSizeError, MessageError, SendRefusal,
};
use laberry_core::downloads::{build_file_name, BuildRow, BuildTable};
use laberry_core::files::{
    serve_reply,
    resolve_file_user, DownloadClaims, FileAuthError, TokenUser, UploadAction, UploadEvent,
    UploadForm, MAX_UPLOAD_BYTES,
};
use laberry_core::filetype::{known_type_from_ext, known_type_from_mime, sniff_magic_type};
use laberry_core::homie::{
    homie_chat_request, homie_http_error_reply, homie_reply_from_value, homie_reset_reply,
    homie_reset_request, homie_unparsable_reply, homie_unreachable_reply, JsonValue,
};
use laberry_core::html::escape_html;
use laberry_core::sessions::{next_token_version, SessionRow, SessionTable};

fn unescape(s: &str) -> String {
    s.replace("&lt;", "<")
        .replace("&gt;", ">")
        .replace("&quot;", "\"")
        .replace("&#39;", "'")
        .replace("&amp;", "&")
}

#[test]
fn escaped_text_reads_back() {
    let raw = "<a href=\"x\">'&'</a>";
    let e = escape_html(raw);
    assert_eq!(e, "&lt;a href=&quot;x&quot;&gt;&#39;&amp;&#39;&lt;/a&gt;");
    assert_eq!(unescape(&e), raw);
    for t in ["&lt;", "&amp;lt;", "a&&b", "", "plain", "\"'<>&"] {
        assert_eq!(unescape(&escape_html(t)), t);
    }
}

#[test]
fn homie_panel_names_its_csrf_field_once() {
    let marker = "id='homie-center-csrf' value='";
    let a = render_homie_center_panel(&AdminSession { expires_at: 1, csrf: "t'k<".to_string() });
    assert_eq!(a.matches(marker).count(), 1);
    let at = a.find(marker).unwrap() + marker.len();
    assert!(a[at..].starts_with("t&#39;k&lt;'"));
    let b = render_homie_center_panel(&AdminSession { expires_at: 99, csrf: "t'k<".to_string() });
    assert_eq!(a, b);
    let c = render_homie_center_panel(&AdminSession {
        expires_at: 1,
        csrf: "id='homie-center-csrf' value='".to_string(),
    });
    assert_eq!(c.matches(marker).count(), 1);
}

#[test]
fn extension_and_mime_tables_agree() {
    for ext in ["docx", "jpg", "jpeg", "png", "pdf", "mp4", "zip", "txt", "htm", "svg", "apk"] {
        if let Some(t) = known_type_from_ext(ext) {
            assert_eq!(known_type_from_mime(t.mime).map(|u| u.mime), Some(t.mime));
            let u = known_type_from_mime(t.mime).unwrap();
            assert_eq!(known_type_from_ext(u.ext).map(|v| v.mime), Some(u.mime));
        }
    }
    let png = [0x89u8, b'P', b'N', b'G', 0x0D, 0x0A, 0x1A, 0x0A, 0, 0];
    let t = sniff_magic_type(&png, None).unwrap();
    assert_eq!(known_type_from_mime(t.mime).map(|u| u.mime), Some(t.mime));
    let pdf = b"%PDF-1.7\n";
    let t = sniff_magic_type(pdf, Some("pdf")).unwrap();
    assert_eq!(known_type_from_mime(t.mime).map(|u| u.mime), Some(t.mime));
}

#[test]
fn refusals_carry_status_and_text() {
    assert_eq!(register_refusal(RegisterError::InvalidUsername), (400, "Invalid username"));
    assert_eq!(register_refusal(RegisterError::TermsRequired), (400, "Terms agreement required"));
    assert_eq!(register_refusal(RegisterError::UsernameTaken), (400, "Username already used"));
    assert_eq!(register_refusal(RegisterError::EmailTaken), (400, "Email already used"));
    assert_eq!(login_refusal(LoginStep::InvalidCredentials), Some((401, "Invalid credentials")));
    assert_eq!(login_refusal(LoginStep::Banned), Some((403, "User banned")));
    assert_eq!(login_refusal(LoginStep::Tokens { user_id: 1 }), None);
    assert_eq!(two_factor_refusal(TwoFactorOutcome::NotActive), Some((404, "2FA not active")));
    assert_eq!(
        two_factor_refusal(TwoFactorOutcome::Locked),
        Some((403, "Account locked. Try again in 15 minutes"))
    );
    assert_eq!(
        two_factor_refusal(TwoFactorOutcome::Expired),
        Some((401, "2FA code expired. Please request a new one"))
    );
    assert_eq!(
        two_factor_refusal(TwoFactorOutcome::WrongCode { attempts: 1 }),
        Some((401, "Invalid 2FA code"))
    );
    assert_eq!(
        two_factor_refusal(TwoFactorOutcome::LockedNow { until: 5 }),
        Some((403, "Too many failed attempts. Account locked for 15 minutes"))
    );
    assert_eq!(two_factor_refusal(TwoFactorOutcome::Verified), None);
    assert_eq!(refresh_refusal(RefreshError::InvalidToken), (401, "Invalid token"));
    assert_eq!(refresh_refusal(RefreshError::Expired), (401, "Invalid token"));
    assert_eq!(refresh_refusal(RefreshError::Banned), (403, "User banned"));
    assert_eq!(refresh_refusal(RefreshError::Revoked), (401, "Token revoked"));
    assert_eq!(send_refusal_reply(&SendRefusal::NoRecipients), (400, None, None));
    assert_eq!(send_refusal_reply(&SendRefusal::Blocked), (403, Some("Blocked"), None));
    assert_eq!(send_refusal_reply(&SendRefusal::Content(MessageError::Empty)), (400, None, None));
    assert_eq!(
        send_refusal_reply(&SendRefusal::Content(MessageError::TooLong)),
        (413, Some("message_too_long"), Some(("max_chars", 65535)))
    );
    assert_eq!(
        send_refusal_reply(&SendRefusal::Content(MessageError::EncryptionRequired)),
        (400, Some("encrypted_message_required"), None)
    );
    assert_eq!(
        send_refusal_reply(&SendRefusal::ReplyNotInChat),
        (400, Some("reply_to_message_not_in_chat"), None)
    );
    assert_eq!(
        group_size_reply(GroupSizeError::TooFew),
        (400, "group_requires_at_least_two_other_users", None)
    );
    assert_eq!(
        group_size_reply(GroupSizeError::TooMany),
        (413, "too_many_group_members", Some(("max_other_users", 24)))
    );
    assert_eq!(group_member_check(false, true, true, false), Err(GroupMemberRefusal::Unknown));
    assert_eq!(group_member_check(true, true, true, false), Err(GroupMemberRefusal::Banned));
    assert_eq!(group_member_check(true, false, true, false), Err(GroupMemberRefusal::Blocked));
    assert_eq!(group_member_check(true, false, false, false), Err(GroupMemberRefusal::Restricted));
    assert_eq!(group_member_check(true, false, false, true), Ok(()));
    assert_eq!(group_member_reply(GroupMemberRefusal::Unknown), (400, "unknown_group_member"));
    assert_eq!(group_member_reply(GroupMemberRefusal::Banned), (403, "banned_group_member"));
    assert_eq!(group_member_reply(GroupMemberRefusal::Blocked), (403, "blocked_group_member"));
    assert_eq!(group_member_reply(GroupMemberRefusal::Restricted), (403, "dm_restricted_group_member"));
    assert_eq!(dm_open_reply(DmOpenError::SelfConversation), (400, Some("Cannot DM yourself")));
    assert_eq!(dm_open_reply(DmOpenError::UnknownUser), (404, None));
    assert_eq!(dm_open_reply(DmOpenError::Banned), (403, None));
    assert_eq!(dm_open_reply(DmOpenError::Blocked), (403, Some("Blocked")));
    assert_eq!(dm_open_reply(DmOpenError::Restricted), (403, Some("DMs are restricted by user settings")));
}

fn row(user_id: i64, hash: &str, expires_at: i64) -> SessionRow {
    SessionRow { user_id, token_hash: hash.to_string(), revoked: false, expires_at }
}

#[test]
fn refresh_token_works_once() {
    let user = RefreshUser { id: 7, is_banned: false, token_version: 2 };
    let mut table = SessionTable { rows: vec![row(7, "aa", 100), row(8, "bb", 100)] };
    let s = table.find_session("aa", 7);
    assert_eq!(refresh_check(Some(2), Some(user), s, 50), Ok(7));
    table.rotate("aa", row(7, "cc", 200));
    let s = table.find_session("aa", 7);
    assert_eq!(refresh_check(Some(2), Some(user), s, 60), Err(RefreshError::InvalidToken));
    let s = table.find_session("cc", 7);
    assert_eq!(refresh_check(Some(2), Some(user), s, 60), Ok(7));
    assert!(!table.rows[1].revoked);
    assert_eq!(table.rows.len(), 3);
}

#[test]
fn signing_out_everywhere_stales_tokens() {
    let mut table = SessionTable { rows: vec![row(7, "aa", 100), row(8, "bb", 100), row(7, "cc", 100)] };
    table.revoke_user(7);
    assert!(table.rows[0].revoked && table.rows[2].revoked && !table.rows[1].revoked);
    let v = next_token_version(2).unwrap();
    assert_eq!(v, 3);
    assert_eq!(next_token_version(i64::MAX), None);
    let user = RefreshUser { id: 7, is_banned: false, token_version: v };
    let s = table.find_session("aa", 7);
    assert_eq!(refresh_check(Some(2), Some(user), s, 50), Err(RefreshError::Revoked));
    let claims = DownloadClaims { uid: 7, file_id: 4, token_version: 2 };
    let r = resolve_file_user(None, true, Some(claims), 4, Some(TokenUser { token_version: v, is_banned: false }));
    assert_eq!(r, Err(FileAuthError::Unauthorized));
}

#[test]
fn opening_a_conversation_twice_gives_the_same_chat() {
    let mut idx = DmIndex { rows: Vec::new() };
    let c1 = idx.open_dm(5, 3, 100);
    assert_eq!(c1, 100);
    assert_eq!(idx.rows.len(), 1);
    assert_eq!((idx.rows[0].user_a, idx.rows[0].user_b), (3, 5));
    assert_eq!(idx.open_dm(5, 3, 200), 100);
    assert_eq!(idx.open_dm(3, 5, 300), 100);
    assert_eq!(idx.rows.len(), 1);
    assert_eq!(idx.open_dm(3, 9, 400), 400);
    assert_eq!(idx.find_dm(3, 9), Some(400));
    assert_eq!(idx.find_dm(9, 3), None);
}

fn run(events: Vec<UploadEvent>) -> Vec<UploadAction> {
    let mut form = UploadForm::new();
    events.into_iter().map(|e| form.step(e)).collect()
}

#[test]
fn upload_refusals_come_in_order() {
    let a = run(vec![UploadEvent::ChatIdField(Some("12".to_string())), UploadEvent::FileField, UploadEvent::Chunk(vec![1, 2, 3]), UploadEvent::End, UploadEvent::Access(true)]);
    assert_eq!(a, vec![UploadAction::Continue, UploadAction::Continue, UploadAction::Continue, UploadAction::CheckAccess(12), UploadAction::Store(12)]);
    let a = run(vec![UploadEvent::FileField, UploadEvent::Chunk(vec![1]), UploadEvent::End]);
    assert_eq!(a.last(), Some(&UploadAction::Refuse(400)));
    let a = run(vec![UploadEvent::ChatIdField(Some("12".to_string())), UploadEvent::FileField, UploadEvent::FileField]);
    assert_eq!(a.last(), Some(&UploadAction::Refuse(400)));
    let a = run(vec![UploadEvent::ChatIdField(Some("12".to_string())), UploadEvent::FileField, UploadEvent::End]);
    assert_eq!(a.last(), Some(&UploadAction::Refuse(400)));
    let a = run(vec![UploadEvent::ChatIdField(Some("x".to_string())), UploadEvent::FileField, UploadEvent::Chunk(vec![1]), UploadEvent::End]);
    assert_eq!(a.last(), Some(&UploadAction::Refuse(400)));
    let a = run(vec![UploadEvent::ChatIdField(Some("12".to_string())), UploadEvent::FileField, UploadEvent::Chunk(vec![1]), UploadEvent::End, UploadEvent::Access(false)]);
    assert_eq!(a.last(), Some(&UploadAction::Refuse(403)));
    let big = vec![0u8; MAX_UPLOAD_BYTES as usize + 1];
    let a = run(vec![UploadEvent::FileField, UploadEvent::Chunk(big)]);
    assert_eq!(a.last(), Some(&UploadAction::Refuse(413)));
    let mut form = UploadForm::new();
    form.step(UploadEvent::ChatIdField(Some("3".to_string())));
    form.step(UploadEvent::FileField);
    form.step(UploadEvent::Chunk(b"abc".to_vec()));
    assert_eq!(form.progress().size(), 3);
    assert_eq!(form.step(UploadEvent::End), UploadAction::CheckAccess(3));
    let p = form.into_progress();
    assert_eq!(p.head(), b"abc");
    assert_eq!(
        p.content_hash(),
        "ba7816bf8f01cfea414140de5dae2223b00361a396177a9cb410ff61f20015ad"
    );
    let a = run(vec![UploadEvent::FileField, UploadEvent::StreamError]);
    assert_eq!(a.last(), Some(&UploadAction::Refuse(400)));
    let a = run(vec![UploadEvent::ChatIdField(Some("12".to_string())), UploadEvent::FileField, UploadEvent::Chunk(vec![1]), UploadEvent::End, UploadEvent::Chunk(vec![2])]);
    assert_eq!(a.last(), Some(&UploadAction::Continue));
}

fn member(id: i64, name: &str) -> GroupMember {
    GroupMember { id, username: name.to_string() }
}

#[test]
fn group_members_are_ordered_by_lower_case_name() {
    assert!(chars_le_exec(&['a', 'b'], &['a', 'c']));
    assert!(chars_le_exec(&['a'], &['a', 'c']));
    assert!(!chars_le_exec(&['b'], &['a', 'c']));
    let sorted = sort_group_members(vec![member(1, "zed"), member(2, "Bob"), member(3, "alice"), member(4, "bob")]);
    let ids: Vec<i64> = sorted.iter().map(|m| m.id).collect();
    assert_eq!(ids, vec![3, 2, 4, 1]);
    let plan = plan_group(9, "me", None, vec![member(1, "zed"), member(2, "Bob"), member(3, "alice")]);
    assert_eq!(plan.title, "alice, Bob, zed");
    assert_eq!(plan.member_names, vec!["me", "alice", "Bob", "zed"]);
    assert_eq!(plan.participants, vec![9, 3, 2, 1]);
    let plan = plan_group(9, "me", Some("  Team  ".to_string()), vec![member(1, "b"), member(2, "a")]);
    assert_eq!(plan.title, "Team");
    assert_eq!(group_member_names("me", &[member(1, "x")]), vec!["me", "x"]);
    assert_eq!(group_participants(9, &[member(1, "x"), member(2, "y")]), vec![9, 1, 2]);
}

#[test]
fn single_active_build_per_platform() {
    let b = |id: i64, p: &str, active: bool| BuildRow {
        id,
        platform: p.to_string(),
        version: "1".to_string(),
        original_name: "app.bin".to_string(),
        mime_type: "application/octet-stream".to_string(),
        file_size: 10,
        storage_path: "storage/app_downloads/x.bin".to_string(),
        uploaded_at: "2024-01-01T00:00:00Z".to_string(),
        is_active: active,
    };
    let mut t = BuildTable { rows: vec![b(1, "android", true), b(2, "pc", true)] };
    t.publish(b(3, "android", false));
    assert!(!t.rows[0].is_active);
    assert!(t.rows[1].is_active);
    assert!(t.rows[2].is_active && t.rows[2].id == 3);
    assert_eq!(t.rows.iter().filter(|r| r.platform == "android" && r.is_active).count(), 1);
    let notice = t.publish_upload(
        4,
        "pc",
        "2.0".to_string(),
        "LaBerry Setup.exe".to_string(),
        "exe",
        12345,
        "storage/app_downloads/tok.exe".to_string(),
        "2024-02-02T00:00:00Z".to_string(),
    );
    assert_eq!(notice, "Файл приложения загружен");
    let last = t.rows.last().unwrap();
    assert_eq!(last.mime_type, "application/vnd.microsoft.portable-executable");
    assert_eq!(last.file_size, 12345);
    assert!(last.is_active && last.platform == "pc");
    assert!(!t.rows[1].is_active);
    assert!(t.rows[2].is_active);
    assert_eq!(build_file_name("tok", "exe"), "tok.exe");
}

#[test]
fn assistant_requests_and_replies() {
    let e = homie_chat_request("a", "b", "s", "hi").unwrap_err();
    assert!(!e.ok && e.answer.is_empty());
    assert_eq!(e.error, "CSRF-токен не совпадает");
    let e = homie_chat_request("a", "a", "s", "   ").unwrap_err();
    assert_eq!(e.error, "Пустое сообщение");
    let e = homie_chat_request("a", "b", "s", "   ").unwrap_err();
    assert_eq!(e.error, "CSRF-токен не совпадает");
    let q = homie_chat_request("a", "a", "  ", "  hi ").unwrap();
    assert_eq!(q.message, "hi");
    assert_eq!(q.session_id, "admin-center");
    let q = homie_reset_request("a", "a", "room").unwrap();
    assert_eq!(q.session_id, "room");
    assert_eq!(q.message, "");
    assert_eq!(homie_reset_request("a", "b", "room").unwrap_err().error, "CSRF-токен не совпадает");
    let v = JsonValue::Object(vec![("answer".to_string(), JsonValue::Str("Hello".to_string(), None))]);
    let r = homie_reply_from_value(&v);
    assert!(r.ok);
    assert_eq!(r.answer, "Hello");
    assert_eq!(r.error, "");
    let r = homie_http_error_reply("502 Bad Gateway", "  ");
    assert_eq!(r.error, "Homie API вернул HTTP 502 Bad Gateway");
    let long = "x".repeat(600);
    let r = homie_http_error_reply("500 Internal Server Error", &long);
    assert_eq!(r.error, format!("Homie API вернул HTTP 500 Internal Server Error: {}", "x".repeat(500)));
    assert_eq!(homie_unreachable_reply("refused").error, "Homie API недоступен: refused");
    assert_eq!(homie_unparsable_reply("eof").error, "Не удалось разобрать ответ Homie API: eof");
    let r = homie_reset_reply(true, "200 OK");
    assert!(r.ok);
    assert_eq!(r.answer, "Контекст Homie сброшен");
    let r = homie_reset_reply(false, "404 Not Found");
    assert!(!r.ok);
    assert_eq!(r.error, "Homie API вернул HTTP 404 Not Found");
}

fn header_of<'a>(h: &'a [(String, String)], name: &str) -> Option<&'a str> {
    h.iter().find(|(n, _)| n == name).map(|(_, v)| v.as_str())
}

#[test]
fn serving_plans_status_headers_and_bytes() {
    let r = serve_reply(None, None, "a.txt", "text/plain", true);
    assert_eq!((r.status, r.headers.len(), r.body), (404, 0, None));
    let r = serve_reply(Some(0), Some("bytes=0-1"), "a.txt", "text/plain", true);
    assert_eq!((r.status, r.headers.len(), r.body), (404, 0, None));
    let r = serve_reply(Some(10), None, "a.png", "image/png", true);
    assert_eq!(r.status, 200);
    assert_eq!(r.body, Some((0, 10)));
    assert_eq!(header_of(&r.headers, "content-length"), Some("10"));
    assert_eq!(header_of(&r.headers, "x-content-type-options"), Some("nosniff"));
    assert_eq!(header_of(&r.headers, "accept-ranges"), Some("bytes"));
    assert!(header_of(&r.headers, "content-disposition").unwrap().starts_with("inline; filename=\"a.png\""));
    let r = serve_reply(Some(10), Some("bytes=2-5"), "a.html", "text/html", true);
    assert_eq!(r.status, 206);
    assert_eq!(r.body, Some((2, 4)));
    assert_eq!(header_of(&r.headers, "content-range"), Some("bytes 2-5/10"));
    assert_eq!(header_of(&r.headers, "content-length"), Some("4"));
    assert!(header_of(&r.headers, "content-disposition").unwrap().starts_with("attachment"));
    let r = serve_reply(Some(10), Some("bytes=20-"), "a.bin", "application/octet-stream", false);
    assert_eq!(r.status, 416);
    assert_eq!(r.body, None);
    assert_eq!(header_of(&r.headers, "content-range"), Some("bytes */10"));
    assert_eq!(header_of(&r.headers, "accept-ranges"), Some("bytes"));
}

#[test]
fn whitespace_runs_collapse_to_one_space() {
    assert_eq!(collapse_whitespace_exec("  a \t\n b\u{3000}c  "), " a b c ");
    assert_eq!(collapse_whitespace_exec("abc"), "abc");
    assert_eq!(collapse_whitespace_exec(""), "");
}

#[test]
fn file_markers_follow_their_grammar() {
    let m = find_file_markers("hi [[file:12|a.png|image/png|300]] and [[file:3|b]] [[file:x|c]]");
    assert_eq!(m.len(), 2);
    assert_eq!(m[0].whole, "[[file:12|a.png|image/png|300]]");
    assert_eq!(m[0].id, "12");
    assert_eq!(m[0].name, "a.png");
    assert_eq!(m[0].mime.as_deref(), Some("image/png"));
    assert_eq!(m[0].size.as_deref(), Some("300"));
    assert_eq!(m[1].name, "b");
    assert_eq!(m[1].mime, None);
    assert_eq!(m[1].size, None);
    assert_eq!(
        split_file_markers("hi [[file:12|a.png]] and"),
        vec!["hi ".to_string(), " and".to_string()]
    );
    let c = marker_from_groups(&vec![Some("w".to_string()), Some("1".to_string()), None]);
    assert_eq!((c.whole.as_str(), c.id.as_str(), c.name.as_str()), ("w", "1", "file"));
    assert_eq!((c.mime, c.size), (None, None));
}
