use argon2::password_hash::{PasswordHasher, SaltString};
use laberry_core::admin::{
    admin_cookie_secure, admin_download_ext, admin_download_mime, admin_download_platform,
    admin_download_platform_label, admin_enabled, admin_env_trim, admin_format_bytes,
    admin_ip_check, admin_password_configured, admin_password_is_configured, admin_redirect_target, admin_sanitize_filename,
    admin_session_from, admin_thumb_path_for, allow_list_entries, clean_admin_reason,
    constant_time_eq, cookie_clear, cookie_consent_label, cookie_for_session, cookie_value,
    env_flag, fmt_admin_dt, homie_looks_like_json_text, homie_normalize_plain_text,
    homie_session_id, new_admin_session, normalized_suggestion_status, normalized_user_mode,
    reason_label, report_status_label, safe_admin_return_to, session_alive,
    suggestion_status_class, suggestion_status_label, suggestions_page_url, trust_review_label,
    user_card_url, user_initial, user_mode_matches, user_page_url, verify_admin_password,
    AdminIpError, AdminPasswordError, UserRow, ADMIN_SESSION_SECS, clean_download_version,
    download_upload_check, download_upload_message, DownloadUploadError, MAX_DOWNLOAD_BYTES,
    moderation_status, clean_admin_note,
};

fn user(is_banned: bool, review: &str, trust: i64) -> UserRow {
    UserRow {
        id: 7,
        username: "alice".to_string(),
        email: String::new(),
        is_banned,
        created_at: String::new(),
        is_online: false,
        presence_status: String::new(),
        presence_updated_at: String::new(),
        avatar_file_id: None,
        ban_reason: String::new(),
        ban_at: String::new(),
        cookie_consent_status: String::new(),
        cookie_consent_at: String::new(),
        trust_factor: trust,
        trust_review_status: review.to_string(),
        trust_review_reason: String::new(),
        trust_review_at: String::new(),
    }
}

#[test]
fn env_flags() {
    assert!(env_flag(Some(" YES "), false));
    assert!(env_flag(Some("1"), false));
    assert!(env_flag(Some("On"), false));
    assert!(!env_flag(Some("0"), true));
    assert!(!env_flag(Some("enabled"), true));
    assert!(env_flag(None, true));
    assert!(!env_flag(None, false));
}

#[test]
fn secrets_are_trimmed_and_unquoted() {
    assert_eq!(admin_env_trim(Some("  \"s3cret\"  ")).as_deref(), Some("s3cret"));
    assert_eq!(admin_env_trim(Some("'x'")).as_deref(), Some("x"));
    assert_eq!(admin_env_trim(Some(" \"\" ")), None);
    assert_eq!(admin_env_trim(None), None);
    assert!(admin_password_configured(None, Some("pw")));
    assert!(!admin_password_configured(Some("  "), None));
    assert!(admin_password_is_configured(Some(" h "), None));
    assert!(!admin_password_is_configured(Some("\"\""), Some("")));
    assert!(admin_enabled(Some("true"), None, None));
    assert!(admin_enabled(None, Some("$argon2id$x"), None));
    assert!(!admin_enabled(Some("no"), None, Some("''")));
}

#[test]
fn constant_time_comparison() {
    assert!(constant_time_eq("abc", "abc"));
    assert!(!constant_time_eq("abc", "abd"));
    assert!(!constant_time_eq("abc", "abcd"));
    assert!(constant_time_eq("", ""));
}

#[test]
fn session_cookies() {
    assert_eq!(
        cookie_for_session("SID", false),
        "lb_admin_sid=SID; Path=/; Max-Age=28800; HttpOnly; SameSite=Lax"
    );
    assert_eq!(
        cookie_for_session("SID", true),
        "lb_admin_sid=SID; Path=/; Max-Age=28800; HttpOnly; SameSite=None; Secure"
    );
    assert_eq!(
        cookie_clear(false),
        "lb_admin_sid=deleted; Path=/; Max-Age=0; HttpOnly; SameSite=Lax"
    );
    assert_eq!(
        cookie_clear(true),
        "lb_admin_sid=deleted; Path=/; Max-Age=0; HttpOnly; SameSite=None; Secure"
    );
}

#[test]
fn session_expiry() {
    assert!(session_alive(100, 100));
    assert!(session_alive(101, 100));
    assert!(!session_alive(99, 100));
}

#[test]
fn return_paths_stay_in_the_panel() {
    assert_eq!(safe_admin_return_to("  /admin/users?q=a ", "/admin/"), "/admin/users?q=a");
    assert_eq!(safe_admin_return_to("https://evil.example/", "/admin/"), "/admin/");
    assert_eq!(safe_admin_return_to("/admin/x\r\nSet-Cookie: a=b", "/admin/"), "/admin/");
    assert_eq!(safe_admin_return_to("/administrator", "/admin/center"), "/admin/center");
    for input in ["", "/admin/", "//admin/", "/admin/\n", "javascript:x"] {
        let out = safe_admin_return_to(input, "/admin/");
        assert!(out.starts_with("/admin/"));
        assert!(!out.contains('\n') && !out.contains('\r'));
    }
}

#[test]
fn admin_password_errors() {
    assert_eq!(verify_admin_password("pw", Some(" pw "), None), Ok(()));
    assert_eq!(verify_admin_password("px", Some("pw"), Some("ignored")), Err(AdminPasswordError::Wrong));
    assert_eq!(verify_admin_password("pw", None, Some("not-a-hash")), Err(AdminPasswordError::InvalidHash));
    assert_eq!(verify_admin_password("pw", None, None), Err(AdminPasswordError::NotConfigured));
    assert_eq!(verify_admin_password("pw", Some("  "), Some("")), Err(AdminPasswordError::NotConfigured));
}

#[test]
fn admin_password_against_argon2_hash() {
    let salt = SaltString::from_b64("c29tZXNhbHQxMjM0NTY").unwrap();
    let hash = argon2::Argon2::default().hash_password(b"secret", &salt).unwrap().to_string();
    assert_eq!(verify_admin_password("secret", None, Some(&hash)), Ok(()));
    assert_eq!(verify_admin_password("Secret", None, Some(&hash)), Err(AdminPasswordError::Wrong));
}

#[test]
fn sessions_from_random_bytes() {
    let (sid, sess) = admin_session_from(&[0u8; 32], &[0xffu8; 16], 1000);
    assert_eq!(sid, "A".repeat(43));
    assert_eq!(sess.csrf, "_____________________w");
    assert_eq!(sess.expires_at, 1000 + ADMIN_SESSION_SECS);
    let (sid, sess) = admin_session_from(b"hello world, this is thirty-two!", b"0123456789abcdef", 0);
    assert_eq!(sid, "aGVsbG8gd29ybGQsIHRoaXMgaXMgdGhpcnR5LXR3byE");
    assert_eq!(sess.csrf, "MDEyMzQ1Njc4OWFiY2RlZg");
}

#[test]
fn fresh_sessions_differ() {
    let (a, sa) = new_admin_session(5);
    let (b, _) = new_admin_session(5);
    assert_eq!(a.len(), 43);
    assert_eq!(sa.csrf.len(), 22);
    assert_eq!(sa.expires_at, 5 + 28800);
    assert_ne!(a, b);
    assert!(a.chars().all(|c| c.is_ascii_alphanumeric() || c == '-' || c == '_'));
}

#[test]
fn cookies_from_header() {
    let h = "theme=dark; lb_admin_sid = abc=def ; other=1";
    assert_eq!(cookie_value(h, "lb_admin_sid").as_deref(), Some("abc=def"));
    assert_eq!(cookie_value(h, "other").as_deref(), Some("1"));
    assert_eq!(cookie_value(h, "missing"), None);
    assert_eq!(cookie_value("novalue; x=2", "novalue"), None);
    assert_eq!(cookie_value("a=1; a=2", "a").as_deref(), Some("1"));
}

#[test]
fn secure_cookie_decision() {
    assert!(!admin_cookie_secure(true, true, None, Some("https")));
    assert!(admin_cookie_secure(false, true, Some("localhost"), None));
    assert!(!admin_cookie_secure(false, false, Some("LOCALHOST:8080"), Some("https")));
    assert!(!admin_cookie_secure(false, false, Some("127.0.0.1:3000"), Some("https")));
    assert!(admin_cookie_secure(false, false, Some("chat.example"), Some("HTTPS")));
    assert!(!admin_cookie_secure(false, false, Some("chat.example"), Some("http")));
    assert!(!admin_cookie_secure(false, false, None, None));
}

#[test]
fn user_modes() {
    assert_eq!(normalized_user_mode(Some(" Banned ")), "banned");
    assert_eq!(normalized_user_mode(Some("REVIEW")), "review");
    assert_eq!(normalized_user_mode(Some("x")), "all");
    assert_eq!(normalized_user_mode(None), "all");
    assert!(user_mode_matches(&user(false, "", 100), "active"));
    assert!(!user_mode_matches(&user(true, "", 100), "active"));
    assert!(user_mode_matches(&user(true, "", 100), "banned"));
    assert!(user_mode_matches(&user(false, "review", 100), "review"));
    assert!(user_mode_matches(&user(false, "", 59), "review"));
    assert!(!user_mode_matches(&user(false, "", 60), "review"));
    assert!(user_mode_matches(&user(true, "", 0), "all"));
}

#[test]
fn labels() {
    assert_eq!(reason_label("spam"), "Спам");
    assert_eq!(reason_label("scam"), "Скам");
    assert_eq!(reason_label("weird"), "Другое");
    assert_eq!(report_status_label("reviewed"), "Просмотрено");
    assert_eq!(report_status_label("open"), "Новая");
    assert_eq!(cookie_consent_label("accepted"), "Принято");
    assert_eq!(cookie_consent_label("declined"), "Отказ");
    assert_eq!(cookie_consent_label(""), "Не выбрано");
    assert_eq!(trust_review_label("review"), "На проверке");
    assert_eq!(trust_review_label("ok"), "Чисто");
    assert_eq!(normalized_suggestion_status(Some(" ALL")), "all");
    assert_eq!(normalized_suggestion_status(None), "open");
    assert_eq!(suggestion_status_label("rejected"), "Отклонено");
    assert_eq!(suggestion_status_label("open"), "Новое");
    assert_eq!(suggestion_status_class("reviewed"), "done");
    assert_eq!(suggestion_status_class("open"), "open");
}

#[test]
fn moderation_reasons() {
    assert_eq!(clean_admin_reason("   "), "Без указанной причины");
    assert_eq!(clean_admin_reason("  spam bot "), "spam bot");
    let long = "я".repeat(200);
    assert_eq!(clean_admin_reason(&long).chars().count(), 180);
}

#[test]
fn admin_file_names() {
    assert_eq!(admin_sanitize_filename("a b.txt"), "a_b.txt");
    assert_eq!(admin_sanitize_filename(""), "file");
    assert_eq!(admin_thumb_path_for("x.y.jpg"), "storage/files/thumbs/x.y.png");
}

#[test]
fn client_builds() {
    assert_eq!(admin_download_platform(" APK "), Some("android"));
    assert_eq!(admin_download_platform("windows"), Some("pc"));
    assert_eq!(admin_download_platform("mac"), None);
    assert_eq!(admin_download_platform_label("android"), "Android APK");
    assert_eq!(admin_download_platform_label("pc"), "ПК клиент");
    assert_eq!(admin_download_ext("LaBerry.APK", "android").as_deref(), Some("apk"));
    assert_eq!(admin_download_ext("setup.exe", "android"), None);
    assert_eq!(admin_download_ext("setup.7z", "pc").as_deref(), Some("7z"));
    assert_eq!(admin_download_ext("setup", "pc"), None);
    assert_eq!(admin_download_mime("msi"), "application/x-msi");
    assert_eq!(admin_download_mime("bin"), "application/octet-stream");
}

#[test]
fn byte_sizes() {
    assert_eq!(admin_format_bytes(0), "размер неизвестен");
    assert_eq!(admin_format_bytes(-5), "размер неизвестен");
    assert_eq!(admin_format_bytes(1023), "1023 Б");
    assert_eq!(admin_format_bytes(1024), "1.0 КБ");
    assert_eq!(admin_format_bytes(1536), "1.5 КБ");
    assert_eq!(admin_format_bytes(5 * 1024 * 1024), "5.0 МБ");
    assert_eq!(admin_format_bytes(3 * 1024 * 1024 * 1024), "3.0 ГБ");
    assert_eq!(admin_format_bytes(5000 * 1024 * 1024 * 1024), "5000.0 ГБ");
}

#[test]
fn admin_dates() {
    assert_eq!(fmt_admin_dt("  "), "—");
    assert_eq!(fmt_admin_dt("0"), "1970-01-01 00:00:00 UTC");
    assert_eq!(fmt_admin_dt("1700000000"), "2023-11-14 22:13:20 UTC");
    assert_eq!(fmt_admin_dt("2024-05-01T10:00:00+03:00"), "2024-05-01 07:00:00 UTC");
    assert_eq!(fmt_admin_dt(" 2024-05-01 10:00:00 "), "2024-05-01 10:00:00 UTC");
    assert_eq!(fmt_admin_dt("yesterday"), "yesterday");
}

#[test]
fn initials() {
    assert_eq!(user_initial("alice"), "A");
    assert_eq!(user_initial("ßen"), "SS");
    assert_eq!(user_initial("юля"), "Ю");
    assert_eq!(user_initial(""), "?");
}

#[test]
fn panel_urls() {
    assert_eq!(user_page_url("/admin/users", false, "  ", "all", None), "/admin/users");
    assert_eq!(
        user_page_url("/admin/center", true, " bob smith ", "banned", Some(42)),
        "/admin/center?view=users&q=bob+smith&mode=banned&user_id=42"
    );
    assert_eq!(suggestions_page_url("/admin/suggestions", false, "open"), "/admin/suggestions");
    assert_eq!(
        suggestions_page_url("/admin/center", true, "all"),
        "/admin/center?view=suggestions&status=all"
    );
    assert_eq!(
        user_card_url(5, "/admin/users?q=a b&mode=x"),
        "/admin/users/5/card?return_to=%2Fadmin%2Fusers%3Fq%3Da+b%26mode%3Dx"
    );
    assert_eq!(admin_redirect_target("/admin/users", "Готово"), "/admin/users?msg=%D0%93%D0%BE%D1%82%D0%BE%D0%B2%D0%BE");
    assert_eq!(admin_redirect_target("/admin/users?q=1", "ok"), "/admin/users?q=1&msg=ok");
    assert_eq!(admin_redirect_target("/admin/users?", "ok"), "/admin/users?msg=ok");
    assert_eq!(admin_redirect_target("/admin/users?q=1&", "a b"), "/admin/users?q=1&msg=a%20b");
}

#[test]
fn homie_helpers() {
    assert_eq!(homie_session_id("  user 1/ok:x "), "user_1_ok:x");
    assert_eq!(homie_session_id("   "), "admin-center");
    assert_eq!(homie_session_id(&"a".repeat(100)).len(), 80);
    assert!(homie_looks_like_json_text(" {\"a\":1} "));
    assert!(homie_looks_like_json_text("[]"));
    assert!(homie_looks_like_json_text("\"x\""));
    assert!(!homie_looks_like_json_text("\""));
    assert!(!homie_looks_like_json_text("{"));
    assert!(!homie_looks_like_json_text("plain"));
    assert_eq!(homie_normalize_plain_text("a\\nb\\tc"), "a\nb  c");
    assert_eq!(homie_normalize_plain_text("a\\r\\nb"), "a\nb");
    assert_eq!(homie_normalize_plain_text("real\nline \\n kept"), "real\nline \\n kept");
    assert_eq!(homie_normalize_plain_text("tab\\t only"), "tab\\t only");
}

#[test]
fn ip_allow_list() {
    assert_eq!(allow_list_entries(" 10.0.0.1 , ,::1,"), vec!["10.0.0.1".to_string(), "::1".to_string()]);
    assert!(allow_list_entries("   ").is_empty());
    let listed = vec![Some(vec![10, 0, 0, 1]), None, Some(vec![0; 16])];
    assert_eq!(admin_ip_check("  ", None, &listed), Ok(()));
    assert_eq!(admin_ip_check("10.0.0.1", None, &listed), Err(AdminIpError::NoClientIp));
    assert_eq!(admin_ip_check("10.0.0.1", Some(None), &listed), Err(AdminIpError::BadClientIp));
    assert_eq!(admin_ip_check("10.0.0.1", Some(Some(vec![10, 0, 0, 1])), &listed), Ok(()));
    assert_eq!(admin_ip_check("10.0.0.1", Some(Some(vec![10, 0, 0, 2])), &listed), Err(AdminIpError::NotAllowed));
    assert_eq!(admin_ip_check(",", Some(Some(vec![10, 0, 0, 1])), &vec![]), Err(AdminIpError::NotAllowed));
}

#[test]
fn uploaded_builds() {
    assert_eq!(clean_download_version("  1.2.3  "), "1.2.3");
    assert_eq!(clean_download_version(&"v".repeat(70)).len(), 64);
    assert_eq!(download_upload_check("a", "b", "android", Some(5), "x.apk"), Err(DownloadUploadError::CsrfMismatch));
    assert_eq!(download_upload_check("t", "t", "ios", Some(5), "x.apk"), Err(DownloadUploadError::UnknownPlatform));
    assert_eq!(download_upload_check("t", "t", "apk", None, "x.apk"), Err(DownloadUploadError::NoFile));
    assert_eq!(download_upload_check("t", "t", "apk", Some(0), "x.apk"), Err(DownloadUploadError::EmptyFile));
    assert_eq!(download_upload_check("t", "t", "apk", Some(MAX_DOWNLOAD_BYTES + 1), "x.apk"), Err(DownloadUploadError::TooLarge));
    assert_eq!(download_upload_check("t", "t", "apk", Some(5), "x.exe"), Err(DownloadUploadError::BadExtension));
    assert_eq!(download_upload_check("t", "t", " PC ", Some(MAX_DOWNLOAD_BYTES), "Setup.MSI"), Ok(("pc", "msi".to_string())));
    assert_eq!(download_upload_message(DownloadUploadError::EmptyFile), "Файл пустой");
    assert_eq!(download_upload_message(DownloadUploadError::TooLarge), "Файл слишком большой (максимум 512 МБ)");
}

#[test]
fn moderation_statuses_and_notes() {
    assert_eq!(moderation_status(" open "), "open");
    assert_eq!(moderation_status("rejected"), "rejected");
    assert_eq!(moderation_status("reviewed"), "reviewed");
    assert_eq!(moderation_status("OPEN"), "reviewed");
    assert_eq!(moderation_status(""), "reviewed");
    assert_eq!(clean_admin_note("  ok  "), "ok");
    assert_eq!(clean_admin_note(&"ю".repeat(900)).chars().count(), 800);
}
