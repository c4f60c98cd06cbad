use laberry_core::admin::{render_homie_center_panel, AdminSession, UserReportRow, UserRow, UserSuggestionRow};
use laberry_core::admin_content::{
    render_admin_downloads_panel_body, render_admin_file_marker, render_admin_gifs_panel_body,
    render_admin_message_html, render_db_panel_body, render_message_parts, render_server_row,
    render_servers_panel_body, AdminDownloadRow, AdminGifRow, AdminServerRow, MarkerCapture,
};
use laberry_core::admin_pages::{
    center_selected_user, embedded_page, page, render_center_body, render_center_overview,
    render_center_servers, render_login_body, render_suggestions_panel_body,
};
use laberry_core::admin_users::{
    is_test_server, is_test_user, render_test_users_body, test_account_pattern,
    render_user_detail_card, render_user_details_modal, render_user_reports_html,
    render_users_panel_body,
};

fn sess() -> AdminSession {
    AdminSession { expires_at: 0, csrf: "tok<en>".to_string() }
}

fn user() -> UserRow {
    UserRow {
        id: 7,
        username: "<bob>".to_string(),
        email: "b@x.y".to_string(),
        is_banned: false,
        created_at: "0".to_string(),
        is_online: true,
        presence_status: "online".to_string(),
        presence_updated_at: String::new(),
        avatar_file_id: None,
        ban_reason: String::new(),
        ban_at: String::new(),
        cookie_consent_status: "accepted".to_string(),
        cookie_consent_at: String::new(),
        trust_factor: 40,
        trust_review_status: "review".to_string(),
        trust_review_reason: "new".to_string(),
        trust_review_at: String::new(),
    }
}

fn report() -> UserReportRow {
    UserReportRow {
        id: 3,
        reporter_id: 1,
        reporter_username: "ann".to_string(),
        target_user_id: 7,
        message_id: Some(44),
        reason: "spam".to_string(),
        message: "buy <now>".to_string(),
        status: "open".to_string(),
        created_at: "0".to_string(),
    }
}

#[test]
fn file_marker_card() {
    let html = render_admin_file_marker(5, "%D1%84.md", " text/markdown ", 2048);
    assert_eq!(
        html,
        "<div class='admin-file-card'>\n  <div class='admin-file-type'>MD</div>\n  <div class='admin-file-main'>\n    <div class='admin-file-name'>ф.md</div>\n    <div class='admin-file-meta'>#5 · text/markdown · 2.0 КБ</div>\n  </div>\n  <a class='admin-file-action' href='/admin/files/5/raw' target='_blank' rel='noopener'>Скачать</a>\n</div>"
    );
    let html = render_admin_file_marker(6, "a.png", "", 0);
    assert!(html.contains("<div class='admin-file-type'>FILE</div>"));
    assert!(html.contains("#6 · application/octet-stream · размер неизвестен"));
    let html = render_admin_file_marker(6, "a.png", "image/png", 10);
    assert!(html.contains(">IMG<"));
}

#[test]
fn message_html() {
    assert_eq!(
        render_admin_message_html("   "),
        "<span class='muted'>[вложение или пустое сообщение]</span>"
    );
    assert_eq!(
        render_admin_message_html("hello <b>\nworld"),
        "<div class='admin-message-text'>hello &lt;b&gt;<br>world</div>"
    );
    let html = render_admin_message_html("see [[file:5|a.png|image/png|10]] end");
    assert!(html.starts_with("<div class='admin-message-text'>see</div><div class='admin-file-card'>"));
    assert!(html.contains("#5 · image/png · 10 Б"));
    assert!(html.ends_with("</div><div class='admin-message-text'>end</div>"));
    assert_eq!(render_admin_message_html("[[file:0|x]]"), "[[file:0|x]]");
    let html = render_admin_message_html("[[file:9|doc]]");
    assert!(html.contains("#9 · application/octet-stream · размер неизвестен"));
}

#[test]
fn message_html_from_parts() {
    let caps = vec![MarkerCapture {
        whole: "[[file:0|<x>]]".to_string(),
        id: "0".to_string(),
        name: "<x>".to_string(),
        mime: None,
        size: None,
    }];
    let gaps = vec!["".to_string(), "".to_string()];
    assert_eq!(render_message_parts("[[file:0|<x>]]", &gaps, &caps), "[[file:0|&lt;x&gt;]]");
    let gaps = vec![" a ".to_string()];
    assert_eq!(render_message_parts(" a ", &gaps, &vec![]), "<div class='admin-message-text'>a</div>");
}

#[test]
fn content_panels() {
    let gifs = vec![AdminGifRow { id: 2, original_name: "cat<1>.gif".to_string(), file_size: 2048, created_at: "0".to_string() }];
    let html = render_admin_gifs_panel_body(&sess(), &gifs, "/admin/center");
    assert!(html.contains("cat&lt;1&gt;.gif"));
    assert!(html.contains("tok&lt;en&gt;"));
    let downloads = vec![AdminDownloadRow {
        id: 4,
        platform: "android".to_string(),
        version: "1.2".to_string(),
        original_name: "app.apk".to_string(),
        file_size: 1024 * 1024,
        uploaded_at: "0".to_string(),
        is_active: true,
    }];
    let html = render_admin_downloads_panel_body(&sess(), &downloads, "/admin/downloads");
    assert!(html.contains("app.apk"));
    assert!(html.contains("1.0 МБ"));
    let html = render_db_panel_body(&sess(), "/admin/db?x=<1>");
    assert!(html.contains("<form method='post' action='/admin/db/wipe_messages'>"));
    assert!(html.contains("value='/admin/db?x=&lt;1&gt;'"));
}

#[test]
fn server_panels() {
    let html = render_servers_panel_body("a'b", "ROWS", false);
    assert_eq!(
        html,
        "<div class='card'><div class='search-row'><div class='hstack'><h2 style='margin:0;'>Серверы</h2><span class='pill'>UTC</span></div><form method='get' action='/admin/servers'><input type='text' name='q' value='a&#39;b' placeholder='Поиск: название сервера / id (пусто = последние)' /><button type='submit'>Найти</button></form></div></div><div class='card'><div class='servers-list'>ROWS</div></div>"
    );
    let html = render_servers_panel_body("", "R", true);
    assert!(html.contains("data-filter-list='servers'>R</div>"));
    let row = AdminServerRow { id: 3, name: "S&S".to_string(), owner_id: 1, owner_username: "o".to_string(), created_at: "0".to_string() };
    let html = render_server_row("c", &row, "/admin/servers");
    assert!(html.contains("<span class='server-id'>#3</span><span class='server-name'>S&amp;S</span>"));
    assert!(html.contains("Создан: 1970-01-01 00:00:00 UTC"));
    assert!(html.contains("action=\"/admin/servers/3/remove_user\""));
}

#[test]
fn user_panels() {
    let html = render_user_reports_html(&sess(), &[], "/admin/users");
    assert_eq!(html, "<div class='admin-user-emptyline'>Репортов по этому пользователю нет.</div>");
    let html = render_user_reports_html(&sess(), &[report()], "/admin/users");
    assert!(html.contains("Спам"));
    assert!(html.contains("buy &lt;now&gt;"));
    let html = render_user_detail_card(&sess(), &user(), &[report()], "/admin/users");
    assert!(html.contains("&lt;bob&gt;"));
    assert!(!html.contains("<bob>"));
    let html = render_user_details_modal(&user());
    assert!(html.contains("&lt;bob&gt;"));
    let html = render_users_panel_body(&sess(), &[user()], "bo", false, "all", None, "/admin/users", &[]);
    assert!(html.contains("&lt;bob&gt;"));
}

#[test]
fn suggestion_panel_and_pages() {
    let s = UserSuggestionRow {
        id: 1,
        user_id: 2,
        username: "u".to_string(),
        title: "More <themes>".to_string(),
        message: "please".to_string(),
        status: "open".to_string(),
        created_at: "0".to_string(),
        reviewed_at: None,
        admin_note: String::new(),
    };
    let html = render_suggestions_panel_body(&sess(), &[s], "open", false, "/admin/suggestions");
    assert!(html.contains("More &lt;themes&gt;"));
    let p = page("T<1>", "<p>body</p>", Some("done & dusted"));
    assert!(p.contains("<p>body</p>"));
    assert!(p.contains("T&lt;1&gt;"));
    assert!(p.contains("done &amp; dusted"));
    let e = embedded_page("T", "<p>x</p>", None);
    assert!(e.contains("<p>x</p>"));
    let h = render_homie_center_panel(&sess());
    assert!(h.contains("value='tok&lt;en&gt;'"));
}

fn listed_user(id: i64, banned: bool) -> UserRow {
    UserRow { id, is_banned: banned, ..user() }
}

#[test]
fn control_centre() {
    let users = vec![listed_user(1, true), listed_user(2, false)];
    assert_eq!(center_selected_user(Some(9), &users, "active"), Some(9));
    assert_eq!(center_selected_user(None, &users, "active"), Some(2));
    assert_eq!(center_selected_user(None, &users, "banned"), Some(1));
    assert_eq!(center_selected_user(None, &[], "all"), None);

    assert_eq!(render_center_servers("c", &[]), "<div class='empty-state'>Серверы не найдены.</div>");
    let rows = vec![AdminServerRow { id: 3, name: "Ёлка".to_string(), owner_id: 1, owner_username: "OWN".to_string(), created_at: "0".to_string() }];
    let html = render_center_servers("c", &rows);
    assert!(html.starts_with("<div class='server-row-card' data-filter-item='servers' data-filter='#3 ёлка own'>"));
    assert!(html.contains("<input type='hidden' name='return_to' value='/admin/center?view=servers' />"));

    let o = render_center_overview(10, 2, 1);
    assert!(o.contains("<div class='center-stat-label'>Пользователи</div><div class='center-stat-value'>10</div>"));
    assert!(o.contains("<div class='center-stat-label'>Заблокировано</div><div class='center-stat-value'>1</div>"));
    let b = render_center_body("O", "U", "S", "V", "D", "B");
    assert!(b.contains("data-panel-view='overview' data-stage-title='Центр управления' data-stage-sub='Одна рабочая страница для админки и внутреннего мониторинга мессенджера.'>O</div>"));
    assert!(b.contains("data-panel-view='db' data-stage-title='Панель базы данных'"));

    let l = render_login_body("http://127.0.0.1:9<>", false);
    assert!(l.contains("<code>http://127.0.0.1:9&lt;&gt;</code>"));
    assert!(l.contains("<div class='warn'>"));
    assert!(!render_login_body("x", true).contains("<div class='warn'>"));
}

#[test]
fn test_accounts() {
    assert_eq!(test_account_pattern(None), "^test_");
    assert_eq!(test_account_pattern(Some("^qa_")), "^qa_");
    assert_eq!(test_account_pattern(Some("(unclosed")), "^test_");
    assert!(is_test_user("^test_", "test_bob", ""));
    assert!(is_test_user("^test_", "bob", "test_bob@x.y"));
    assert!(!is_test_user("^test_", "bob", ""));
    assert!(!is_test_user("^test_", "bob", "bob@x.y"));
    assert!(!is_test_user("(unclosed", "(unclosed", ""));
    assert!(is_test_server("^test_", "test_srv"));
    assert!(!is_test_server("^test_", "srv"));
    let banned = UserRow { is_banned: true, ..user() };
    let html = render_test_users_body("^te<st>_", "tok", &[banned]);
    assert!(html.contains("Шаблон: <code>^te&lt;st&gt;_</code>"));
    assert!(html.contains("<td><input type='checkbox' name='user_ids' value='7' /></td>\n<td>#7</td>\n<td>&lt;bob&gt;<div class='small'>b@x.y</div></td>\n<td>заблокирован</td>"));
    assert!(html.contains("<input type='hidden' name='csrf' value='tok' />"));
}
