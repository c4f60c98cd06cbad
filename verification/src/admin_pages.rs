//! HTML of the administration panel: the suggestion view, the page frame and
//! the control centre.

use vstd::prelude::*;
use crate::admin::{
    AdminSession, UserSuggestionRow, admin_dt_spec, fmt_admin_dt, form_pairs,
    normalized_suggestion_status, suggestion_status_class, suggestion_status_class_spec,
    suggestion_status_label, suggestion_status_label_spec, suggestion_status_spec,
    suggestions_page_url, suggestions_pairs, with_query,
};
use crate::admin::{to_lowercase, unicode_lower, UserRow, user_mode_matches, user_mode_matches_spec};
use crate::admin_content::AdminServerRow;
use crate::admin_users::{esc, yes_no};
use crate::html::{escape_chars, escape_html_spec};
use crate::text::{
    chars_of, contains, contains_lit, copy_chars, eq_lit, find_chars, i64_text, int_text,
    occurs_at, push_all, push_lit, slice_chars, string_of, trim, trim_chars,
};

verus! {


/// The buttons that settle an open suggestion, with a note.
pub open spec fn open_suggestion_actions_spec(id: i64, csrf: Seq<char>, return_to: Seq<char>, note: Seq<char>) -> Seq<char> {
    "<div class='admin-suggestion-actions'>\n  <form method='post' action='/admin/suggestions/"@ + int_text(id as int) + "/status' class='admin-suggestion-action-form'>\n    <input type='hidden' name='csrf' value='"@ + escape_html_spec(csrf) + "' />\n    <input type='hidden' name='return_to' value='"@ + escape_html_spec(return_to) + "' />\n    <input type='hidden' name='status' value='reviewed' />\n    <textarea name='admin_note' rows='2' placeholder='Заметка администратора'>"@ + escape_html_spec(note) + "</textarea>\n    <button type='submit' class='btn-soft'>Просмотрено</button>\n  </form>\n  <form method='post' action='/admin/suggestions/"@ + int_text(id as int) + "/status' class='inline-form'>\n    <input type='hidden' name='csrf' value='"@ + escape_html_spec(csrf) + "' />\n    <input type='hidden' name='return_to' value='"@ + escape_html_spec(return_to) + "' />\n    <input type='hidden' name='status' value='rejected' />\n    <button type='submit' class='btn-soft'>Отклонить</button>\n  </form>\n</div>"@
}

fn open_suggestion_actions(id: i64, csrf: &str, return_to: &str, note: &str) -> (html: Vec<char>)
    ensures
        html@ == open_suggestion_actions_spec(id, csrf@, return_to@, note@),
{
    let mut out = chars_of("<div class='admin-suggestion-actions'>\n  <form method='post' action='/admin/suggestions/");
    push_all(&mut out, i64_text(id).as_slice());
    push_lit(&mut out, "/status' class='admin-suggestion-action-form'>\n    <input type='hidden' name='csrf' value='");
    push_all(&mut out, esc(csrf).as_slice());
    push_lit(&mut out, "' />\n    <input type='hidden' name='return_to' value='");
    push_all(&mut out, esc(return_to).as_slice());
    push_lit(&mut out, "' />\n    <input type='hidden' name='status' value='reviewed' />\n    <textarea name='admin_note' rows='2' placeholder='Заметка администратора'>");
    push_all(&mut out, esc(note).as_slice());
    push_lit(&mut out, "</textarea>\n    <button type='submit' class='btn-soft'>Просмотрено</button>\n  </form>\n  <form method='post' action='/admin/suggestions/");
    push_all(&mut out, i64_text(id).as_slice());
    push_lit(&mut out, "/status' class='inline-form'>\n    <input type='hidden' name='csrf' value='");
    push_all(&mut out, esc(csrf).as_slice());
    push_lit(&mut out, "' />\n    <input type='hidden' name='return_to' value='");
    push_all(&mut out, esc(return_to).as_slice());
    push_lit(&mut out, "' />\n    <input type='hidden' name='status' value='rejected' />\n    <button type='submit' class='btn-soft'>Отклонить</button>\n  </form>\n</div>");
    out
}


/// The button that reopens a settled suggestion.
pub open spec fn settled_suggestion_actions_spec(id: i64, csrf: Seq<char>, return_to: Seq<char>) -> Seq<char> {
    "<div class='admin-suggestion-actions'>\n  <form method='post' action='/admin/suggestions/"@ + int_text(id as int) + "/status' class='inline-form'>\n    <input type='hidden' name='csrf' value='"@ + escape_html_spec(csrf) + "' />\n    <input type='hidden' name='return_to' value='"@ + escape_html_spec(return_to) + "' />\n    <input type='hidden' name='status' value='open' />\n    <button type='submit' class='btn-soft'>Вернуть в новые</button>\n  </form>\n</div>"@
}

fn settled_suggestion_actions(id: i64, csrf: &str, return_to: &str) -> (html: Vec<char>)
    ensures
        html@ == settled_suggestion_actions_spec(id, csrf@, return_to@),
{
    let mut out = chars_of("<div class='admin-suggestion-actions'>\n  <form method='post' action='/admin/suggestions/");
    push_all(&mut out, i64_text(id).as_slice());
    push_lit(&mut out, "/status' class='inline-form'>\n    <input type='hidden' name='csrf' value='");
    push_all(&mut out, esc(csrf).as_slice());
    push_lit(&mut out, "' />\n    <input type='hidden' name='return_to' value='");
    push_all(&mut out, esc(return_to).as_slice());
    push_lit(&mut out, "' />\n    <input type='hidden' name='status' value='open' />\n    <button type='submit' class='btn-soft'>Вернуть в новые</button>\n  </form>\n</div>");
    out
}


pub open spec fn suggestion_title_spec(s: UserSuggestionRow) -> Seq<char> {
    if trim(s.title@).len() == 0 {
        "Предложение #"@ + int_text(s.id as int)
    } else {
        s.title@
    }
}

pub open spec fn reviewed_text(s: UserSuggestionRow) -> Seq<char> {
    trim(
        match s.reviewed_at {
            Some(r) => r@,
            None => seq![],
        },
    )
}

pub open spec fn reviewed_html_spec(s: UserSuggestionRow) -> Seq<char> {
    if reviewed_text(s).len() == 0 {
        seq![]
    } else {
        "<div class='admin-suggestion-meta'>Рассмотрено: "@ + escape_html_spec(admin_dt_spec(reviewed_text(s)))
            + "</div>"@
    }
}

pub open spec fn admin_note_html_spec(s: UserSuggestionRow) -> Seq<char> {
    if trim(s.admin_note@).len() == 0 {
        seq![]
    } else {
        "<div class='admin-suggestion-meta'>Заметка: "@ + escape_html_spec(s.admin_note@) + "</div>"@
    }
}

pub open spec fn suggestion_actions_spec(csrf: Seq<char>, s: UserSuggestionRow, return_to: Seq<char>) -> Seq<char> {
    if s.status@ == "open"@ {
        open_suggestion_actions_spec(s.id, csrf, return_to, s.admin_note@)
    } else {
        settled_suggestion_actions_spec(s.id, csrf, return_to)
    }
}


/// One suggestion with its status and actions.
pub open spec fn suggestion_card_spec(csrf: Seq<char>, s: UserSuggestionRow, return_to: Seq<char>) -> Seq<char> {
    "<article class='admin-suggestion-card'>\n  <div class='admin-suggestion-head'>\n    <div>\n      <div class='admin-suggestion-title'>"@ + escape_html_spec(suggestion_title_spec(s)) + "</div>\n      <div class='admin-suggestion-meta'>От: #"@ + int_text(s.user_id as int) + " "@ + escape_html_spec(s.username@) + " · "@ + escape_html_spec(admin_dt_spec(s.created_at@)) + "</div>\n      "@ + reviewed_html_spec(s) + "\n    </div>\n    <span class='admin-report-status "@ + suggestion_status_class_spec(s.status@) + "'>"@ + suggestion_status_label_spec(s.status@) + "</span>\n  </div>\n  <div class='admin-suggestion-text'>"@ + escape_html_spec(s.message@) + "</div>\n  "@ + admin_note_html_spec(s) + "\n  "@ + suggestion_actions_spec(csrf, s, return_to) + "\n</article>"@
}

fn suggestion_card(csrf: &str, s: &UserSuggestionRow, return_to: &str) -> (html: Vec<char>)
    ensures
        html@ == suggestion_card_spec(csrf@, *s, return_to@),
{
    let title: Vec<char> = if trim_chars(chars_of(s.title.as_str()).as_slice()).len() == 0 {
        let mut t = chars_of("Предложение #");
        push_all(&mut t, i64_text(s.id).as_slice());
        t
    } else {
        chars_of(s.title.as_str())
    };
    let reviewed_raw: Vec<char> = match &s.reviewed_at {
        Some(r) => chars_of(r.as_str()),
        None => Vec::new(),
    };
    let reviewed = trim_chars(reviewed_raw.as_slice());
    let reviewed_html: Vec<char> = if reviewed.len() == 0 {
        Vec::new()
    } else {
        let mut h = chars_of("<div class='admin-suggestion-meta'>Рассмотрено: ");
        push_all(&mut h, esc(fmt_admin_dt(string_of(reviewed.as_slice()).as_str()).as_str()).as_slice());
        push_lit(&mut h, "</div>");
        h
    };
    let admin_note_html: Vec<char> = if trim_chars(chars_of(s.admin_note.as_str()).as_slice()).len() == 0 {
        Vec::new()
    } else {
        let mut h = chars_of("<div class='admin-suggestion-meta'>Заметка: ");
        push_all(&mut h, esc(s.admin_note.as_str()).as_slice());
        push_lit(&mut h, "</div>");
        h
    };
    let actions = if eq_lit(chars_of(s.status.as_str()).as_slice(), "open") {
        open_suggestion_actions(s.id, csrf, return_to, s.admin_note.as_str())
    } else {
        settled_suggestion_actions(s.id, csrf, return_to)
    };
    let mut out = chars_of("<article class='admin-suggestion-card'>\n  <div class='admin-suggestion-head'>\n    <div>\n      <div class='admin-suggestion-title'>");
    push_all(&mut out, escape_chars(title.as_slice()).as_slice());
    push_lit(&mut out, "</div>\n      <div class='admin-suggestion-meta'>От: #");
    push_all(&mut out, i64_text(s.user_id).as_slice());
    push_lit(&mut out, " ");
    push_all(&mut out, esc(s.username.as_str()).as_slice());
    push_lit(&mut out, " · ");
    push_all(&mut out, esc(fmt_admin_dt(s.created_at.as_str()).as_str()).as_slice());
    push_lit(&mut out, "</div>\n      ");
    push_all(&mut out, reviewed_html.as_slice());
    push_lit(&mut out, "\n    </div>\n    <span class='admin-report-status ");
    push_all(&mut out, chars_of(suggestion_status_class(s.status.as_str())).as_slice());
    push_lit(&mut out, "'>");
    push_all(&mut out, chars_of(suggestion_status_label(s.status.as_str())).as_slice());
    push_lit(&mut out, "</span>\n  </div>\n  <div class='admin-suggestion-text'>");
    push_all(&mut out, esc(s.message.as_str()).as_slice());
    push_lit(&mut out, "</div>\n  ");
    push_all(&mut out, admin_note_html.as_slice());
    push_lit(&mut out, "\n  ");
    push_all(&mut out, actions.as_slice());
    push_lit(&mut out, "\n</article>");
    out
}


pub open spec fn suggestion_cards(csrf: Seq<char>, ss: Seq<UserSuggestionRow>, return_to: Seq<char>) -> Seq<char>
    decreases ss.len(),
{
    if ss.len() == 0 {
        seq![]
    } else {
        suggestion_cards(csrf, ss.drop_last(), return_to) + suggestion_card_spec(csrf, ss.last(), return_to)
    }
}

fn suggestion_cards_exec(csrf: &str, rows: &[UserSuggestionRow], return_to: &str) -> (html: Vec<char>)
    ensures
        html@ == suggestion_cards(csrf@, rows@, return_to@),
{
    let mut out: Vec<char> = Vec::new();
    let mut i: usize = 0;
    while i < rows.len()
        invariant
            i <= rows.len(),
            out@ == suggestion_cards(csrf@, rows@.take(i as int), return_to@),
        decreases rows.len() - i,
    {
        let card = suggestion_card(csrf, &rows[i], return_to);
        push_all(&mut out, card.as_slice());
        proof {
            let t = rows@.take(i + 1);
            assert(t.drop_last() =~= rows@.take(i as int));
            assert(t.last() == rows@[i as int]);
        }
        i = i + 1;
    }
    proof {
        assert(rows@.take(rows@.len() as int) =~= rows@);
    }
    out
}

pub open spec fn suggestions_base(embedded: bool) -> Seq<char> {
    if embedded {
        "/admin/center"@
    } else {
        "/admin/suggestions"@
    }
}

pub open spec fn status_href(embedded: bool, status: Seq<char>) -> Seq<char> {
    escape_html_spec(with_query(suggestions_base(embedded), form_pairs(suggestions_pairs(embedded, status))))
}

pub open spec fn current_label_spec(status: Seq<char>) -> Seq<char> {
    if status == "all"@ {
        "Все"@
    } else if status == "reviewed"@ {
        "Просмотрено"@
    } else if status == "rejected"@ {
        "Отклонено"@
    } else {
        "Новые"@
    }
}

fn active_if(b: bool) -> (r: Vec<char>)
    ensures
        r@ == yes_no(b, "active"@, seq![]),
{
    if b {
        chars_of("active")
    } else {
        Vec::new()
    }
}


/// The suggestion view: status tabs and the suggestions in the chosen status.
pub open spec fn suggestions_panel_spec(csrf: Seq<char>, suggestions: Seq<UserSuggestionRow>, status_in: Seq<char>, embedded: bool, return_to: Seq<char>) -> Seq<char> {
    let status = suggestion_status_spec(Some(status_in));
    let rows_html = if suggestions.len() == 0 {
        "<div class='empty-state'>Предложений в этом статусе пока нет.</div>"@
    } else {
        suggestion_cards(csrf, suggestions, return_to)
    };
    "<div class='card'>\n  <div class='search-row'>\n    <div class='hstack'>\n      <h2 style='margin:0;'>Предложения</h2>\n      <span class='pill'>"@ + current_label_spec(status) + "</span>\n    </div>\n    <div class='admin-user-tabs'>\n      <a href='"@ + status_href(embedded, "open"@) + "' class='"@ + yes_no(status == "open"@, "active"@, seq![]) + "'>Новые</a>\n      <a href='"@ + status_href(embedded, "all"@) + "' class='"@ + yes_no(status == "all"@, "active"@, seq![]) + "'>Все</a>\n      <a href='"@ + status_href(embedded, "reviewed"@) + "' class='"@ + yes_no(status == "reviewed"@, "active"@, seq![]) + "'>Просмотрено</a>\n      <a href='"@ + status_href(embedded, "rejected"@) + "' class='"@ + yes_no(status == "rejected"@, "active"@, seq![]) + "'>Отклонено</a>\n    </div>\n  </div>\n</div>\n<div class='admin-suggestions-shell'>\n  <section class='admin-suggestion-list'>"@ + rows_html + "</section>\n  <aside class='admin-suggestion-side'>\n    <h3 style='margin:0 0 8px;'>Просмотр</h3>\n    <div class='small'>Здесь отображаются идеи, отправленные пользователями из настроек. Новые предложения можно пометить просмотренными или отклонёнными.</div>\n  </aside>\n</div>"@
}

#[verifier::rlimit(40)]
pub fn render_suggestions_panel_body(
    sess: &AdminSession,
    suggestions: &[UserSuggestionRow],
    status: &str,
    embedded: bool,
    current_return_to: &str,
) -> (html: String)
    ensures
        html@ == suggestions_panel_spec(sess.csrf@, suggestions@, status@, embedded, current_return_to@),
{
    let base_path = if embedded {
        "/admin/center"
    } else {
        "/admin/suggestions"
    };
    let status = normalized_suggestion_status(Some(status));
    let st = chars_of(status);
    let open_href = suggestions_page_url(base_path, embedded, "open");
    let all_href = suggestions_page_url(base_path, embedded, "all");
    let reviewed_href = suggestions_page_url(base_path, embedded, "reviewed");
    let rejected_href = suggestions_page_url(base_path, embedded, "rejected");
    let rows_html: Vec<char> = if suggestions.len() == 0 {
        chars_of("<div class='empty-state'>Предложений в этом статусе пока нет.</div>")
    } else {
        suggestion_cards_exec(sess.csrf.as_str(), suggestions, current_return_to)
    };
    let current_label = if eq_lit(st.as_slice(), "all") {
        chars_of("Все")
    } else if eq_lit(st.as_slice(), "reviewed") {
        chars_of("Просмотрено")
    } else if eq_lit(st.as_slice(), "rejected") {
        chars_of("Отклонено")
    } else {
        chars_of("Новые")
    };
    proof {
        assert(base_path@ == suggestions_base(embedded));
    }
    let mut out = chars_of("<div class='card'>\n  <div class='search-row'>\n    <div class='hstack'>\n      <h2 style='margin:0;'>Предложения</h2>\n      <span class='pill'>");
    push_all(&mut out, current_label.as_slice());
    push_lit(&mut out, "</span>\n    </div>\n    <div class='admin-user-tabs'>\n      <a href='");
    push_all(&mut out, esc(open_href.as_str()).as_slice());
    push_lit(&mut out, "' class='");
    push_all(&mut out, active_if(eq_lit(st.as_slice(), "open")).as_slice());
    push_lit(&mut out, "'>Новые</a>\n      <a href='");
    push_all(&mut out, esc(all_href.as_str()).as_slice());
    push_lit(&mut out, "' class='");
    push_all(&mut out, active_if(eq_lit(st.as_slice(), "all")).as_slice());
    push_lit(&mut out, "'>Все</a>\n      <a href='");
    push_all(&mut out, esc(reviewed_href.as_str()).as_slice());
    push_lit(&mut out, "' class='");
    push_all(&mut out, active_if(eq_lit(st.as_slice(), "reviewed")).as_slice());
    push_lit(&mut out, "'>Просмотрено</a>\n      <a href='");
    push_all(&mut out, esc(rejected_href.as_str()).as_slice());
    push_lit(&mut out, "' class='");
    push_all(&mut out, active_if(eq_lit(st.as_slice(), "rejected")).as_slice());
    push_lit(&mut out, "'>Отклонено</a>\n    </div>\n  </div>\n</div>\n<div class='admin-suggestions-shell'>\n  <section class='admin-suggestion-list'>");
    push_all(&mut out, rows_html.as_slice());
    push_lit(&mut out, "</section>\n  <aside class='admin-suggestion-side'>\n    <h3 style='margin:0 0 8px;'>Просмотр</h3>\n    <div class='small'>Здесь отображаются идеи, отправленные пользователями из настроек. Новые предложения можно пометить просмотренными или отклонёнными.</div>\n  </aside>\n</div>");
    string_of(out.as_slice())
}

// ---------------------------------------------------------------------------
// The page frame
// ---------------------------------------------------------------------------

pub open spec fn msg_html_spec(msg: Option<Seq<char>>) -> Seq<char> {
    match msg {
        Some(m) if trim(m).len() > 0 => "<div class='msg'>"@ + escape_html_spec(m) + "</div>"@,
        _ => seq![],
    }
}

pub open spec fn nav_link_spec(href: Seq<char>, label: Seq<char>, active: bool) -> Seq<char> {
    "<a href='"@ + href + "' class='"@ + (if active {
        "nav-link active"@
    } else {
        "nav-link"@
    }) + "'>"@ + label + "</a>"@
}

fn nav_link(href: &str, label: &str, active: bool) -> (html: Vec<char>)
    ensures
        html@ == nav_link_spec(href@, label@, active),
{
    let mut out = chars_of("<a href='");
    push_all(&mut out, chars_of(href).as_slice());
    push_lit(&mut out, "' class='");
    if active {
        push_lit(&mut out, "nav-link active");
    } else {
        push_lit(&mut out, "nav-link");
    }
    push_lit(&mut out, "'>");
    push_all(&mut out, chars_of(label).as_slice());
    push_lit(&mut out, "</a>");
    out
}

/// The top navigation, shown on every page but the centre and the sign-in.
pub open spec fn nav_spec(title: Seq<char>) -> Seq<char> {
    if !contains(title, "Центр"@) && !contains(title, "Вход"@) {
        nav_link_spec("/admin/users"@, "Пользователи"@, contains(title, "Пользователи"@)) + nav_link_spec("/admin/servers"@, "Серверы"@, contains(title, "Серверы"@)) + nav_link_spec("/admin/suggestions"@, "Предложения"@, contains(title, "Предложения"@)) + nav_link_spec("/admin/gifs"@, "GIF"@, contains(title, "GIF"@)) + nav_link_spec("/admin/downloads"@, "Загрузки"@, contains(title, "Загрузки"@)) + nav_link_spec("/admin/center"@, "Центр"@, contains(title, "Центр"@)) + nav_link_spec("/admin/db"@, "База данных"@, contains(title, "База данных"@))
    } else {
        seq![]
    }
}

pub open spec fn main_class_spec(title: Seq<char>) -> Seq<char> {
    if contains(title, "Центр"@) {
        "admin-main admin-main-wide"@
    } else {
        "admin-main"@
    }
}

pub open spec fn center_script_spec(title: Seq<char>) -> Seq<char> {
    if contains(title, "Центр"@) {
        "<script src='/static/js/admin-center.js?v=1' defer></script>"@
    } else {
        seq![]
    }
}

pub open spec fn users_script_spec(title: Seq<char>) -> Seq<char> {
    if contains(title, "Центр"@) || contains(title, "Пользователи"@) {
        "<script src='/static/js/admin-users.js?v=2' defer></script>"@
    } else {
        seq![]
    }
}

pub open spec fn logout_html_spec(title: Seq<char>) -> Seq<char> {
    if !contains(title, "Вход"@) {
        "<form method='post' action='/admin/logout'><button type='submit'>Выйти</button></form>"@
    } else {
        seq![]
    }
}

/// A whole panel page: the head with its styles, the navigation, an
/// optional notice and the body.
pub open spec fn page_spec(title: Seq<char>, body: Seq<char>, msg: Option<Seq<char>>) -> Seq<char> {
    "<!doctype html>\n    <html lang=\"ru\">\n    <head>\n    <meta charset=\"utf-8\" />\n    <meta name=\"viewport\" content=\"width=device-width, initial-scale=1\" />\n    <title>"@ + escape_html_spec(title) + "</title>\n    <style>\n    :root {\n    --bg:#090c14;\n    --panel:#10162a;\n    --panel-2:#0d1324;\n    --border:#243152;\n    --text:#f2f5ff;\n    --muted:#97a4c5;\n    --accent:#7c5cff;\n    --danger:#8f2f46;\n    --danger-bg:#2d1420;\n    --ok:#1c6b3d;\n    --ok-bg:#0e2418;\n    }\n    * { box-sizing:border-box; }\n    body { font-family:system-ui,-apple-system,Segoe UI,Roboto,Arial,sans-serif; background:var(--bg); color:var(--text); margin:0; }\n    header { position:sticky; top:0; z-index:20; padding:12px 18px; background:#0f1425; border-bottom:1px solid var(--border); display:flex; align-items:center; gap:12px; flex-wrap:wrap; }\n    .brand { font-weight:800; font-size:26px; letter-spacing:-0.03em; }\n    .nav { display:flex; gap:10px; flex-wrap:wrap; }\n    .nav-link { color:#dbe6ff; text-decoration:none; padding:10px 14px; border:1px solid var(--border); border-radius:14px; background:#121933; }\n    .nav-link.active { background:#1b2850; border-color:#4d67b1; box-shadow:inset 0 0 0 1px rgba(255,255,255,0.05); }\n    .nav-link:hover { background:#182243; }\n    header form { margin-left:auto; }\n    main.admin-main { padding:18px; max-width:1280px; margin:0 auto; }\n    main.admin-main-wide { width:100%; max-width:none; padding:20px clamp(18px,2.2vw,36px) 28px; }\n    .card { background:linear-gradient(180deg,#11172a 0%, #0d1324 100%); border:1px solid var(--border); border-radius:18px; padding:16px; margin-bottom:14px; box-shadow:0 20px 50px rgba(0,0,0,0.18); }\n    .card h2, .card h3 { margin:0 0 12px 0; }\n    .small { color:var(--muted); font-size:12px; }\n    input, button, textarea, select { font-size:14px; font-family:inherit; }\n    input[type=text], input[type=password], textarea, select { width:100%; max-width:640px; padding:11px 13px; border-radius:14px; border:1px solid var(--border); background:#090d18; color:var(--text); outline:none; }\n    input[type=text]:focus, input[type=password]:focus, textarea:focus, select:focus { border-color:#6452d7; box-shadow:0 0 0 3px rgba(124,92,255,0.15); }\n    button { padding:10px 14px; border-radius:14px; border:1px solid var(--border); background:#182243; color:var(--text); cursor:pointer; }\n    button:hover { background:#202c57; }\n    .btn-soft { background:#151d37; }\n    .btn-danger { background:var(--danger-bg); border-color:var(--danger); }\n    .btn-danger:hover { background:#3a1a29; }\n    .table { width:100%; border-collapse:collapse; }\n    .table th, .table td { border-bottom:1px solid var(--border); padding:12px 8px; text-align:left; vertical-align:top; }\n    .msg { background:#182243; border:1px solid #31467c; padding:11px 13px; border-radius:14px; margin-bottom:14px; }\n    .hstack { display:flex; align-items:center; gap:10px; flex-wrap:wrap; }\n    .search-row { display:flex; gap:10px; flex-wrap:wrap; align-items:center; }\n    .search-row form { display:flex; gap:10px; flex:1 1 560px; flex-wrap:wrap; }\n    .search-row input[type=text] { flex:1 1 340px; max-width:none; }\n    .pill { display:inline-flex; align-items:center; gap:8px; padding:7px 11px; border-radius:999px; border:1px solid var(--border); background:#0f1322; color:#cdd7f6; font-size:12px; }\n    .users-list, .servers-list, .db-list { display:flex; flex-direction:column; gap:12px; }\n    .user-card, .server-row-card { display:grid; grid-template-columns:minmax(0,1fr) auto; gap:14px; border:1px solid var(--border); background:#0d1120; border-radius:16px; padding:14px; }\n    .user-main, .server-main { min-width:0; }\n    .user-top, .server-top { display:flex; align-items:flex-start; justify-content:space-between; gap:12px; flex-wrap:wrap; margin-bottom:8px; }\n    .user-title, .server-title { display:flex; align-items:center; gap:10px; flex-wrap:wrap; min-width:0; }\n    .user-id, .server-id { color:#8fb4ff; font-weight:700; }\n    .user-name, .server-name { font-size:18px; font-weight:700; word-break:break-word; }\n    .user-email, .server-meta { color:var(--muted); word-break:break-all; }\n    .user-meta { color:var(--muted); font-size:12px; }\n    .user-fields { display:grid; grid-template-columns:repeat(3,minmax(0,1fr)); gap:10px; margin-top:10px; }\n    .user-field { border:1px solid var(--border); background:#10182d; border-radius:14px; padding:10px 12px; min-width:0; }\n    .user-field-label { color:var(--muted); font-size:11px; text-transform:uppercase; letter-spacing:.05em; margin-bottom:6px; }\n    .user-field-value { word-break:break-word; line-height:1.45; }\n    .user-field-value.mono { font-family:ui-monospace,SFMono-Regular,Consolas,monospace; }\n    .status-badge { display:inline-flex; align-items:center; padding:4px 10px; border-radius:999px; font-size:12px; font-weight:700; border:1px solid var(--border); }\n    .status-active { background:var(--ok-bg); color:#98e2b8; border-color:#214d35; }\n    .status-banned { background:#251316; color:#ffb4bf; border-color:#5a2730; }\n    .test-badge { background:#161d31; color:#9ec0ff; border-color:#2f4478; }\n    .user-actions, .server-actions { display:flex; flex-wrap:wrap; gap:8px; align-content:flex-start; justify-content:flex-end; }\n    .inline-form { display:inline-flex; margin:0; }\n    .empty-state { padding:26px 18px; border:1px dashed var(--border); border-radius:16px; color:var(--muted); text-align:center; }\n    .db-card { border:1px solid var(--border); border-radius:18px; padding:16px; background:#0d1324; }\n    .db-card h3 { margin-bottom:8px; }\n    .danger-note { color:#ffb9c7; }\n    .center-shell { display:grid; grid-template-columns:300px minmax(0,1fr); gap:16px; min-height:72vh; }\n    .center-sidebar, .center-main { background:linear-gradient(180deg,#10162a 0%, #0d1324 100%); border:1px solid var(--border); border-radius:20px; box-shadow:0 18px 40px rgba(0,0,0,0.22); }\n    .center-sidebar { padding:14px; display:flex; flex-direction:column; gap:10px; }\n    .center-main { padding:16px; }\n    .center-nav-item { display:block; padding:14px 15px; border:1px solid var(--border); border-radius:16px; background:#121933; text-decoration:none; color:var(--text); transition:background .16s ease,border-color .16s ease,transform .16s ease; }\n    .center-nav-item:hover { background:#182243; border-color:#36508d; transform:translateY(-1px); }\n    .center-nav-item strong { display:block; margin-bottom:6px; font-size:18px; }\n    .center-nav-item .small { line-height:1.45; }\n    .center-nav-item.active { background:linear-gradient(180deg,#19264a 0%, #131d39 100%); border-color:#4d67b1; }\n    .center-hero { display:flex; justify-content:space-between; align-items:flex-start; gap:14px; padding:16px; border:1px solid var(--border); border-radius:18px; background:#0b1020; margin-bottom:14px; flex-wrap:wrap; }\n    .center-hero-title { margin:0; font-size:28px; letter-spacing:-0.03em; }\n    .center-hero-sub { color:var(--muted); max-width:720px; line-height:1.45; margin-top:8px; }\n    .center-stat-row { display:flex; gap:10px; flex-wrap:wrap; }\n    .center-stat { min-width:128px; padding:12px 14px; border-radius:16px; border:1px solid var(--border); background:#121933; }\n    .center-stat-label { color:var(--muted); font-size:12px; margin-bottom:6px; }\n    .center-stat-value { font-size:24px; font-weight:800; line-height:1; }\n    .center-workspace { display:grid; grid-template-columns:340px minmax(0,1fr); gap:14px; min-height:58vh; }\n    .center-column { display:flex; flex-direction:column; gap:14px; min-width:0; }\n    .center-panel { border:1px solid var(--border); border-radius:18px; background:#0b1020; overflow:hidden; }\n    .center-panel-header { display:flex; justify-content:space-between; align-items:center; gap:10px; padding:14px 16px; border-bottom:1px solid var(--border); background:#11182d; flex-wrap:wrap; }\n    .center-panel-title { font-size:18px; font-weight:800; }\n    .center-panel-sub { color:var(--muted); font-size:12px; }\n    .center-panel-body { padding:14px; }\n    .center-filter-row { display:flex; gap:8px; flex-wrap:wrap; }\n    .center-chip { display:inline-flex; align-items:center; gap:7px; padding:7px 10px; border-radius:999px; border:1px solid var(--border); background:#131a30; color:#d9e3ff; font-size:12px; }\n    .center-queue-list { display:flex; flex-direction:column; gap:10px; }\n    .center-queue-item { border:1px solid var(--border); border-radius:16px; padding:12px; background:#11182d; }\n    .center-queue-top { display:flex; justify-content:space-between; gap:10px; align-items:flex-start; margin-bottom:8px; }\n    .center-queue-title { font-weight:800; line-height:1.3; }\n    .center-queue-meta { color:var(--muted); font-size:12px; line-height:1.45; }\n    .center-status { display:inline-flex; align-items:center; padding:4px 10px; border-radius:999px; font-size:12px; font-weight:700; border:1px solid var(--border); white-space:nowrap; }\n    .center-status-new { background:#1a2647; color:#aecaff; border-color:#39508a; }\n    .center-status-live { background:#10261b; color:#97e0b6; border-color:#28533a; }\n    .center-status-warn { background:#2a1d10; color:#ffc98f; border-color:#6f4b24; }\n    .center-status-muted { background:#151b2f; color:#b4c0df; border-color:#2e3a63; }\n    .center-mini-list { display:flex; flex-direction:column; gap:8px; }\n    .center-mini-item { display:flex; justify-content:space-between; gap:12px; padding:10px 12px; border:1px solid var(--border); border-radius:14px; background:#11182d; }\n    .center-mini-main { min-width:0; }\n    .center-mini-title { font-weight:700; margin-bottom:4px; word-break:break-word; }\n    .center-mini-meta { color:var(--muted); font-size:12px; }\n    .center-mini-side { color:var(--muted); font-size:12px; white-space:nowrap; }\n    .center-feed-list { display:flex; flex-direction:column; gap:10px; }\n    .center-feed-item { border:1px solid var(--border); border-radius:16px; padding:12px 14px; background:#11182d; }\n    .center-feed-head { display:flex; justify-content:space-between; gap:12px; align-items:flex-start; margin-bottom:8px; flex-wrap:wrap; }\n    .center-feed-author { font-weight:800; }\n    .center-feed-loc { color:#9eb7ff; font-size:12px; margin-top:4px; }\n    .center-feed-time { color:var(--muted); font-size:12px; white-space:nowrap; }\n    .center-feed-text { line-height:1.55; color:#eef2ff; word-break:break-word; }\n    .admin-message-text { margin:6px 0; }\n    .admin-file-card { display:flex; align-items:center; gap:12px; border:1px solid #314068; border-radius:14px; background:#0d1428; padding:10px 12px; margin:8px 0; max-width:720px; }\n    .admin-file-type { width:42px; height:34px; border-radius:10px; display:flex; align-items:center; justify-content:center; background:#172241; color:#c084fc; font-weight:900; font-size:12px; border:1px solid #3b4a77; flex:0 0 auto; }\n    .admin-file-main { min-width:0; flex:1; }\n    .admin-file-name { font-weight:800; color:#fff; overflow:hidden; text-overflow:ellipsis; white-space:nowrap; }\n    .admin-file-meta { color:var(--muted); font-size:12px; margin-top:3px; }\n    .admin-file-action { flex:0 0 auto; text-decoration:none; border:1px solid #4d67b1; color:#eef2ff; background:#172241; padding:7px 10px; border-radius:10px; font-size:12px; font-weight:800; }\n    .admin-file-action:hover { border-color:#8b5cf6; color:#fff; }\n\n    .center-empty { padding:28px 18px; border:1px dashed var(--border); border-radius:16px; color:var(--muted); text-align:center; background:#0f1527; }\n    .center-split { display:grid; grid-template-columns:minmax(0,1fr) 280px; gap:14px; }\n    .center-note-card { border:1px solid var(--border); border-radius:16px; background:#11182d; padding:14px; }\n    .center-note-card h3 { margin:0 0 10px 0; }\n    .center-note-list { display:flex; flex-direction:column; gap:8px; }\n    .center-note-line { color:var(--muted); font-size:13px; line-height:1.45; }\n    .panel-shell { display:grid; grid-template-columns:280px minmax(0,1fr); gap:18px; min-height:calc(100vh - 118px); align-items:stretch; }\n    .panel-sidebar { display:flex; flex-direction:column; gap:10px; padding:0; border:0; border-radius:0; background:transparent; }\n    .panel-stage { min-width:0; border:0; border-radius:0; background:transparent; box-shadow:none; overflow:visible; }\n    .panel-stage-header { display:flex; justify-content:space-between; align-items:center; gap:12px; padding:0 0 14px; border-bottom:1px solid rgba(255,255,255,0.08); background:transparent; flex-wrap:wrap; }\n    .panel-stage-title { font-size:22px; font-weight:800; }\n    .panel-stage-sub { color:var(--muted); font-size:13px; }\n    .panel-stage-body { min-height:calc(100vh - 190px); padding:0; }\n    .panel-frame { width:100%; min-height:66vh; border:0; border-radius:16px; background:#0b1020; }\n    .panel-frame-wrap { border:1px solid var(--border); border-radius:16px; overflow:hidden; background:#0b1020; min-height:68vh; }\n    .messenger-frame-wrap { border:1px solid var(--border); border-radius:16px; overflow:hidden; background:#0b1020; height:72vh; }\n    .messenger-frame { width:100%; height:calc(100% + 68px); margin-top:-68px; border:0; display:block; background:#0b1020; }\n    .helper-grid { display:grid; grid-template-columns:repeat(3,minmax(0,1fr)); gap:14px; }\n    .helper-card { border:1px solid var(--border); border-radius:16px; background:#11182d; padding:14px; }\n    .helper-card h3 { margin:0 0 10px 0; }\n    .center-inline-search { display:flex; gap:8px; width:min(520px,100%); }\n    .panel-switch { text-align:left; width:100%; }\n    .panel-switch strong { pointer-events:none; }\n    .panel-view { display:none; }\n    .panel-view.is-active { display:block; }\n    .admin-messenger { display:grid; grid-template-columns:300px minmax(0,1fr); gap:14px; }\n    .admin-messenger-sidebar, .admin-messenger-main { border:1px solid var(--border); border-radius:16px; background:#0b1020; }\n    .admin-messenger-sidebar { padding:12px; display:flex; flex-direction:column; gap:10px; min-width:0; }\n    .admin-chat-list { display:flex; flex-direction:column; gap:8px; max-height:68vh; overflow:auto; }\n    .center-chat-item { width:100%; text-align:left; background:#11182d; border:1px solid var(--border); border-radius:14px; padding:12px; }\n    .center-chat-item.is-active { background:#1b2850; border-color:#4d67b1; }\n    .center-chat-title { font-weight:700; margin-bottom:4px; word-break:break-word; }\n    .center-chat-meta { color:var(--muted); font-size:12px; }\n    .admin-messenger-main { min-width:0; overflow:hidden; }\n    .admin-chat-header { display:flex; justify-content:space-between; align-items:center; gap:12px; padding:14px 16px; border-bottom:1px solid var(--border); flex-wrap:wrap; }\n    .admin-chat-feed { padding:14px; max-height:68vh; overflow:auto; }\n    .ai-form { display:flex; flex-direction:column; gap:14px; }\n    .ai-grid { display:grid; grid-template-columns:repeat(2,minmax(0,1fr)); gap:12px; }\n    .ai-grid label, .ai-form label { display:flex; flex-direction:column; gap:7px; color:#dbe6ff; font-weight:700; }\n    .ai-check { flex-direction:row !important; align-items:center; gap:8px !important; border:1px solid var(--border); border-radius:14px; background:#11182d; padding:12px; }\n    .ai-form input[type=text], .ai-form input[type=number], .ai-form select, .ai-form textarea { width:100%; max-width:none; }\n    .utc-note { margin-left:auto; color:var(--muted); font-size:12px; }\n\n    .admin-users-shell { display:flex; flex-direction:column; gap:10px; }\n    .admin-users-titlebar { display:flex; align-items:center; justify-content:space-between; min-height:34px; }\n    .admin-users-titlebar strong { font-size:18px; letter-spacing:-0.02em; }\n    .admin-users-grid { display:grid; grid-template-columns:330px minmax(0,1fr); gap:12px; min-height:58vh; }\n    .admin-users-list, .admin-users-detail { border:1px solid var(--border); border-radius:18px; background:#0b1020; min-width:0; }\n    .admin-users-list { padding:12px; display:flex; flex-direction:column; gap:10px; }\n    .admin-user-tabs { display:flex; gap:8px; flex-wrap:wrap; }\n    .admin-user-tabs a { color:#dbe6ff; text-decoration:none; border:1px solid var(--border); background:#121933; border-radius:999px; padding:7px 10px; font-size:12px; font-weight:800; }\n    .admin-user-tabs a.active { background:#1b2850; border-color:#4d67b1; }\n    .admin-user-search { display:flex; gap:8px; width:100%; }\n    .admin-user-search input[type=text] { max-width:none; flex:1 1 auto; }\n    .admin-user-search button { flex:0 0 auto; }\n    .admin-user-list-scroll { display:flex; flex-direction:column; gap:8px; overflow:auto; max-height:62vh; padding-right:3px; }\n    .admin-user-row { display:flex; align-items:center; gap:10px; border:1px solid var(--border); border-radius:16px; background:#11182d; padding:10px; color:var(--text); text-decoration:none; min-width:0; }\n    .admin-user-row:hover { background:#15203a; border-color:#36508d; }\n    .admin-user-row.active { background:#172241; border-color:#4d67b1; box-shadow:inset 0 0 0 1px rgba(255,255,255,.04); }\n    .admin-user-row-avatar, .admin-user-avatar { width:38px; height:38px; border-radius:50%; flex:0 0 auto; overflow:hidden; display:flex; align-items:center; justify-content:center; border:1px solid #314068; background:radial-gradient(circle at 30% 30%, #314a88, #11182d 70%); color:#fff; font-weight:900; }\n    .admin-user-row-avatar-img, .admin-user-avatar-img { width:100%; height:100%; object-fit:cover; display:block; }\n    .admin-user-row-main { min-width:0; flex:1; }\n    .admin-user-row-name { font-weight:900; white-space:nowrap; overflow:hidden; text-overflow:ellipsis; }\n    .admin-user-row-meta { color:var(--muted); font-size:12px; margin-top:2px; }\n    .admin-user-pill { display:inline-flex; align-items:center; justify-content:center; border-radius:999px; border:1px solid var(--border); padding:5px 9px; font-size:12px; font-weight:800; white-space:nowrap; }\n    .admin-user-pill.online { background:#10261b; color:#98e2b8; border-color:#28533a; }\n    .admin-user-pill.offline { background:#151b2f; color:#b8c3e4; border-color:#2e3a63; }\n    .admin-user-pill.banned { background:#251316; color:#ffb4bf; border-color:#5a2730; }\n    .admin-user-pill.clear { background:#141e37; color:#aecdff; border-color:#314a84; }\n    .admin-user-pill.review { background:#2b1b10; color:#ffd19a; border-color:#73522b; }\n    .admin-users-detail { padding:14px; }\n    .admin-user-card { display:flex; flex-direction:column; gap:12px; }\n    .admin-user-card-head { display:flex; justify-content:space-between; align-items:flex-start; gap:12px; }\n    .admin-user-card-ident { display:flex; align-items:center; gap:12px; min-width:0; }\n    .admin-user-avatar { width:56px; height:56px; font-size:22px; cursor:pointer; padding:0; }\n    .admin-user-card-title { min-width:0; }\n    .admin-user-name { font-size:28px; font-weight:900; letter-spacing:-0.03em; line-height:1; word-break:break-word; }\n    .admin-user-sub { color:var(--muted); margin-top:6px; word-break:break-word; }\n    .admin-user-pills { display:flex; gap:8px; flex-wrap:wrap; margin-top:10px; }\n    .admin-user-gear { width:38px; height:38px; padding:0; border-radius:12px; }\n    .admin-user-info-grid { display:grid; grid-template-columns:repeat(2,minmax(0,1fr)); gap:10px; }\n    .admin-user-info-grid.compact { grid-template-columns:repeat(2,minmax(0,1fr)); }\n    .admin-user-info { border:1px solid var(--border); border-radius:16px; background:#11182d; padding:12px; min-width:0; }\n    .admin-user-info span { display:block; color:var(--muted); font-size:11px; text-transform:uppercase; letter-spacing:.07em; margin-bottom:7px; }\n    .admin-user-info strong { display:block; word-break:break-word; }\n    .admin-user-section { border:1px solid var(--border); border-radius:16px; background:#11182d; padding:12px; }\n    .admin-user-section-head { display:flex; justify-content:space-between; gap:10px; margin-bottom:10px; }\n    .admin-user-section-head span { color:var(--muted); font-size:12px; }\n    .admin-report-list { display:flex; flex-direction:column; gap:8px; }\n    .admin-report-row { border:1px solid #2f3d68; border-radius:14px; background:#0d1324; padding:10px; }\n    .admin-report-top { display:flex; justify-content:space-between; gap:8px; align-items:center; margin-bottom:7px; }\n    .admin-report-reason { color:#ffb4bf; font-weight:900; font-size:12px; }\n    .admin-report-status { border:1px solid var(--border); border-radius:999px; padding:4px 8px; font-size:11px; font-weight:800; }\n    .admin-report-status.open { background:#2a1d10; color:#ffc98f; border-color:#6f4b24; }\n    .admin-report-status.done { background:#10261b; color:#98e2b8; border-color:#28533a; }\n    .admin-report-text { line-height:1.45; }\n    .admin-report-meta { color:var(--muted); font-size:12px; margin-top:6px; }\n    .admin-report-actions { display:flex; gap:8px; flex-wrap:wrap; margin-top:8px; }\n    .admin-report-actions form { margin:0; }\n    .admin-report-actions button { padding:7px 10px; font-size:12px; }\n    .admin-suggestions-shell { display:grid; grid-template-columns:minmax(0,1fr) 300px; gap:14px; align-items:start; }\n    .admin-suggestion-list { display:flex; flex-direction:column; gap:10px; }\n    .admin-suggestion-card { border:1px solid var(--border); border-radius:16px; background:#0d1324; padding:14px; }\n    .admin-suggestion-head { display:flex; justify-content:space-between; gap:12px; align-items:flex-start; flex-wrap:wrap; margin-bottom:10px; }\n    .admin-suggestion-title { font-size:17px; font-weight:900; word-break:break-word; }\n    .admin-suggestion-meta { color:var(--muted); font-size:12px; margin-top:4px; word-break:break-word; }\n    .admin-suggestion-text { line-height:1.55; word-break:break-word; white-space:pre-wrap; }\n    .admin-suggestion-actions { display:flex; gap:8px; margin-top:12px; align-items:flex-start; flex-wrap:wrap; }\n    .admin-suggestion-action-form { display:flex; gap:8px; align-items:flex-start; flex:1 1 420px; margin:0; min-width:min(100%,420px); }\n    .admin-suggestion-actions textarea { flex:1 1 240px; max-width:none; min-height:40px; resize:vertical; }\n    .admin-suggestion-actions form.inline-form { margin:0; }\n    .admin-suggestion-actions button { white-space:nowrap; }\n    .admin-suggestion-side { border:1px solid var(--border); border-radius:16px; background:#11182d; padding:14px; position:sticky; top:86px; }\n    .admin-gif-shell { display:grid; grid-template-columns:300px minmax(0,1fr); gap:14px; align-items:start; }\n    .admin-gif-upload { border:1px solid var(--border); border-radius:16px; background:#11182d; padding:14px; position:sticky; top:86px; }\n    .admin-gif-upload form { display:flex; flex-direction:column; gap:10px; }\n    .admin-gif-upload input[type=file] { width:100%; color:var(--muted); }\n    .admin-gif-grid { display:grid; grid-template-columns:repeat(auto-fill,minmax(180px,1fr)); gap:12px; }\n    .admin-gif-card { border:1px solid var(--border); border-radius:16px; background:#0d1324; overflow:hidden; min-width:0; }\n    .admin-gif-thumb { aspect-ratio:1.45/1; background:#060914; display:flex; align-items:center; justify-content:center; }\n    .admin-gif-thumb img { width:100%; height:100%; object-fit:contain; display:block; }\n    .admin-gif-body { padding:10px; display:flex; flex-direction:column; gap:8px; }\n    .admin-gif-name { font-weight:900; white-space:nowrap; overflow:hidden; text-overflow:ellipsis; }\n    .admin-gif-actions { display:flex; gap:8px; flex-wrap:wrap; }\n    .admin-gif-actions form { margin:0; }\n    .admin-download-shell { display:grid; grid-template-columns:300px minmax(0,1fr); gap:14px; align-items:start; }\n    .admin-download-upload { border:1px solid var(--border); border-radius:16px; background:#11182d; padding:14px; position:sticky; top:86px; }\n    .admin-download-upload form { display:flex; flex-direction:column; gap:10px; }\n    .admin-download-upload input[type=file] { width:100%; color:var(--muted); }\n    .admin-download-grid { display:grid; grid-template-columns:repeat(auto-fill,minmax(240px,1fr)); gap:12px; }\n    .admin-download-card { border:1px solid var(--border); border-radius:16px; background:#0d1324; padding:14px; display:flex; flex-direction:column; gap:10px; min-width:0; }\n    .admin-download-top { display:flex; justify-content:space-between; gap:10px; align-items:flex-start; }\n    .admin-download-title { font-weight:900; font-size:16px; word-break:break-word; }\n    .admin-download-meta { color:var(--muted); font-size:12px; line-height:1.45; word-break:break-word; }\n    .admin-download-actions { display:flex; gap:8px; flex-wrap:wrap; margin-top:auto; }\n    .admin-download-actions form { margin:0; }\n    .admin-download-actions a { text-decoration:none; border:1px solid var(--border); background:#151d37; color:var(--text); border-radius:14px; padding:10px 14px; font-weight:800; }\n    .admin-user-actions { display:grid; grid-template-columns:repeat(3,minmax(0,1fr)); gap:10px; }\n    .admin-user-actions form { margin:0; }\n    .admin-ban-reason-input { width:100%; max-width:none; margin-bottom:8px; padding:9px 10px; border-radius:12px; border:1px solid var(--border); background:#090d18; color:var(--text); }\n    .admin-user-actions button { width:100%; }\n    .btn-ok { background:#122b1c; border-color:#28533a; color:#baf0cf; }\n    .btn-ok:hover { background:#173625; }\n    .admin-user-emptyline, .admin-user-empty-detail { border:1px dashed var(--border); border-radius:14px; background:#0f1527; color:var(--muted); padding:18px; text-align:center; }\n    .admin-user-empty-detail { min-height:360px; display:flex; align-items:center; justify-content:center; }\n    .admin-modal-backdrop { position:fixed; inset:0; z-index:1000; background:rgba(0,0,0,.58); display:flex; align-items:center; justify-content:center; padding:20px; }\n    .admin-modal-window { width:min(760px,100%); max-height:90vh; overflow:auto; border:1px solid var(--border); border-radius:22px; background:#0b1020; box-shadow:0 24px 80px rgba(0,0,0,.45); }\n    .admin-modal-head { display:flex; justify-content:space-between; align-items:flex-start; gap:12px; border-bottom:1px solid var(--border); padding:16px; }\n    .admin-modal-title { font-size:24px; font-weight:900; letter-spacing:-.02em; }\n    .admin-modal-sub { color:var(--muted); margin-top:4px; }\n    .admin-modal-close { width:36px; height:36px; padding:0; }\n    .admin-modal-body { padding:16px; display:flex; flex-direction:column; gap:14px; }\n    .admin-modal-avatar { border:1px solid var(--border); border-radius:18px; background:#11182d; min-height:260px; display:flex; align-items:center; justify-content:center; overflow:hidden; }\n    .admin-modal-avatar-img { max-width:100%; max-height:420px; object-fit:contain; display:block; }\n    .admin-modal-avatar-empty { width:120px; height:120px; border-radius:50%; display:flex; align-items:center; justify-content:center; font-size:42px; font-weight:900; background:#172241; border:1px solid #314068; }\n    .admin-modal-actions { display:flex; gap:10px; flex-wrap:wrap; }\n    .admin-modal-actions a { text-decoration:none; border:1px solid var(--border); background:#121933; color:#eef2ff; border-radius:14px; padding:10px 12px; font-weight:800; }\n    .admin-user-toast { position:fixed; right:18px; bottom:18px; z-index:1200; max-width:min(420px,calc(100vw - 36px)); padding:12px 14px; border-radius:14px; border:1px solid #5a2730; background:#2d1420; color:#ffd7df; box-shadow:0 18px 50px rgba(0,0,0,.38); font-weight:800; }\n    .admin-user-toast[data-kind='ok'] { border-color:#28533a; background:#10261b; color:#baf0cf; }\n    .admin-user-toast[hidden] { display:none; }\n    @media (max-width: 980px) { .user-card, .server-row-card, .center-shell, .center-workspace, .panel-shell, .helper-grid, .user-fields, .admin-messenger, .admin-users-grid, .admin-user-info-grid, .admin-user-actions, .admin-suggestions-shell, .admin-gif-shell, .admin-download-shell { grid-template-columns:1fr; } .user-actions, .server-actions { justify-content:flex-start; } .admin-user-list-scroll { max-height:none; } .admin-suggestion-side, .admin-gif-upload, .admin-download-upload { position:static; } }\n    @media (max-width: 640px) { main.admin-main { padding:12px; } header { padding:12px; } .brand { font-size:22px; } .search-row form { flex-direction:column; } .search-row input[type=text], .search-row button { width:100%; } .messenger-frame { margin-top:-62px; height:calc(100% + 62px); } .admin-suggestion-action-form { flex-direction:column; } .admin-suggestion-actions textarea, .admin-suggestion-actions button { width:100%; } }\n    </style>\n    </head>\n    <body>\n    <header>\n    <div class='brand'>Админ-панель</div>\n    <nav class='nav'>"@ + nav_spec(title) + "</nav>\n    <div class='utc-note'>Время везде: UTC</div>\n    "@ + logout_html_spec(title) + "\n    </header>\n    <main class='"@ + main_class_spec(title) + "'>\n    "@ + msg_html_spec(msg) + "\n    "@ + body + "\n    </main>\n    "@ + center_script_spec(title) + users_script_spec(title) + "</body>\n    </html>"@
}

#[verifier::rlimit(40)]
pub fn page(title: &str, body: &str, msg: Option<&str>) -> (html: String)
    ensures
        html@ == page_spec(
            title@,
            body@,
            match msg {
                Some(m) => Some(m@),
                None => None,
            },
        ),
{
    let tc = chars_of(title);
    let t = tc.as_slice();
    let msg_html: Vec<char> = match msg {
        Some(m) => if trim_chars(chars_of(m).as_slice()).len() > 0 {
            let mut h = chars_of("<div class='msg'>");
            push_all(&mut h, esc(m).as_slice());
            push_lit(&mut h, "</div>");
            h
        } else {
            Vec::new()
        },
        None => Vec::new(),
    };
    let is_center = contains_lit(t, "Центр");
    let is_login = contains_lit(t, "Вход");
    let mut nav: Vec<char> = Vec::new();
    if !is_center && !is_login {
        push_all(&mut nav, nav_link("/admin/users", "Пользователи", contains_lit(t, "Пользователи")).as_slice());
        push_all(&mut nav, nav_link("/admin/servers", "Серверы", contains_lit(t, "Серверы")).as_slice());
        push_all(&mut nav, nav_link("/admin/suggestions", "Предложения", contains_lit(t, "Предложения")).as_slice());
        push_all(&mut nav, nav_link("/admin/gifs", "GIF", contains_lit(t, "GIF")).as_slice());
        push_all(&mut nav, nav_link("/admin/downloads", "Загрузки", contains_lit(t, "Загрузки")).as_slice());
        push_all(&mut nav, nav_link("/admin/center", "Центр", contains_lit(t, "Центр")).as_slice());
        push_all(&mut nav, nav_link("/admin/db", "База данных", contains_lit(t, "База данных")).as_slice());
    }
    proof {
        assert(nav@ =~= nav_spec(title@));
    }
    let main_class = if is_center {
        chars_of("admin-main admin-main-wide")
    } else {
        chars_of("admin-main")
    };
    let center_script: Vec<char> = if is_center {
        chars_of("<script src='/static/js/admin-center.js?v=1' defer></script>")
    } else {
        Vec::new()
    };
    let users_script: Vec<char> = if is_center || contains_lit(t, "Пользователи") {
        chars_of("<script src='/static/js/admin-users.js?v=2' defer></script>")
    } else {
        Vec::new()
    };
    let logout_html: Vec<char> = if !is_login {
        chars_of("<form method='post' action='/admin/logout'><button type='submit'>Выйти</button></form>")
    } else {
        Vec::new()
    };
    let mut out = chars_of("<!doctype html>\n    <html lang=\"ru\">\n    <head>\n    <meta charset=\"utf-8\" />\n    <meta name=\"viewport\" content=\"width=device-width, initial-scale=1\" />\n    <title>");
    push_all(&mut out, esc(title).as_slice());
    push_lit(&mut out, "</title>\n    <style>\n    :root {\n    --bg:#090c14;\n    --panel:#10162a;\n    --panel-2:#0d1324;\n    --border:#243152;\n    --text:#f2f5ff;\n    --muted:#97a4c5;\n    --accent:#7c5cff;\n    --danger:#8f2f46;\n    --danger-bg:#2d1420;\n    --ok:#1c6b3d;\n    --ok-bg:#0e2418;\n    }\n    * { box-sizing:border-box; }\n    body { font-family:system-ui,-apple-system,Segoe UI,Roboto,Arial,sans-serif; background:var(--bg); color:var(--text); margin:0; }\n    header { position:sticky; top:0; z-index:20; padding:12px 18px; background:#0f1425; border-bottom:1px solid var(--border); display:flex; align-items:center; gap:12px; flex-wrap:wrap; }\n    .brand { font-weight:800; font-size:26px; letter-spacing:-0.03em; }\n    .nav { display:flex; gap:10px; flex-wrap:wrap; }\n    .nav-link { color:#dbe6ff; text-decoration:none; padding:10px 14px; border:1px solid var(--border); border-radius:14px; background:#121933; }\n    .nav-link.active { background:#1b2850; border-color:#4d67b1; box-shadow:inset 0 0 0 1px rgba(255,255,255,0.05); }\n    .nav-link:hover { background:#182243; }\n    header form { margin-left:auto; }\n    main.admin-main { padding:18px; max-width:1280px; margin:0 auto; }\n    main.admin-main-wide { width:100%; max-width:none; padding:20px clamp(18px,2.2vw,36px) 28px; }\n    .card { background:linear-gradient(180deg,#11172a 0%, #0d1324 100%); border:1px solid var(--border); border-radius:18px; padding:16px; margin-bottom:14px; box-shadow:0 20px 50px rgba(0,0,0,0.18); }\n    .card h2, .card h3 { margin:0 0 12px 0; }\n    .small { color:var(--muted); font-size:12px; }\n    input, button, textarea, select { font-size:14px; font-family:inherit; }\n    input[type=text], input[type=password], textarea, select { width:100%; max-width:640px; padding:11px 13px; border-radius:14px; border:1px solid var(--border); background:#090d18; color:var(--text); outline:none; }\n    input[type=text]:focus, input[type=password]:focus, textarea:focus, select:focus { border-color:#6452d7; box-shadow:0 0 0 3px rgba(124,92,255,0.15); }\n    button { padding:10px 14px; border-radius:14px; border:1px solid var(--border); background:#182243; color:var(--text); cursor:pointer; }\n    button:hover { background:#202c57; }\n    .btn-soft { background:#151d37; }\n    .btn-danger { background:var(--danger-bg); border-color:var(--danger); }\n    .btn-danger:hover { background:#3a1a29; }\n    .table { width:100%; border-collapse:collapse; }\n    .table th, .table td { border-bottom:1px solid var(--border); padding:12px 8px; text-align:left; vertical-align:top; }\n    .msg { background:#182243; border:1px solid #31467c; padding:11px 13px; border-radius:14px; margin-bottom:14px; }\n    .hstack { display:flex; align-items:center; gap:10px; flex-wrap:wrap; }\n    .search-row { display:flex; gap:10px; flex-wrap:wrap; align-items:center; }\n    .search-row form { display:flex; gap:10px; flex:1 1 560px; flex-wrap:wrap; }\n    .search-row input[type=text] { flex:1 1 340px; max-width:none; }\n    .pill { display:inline-flex; align-items:center; gap:8px; padding:7px 11px; border-radius:999px; border:1px solid var(--border); background:#0f1322; color:#cdd7f6; font-size:12px; }\n    .users-list, .servers-list, .db-list { display:flex; flex-direction:column; gap:12px; }\n    .user-card, .server-row-card { display:grid; grid-template-columns:minmax(0,1fr) auto; gap:14px; border:1px solid var(--border); background:#0d1120; border-radius:16px; padding:14px; }\n    .user-main, .server-main { min-width:0; }\n    .user-top, .server-top { display:flex; align-items:flex-start; justify-content:space-between; gap:12px; flex-wrap:wrap; margin-bottom:8px; }\n    .user-title, .server-title { display:flex; align-items:center; gap:10px; flex-wrap:wrap; min-width:0; }\n    .user-id, .server-id { color:#8fb4ff; font-weight:700; }\n    .user-name, .server-name { font-size:18px; font-weight:700; word-break:break-word; }\n    .user-email, .server-meta { color:var(--muted); word-break:break-all; }\n    .user-meta { color:var(--muted); font-size:12px; }\n    .user-fields { display:grid; grid-template-columns:repeat(3,minmax(0,1fr)); gap:10px; margin-top:10px; }\n    .user-field { border:1px solid var(--border); background:#10182d; border-radius:14px; padding:10px 12px; min-width:0; }\n    .user-field-label { color:var(--muted); font-size:11px; text-transform:uppercase; letter-spacing:.05em; margin-bottom:6px; }\n    .user-field-value { word-break:break-word; line-height:1.45; }\n    .user-field-value.mono { font-family:ui-monospace,SFMono-Regular,Consolas,monospace; }\n    .status-badge { display:inline-flex; align-items:center; padding:4px 10px; border-radius:999px; font-size:12px; font-weight:700; border:1px solid var(--border); }\n    .status-active { background:var(--ok-bg); color:#98e2b8; border-color:#214d35; }\n    .status-banned { background:#251316; color:#ffb4bf; border-color:#5a2730; }\n    .test-badge { background:#161d31; color:#9ec0ff; border-color:#2f4478; }\n    .user-actions, .server-actions { display:flex; flex-wrap:wrap; gap:8px; align-content:flex-start; justify-content:flex-end; }\n    .inline-form { display:inline-flex; margin:0; }\n    .empty-state { padding:26px 18px; border:1px dashed var(--border); border-radius:16px; color:var(--muted); text-align:center; }\n    .db-card { border:1px solid var(--border); border-radius:18px; padding:16px; background:#0d1324; }\n    .db-card h3 { margin-bottom:8px; }\n    .danger-note { color:#ffb9c7; }\n    .center-shell { display:grid; grid-template-columns:300px minmax(0,1fr); gap:16px; min-height:72vh; }\n    .center-sidebar, .center-main { background:linear-gradient(180deg,#10162a 0%, #0d1324 100%); border:1px solid var(--border); border-radius:20px; box-shadow:0 18px 40px rgba(0,0,0,0.22); }\n    .center-sidebar { padding:14px; display:flex; flex-direction:column; gap:10px; }\n    .center-main { padding:16px; }\n    .center-nav-item { display:block; padding:14px 15px; border:1px solid var(--border); border-radius:16px; background:#121933; text-decoration:none; color:var(--text); transition:background .16s ease,border-color .16s ease,transform .16s ease; }\n    .center-nav-item:hover { background:#182243; border-color:#36508d; transform:translateY(-1px); }\n    .center-nav-item strong { display:block; margin-bottom:6px; font-size:18px; }\n    .center-nav-item .small { line-height:1.45; }\n    .center-nav-item.active { background:linear-gradient(180deg,#19264a 0%, #131d39 100%); border-color:#4d67b1; }\n    .center-hero { display:flex; justify-content:space-between; align-items:flex-start; gap:14px; padding:16px; border:1px solid var(--border); border-radius:18px; background:#0b1020; margin-bottom:14px; flex-wrap:wrap; }\n    .center-hero-title { margin:0; font-size:28px; letter-spacing:-0.03em; }\n    .center-hero-sub { color:var(--muted); max-width:720px; line-height:1.45; margin-top:8px; }\n    .center-stat-row { display:flex; gap:10px; flex-wrap:wrap; }\n    .center-stat { min-width:128px; padding:12px 14px; border-radius:16px; border:1px solid var(--border); background:#121933; }\n    .center-stat-label { color:var(--muted); font-size:12px; margin-bottom:6px; }\n    .center-stat-value { font-size:24px; font-weight:800; line-height:1; }\n    .center-workspace { display:grid; grid-template-columns:340px minmax(0,1fr); gap:14px; min-height:58vh; }\n    .center-column { display:flex; flex-direction:column; gap:14px; min-width:0; }\n    .center-panel { border:1px solid var(--border); border-radius:18px; background:#0b1020; overflow:hidden; }\n    .center-panel-header { display:flex; justify-content:space-between; align-items:center; gap:10px; padding:14px 16px; border-bottom:1px solid var(--border); background:#11182d; flex-wrap:wrap; }\n    .center-panel-title { font-size:18px; font-weight:800; }\n    .center-panel-sub { color:var(--muted); font-size:12px; }\n    .center-panel-body { padding:14px; }\n    .center-filter-row { display:flex; gap:8px; flex-wrap:wrap; }\n    .center-chip { display:inline-flex; align-items:center; gap:7px; padding:7px 10px; border-radius:999px; border:1px solid var(--border); background:#131a30; color:#d9e3ff; font-size:12px; }\n    .center-queue-list { display:flex; flex-direction:column; gap:10px; }\n    .center-queue-item { border:1px solid var(--border); border-radius:16px; padding:12px; background:#11182d; }\n    .center-queue-top { display:flex; justify-content:space-between; gap:10px; align-items:flex-start; margin-bottom:8px; }\n    .center-queue-title { font-weight:800; line-height:1.3; }\n    .center-queue-meta { color:var(--muted); font-size:12px; line-height:1.45; }\n    .center-status { display:inline-flex; align-items:center; padding:4px 10px; border-radius:999px; font-size:12px; font-weight:700; border:1px solid var(--border); white-space:nowrap; }\n    .center-status-new { background:#1a2647; color:#aecaff; border-color:#39508a; }\n    .center-status-live { background:#10261b; color:#97e0b6; border-color:#28533a; }\n    .center-status-warn { background:#2a1d10; color:#ffc98f; border-color:#6f4b24; }\n    .center-status-muted { background:#151b2f; color:#b4c0df; border-color:#2e3a63; }\n    .center-mini-list { display:flex; flex-direction:column; gap:8px; }\n    .center-mini-item { display:flex; justify-content:space-between; gap:12px; padding:10px 12px; border:1px solid var(--border); border-radius:14px; background:#11182d; }\n    .center-mini-main { min-width:0; }\n    .center-mini-title { font-weight:700; margin-bottom:4px; word-break:break-word; }\n    .center-mini-meta { color:var(--muted); font-size:12px; }\n    .center-mini-side { color:var(--muted); font-size:12px; white-space:nowrap; }\n    .center-feed-list { display:flex; flex-direction:column; gap:10px; }\n    .center-feed-item { border:1px solid var(--border); border-radius:16px; padding:12px 14px; background:#11182d; }\n    .center-feed-head { display:flex; justify-content:space-between; gap:12px; align-items:flex-start; margin-bottom:8px; flex-wrap:wrap; }\n    .center-feed-author { font-weight:800; }\n    .center-feed-loc { color:#9eb7ff; font-size:12px; margin-top:4px; }\n    .center-feed-time { color:var(--muted); font-size:12px; white-space:nowrap; }\n    .center-feed-text { line-height:1.55; color:#eef2ff; word-break:break-word; }\n    .admin-message-text { margin:6px 0; }\n    .admin-file-card { display:flex; align-items:center; gap:12px; border:1px solid #314068; border-radius:14px; background:#0d1428; padding:10px 12px; margin:8px 0; max-width:720px; }\n    .admin-file-type { width:42px; height:34px; border-radius:10px; display:flex; align-items:center; justify-content:center; background:#172241; color:#c084fc; font-weight:900; font-size:12px; border:1px solid #3b4a77; flex:0 0 auto; }\n    .admin-file-main { min-width:0; flex:1; }\n    .admin-file-name { font-weight:800; color:#fff; overflow:hidden; text-overflow:ellipsis; white-space:nowrap; }\n    .admin-file-meta { color:var(--muted); font-size:12px; margin-top:3px; }\n    .admin-file-action { flex:0 0 auto; text-decoration:none; border:1px solid #4d67b1; color:#eef2ff; background:#172241; padding:7px 10px; border-radius:10px; font-size:12px; font-weight:800; }\n    .admin-file-action:hover { border-color:#8b5cf6; color:#fff; }\n\n    .center-empty { padding:28px 18px; border:1px dashed var(--border); border-radius:16px; color:var(--muted); text-align:center; background:#0f1527; }\n    .center-split { display:grid; grid-template-columns:minmax(0,1fr) 280px; gap:14px; }\n    .center-note-card { border:1px solid var(--border); border-radius:16px; background:#11182d; padding:14px; }\n    .center-note-card h3 { margin:0 0 10px 0; }\n    .center-note-list { display:flex; flex-direction:column; gap:8px; }\n    .center-note-line { color:var(--muted); font-size:13px; line-height:1.45; }\n    .panel-shell { display:grid; grid-template-columns:280px minmax(0,1fr); gap:18px; min-height:calc(100vh - 118px); align-items:stretch; }\n    .panel-sidebar { display:flex; flex-direction:column; gap:10px; padding:0; border:0; border-radius:0; background:transparent; }\n    .panel-stage { min-width:0; border:0; border-radius:0; background:transparent; box-shadow:none; overflow:visible; }\n    .panel-stage-header { display:flex; justify-content:space-between; align-items:center; gap:12px; padding:0 0 14px; border-bottom:1px solid rgba(255,255,255,0.08); background:transparent; flex-wrap:wrap; }\n    .panel-stage-title { font-size:22px; font-weight:800; }\n    .panel-stage-sub { color:var(--muted); font-size:13px; }\n    .panel-stage-body { min-height:calc(100vh - 190px); padding:0; }\n    .panel-frame { width:100%; min-height:66vh; border:0; border-radius:16px; background:#0b1020; }\n    .panel-frame-wrap { border:1px solid var(--border); border-radius:16px; overflow:hidden; background:#0b1020; min-height:68vh; }\n    .messenger-frame-wrap { border:1px solid var(--border); border-radius:16px; overflow:hidden; background:#0b1020; height:72vh; }\n    .messenger-frame { width:100%; height:calc(100% + 68px); margin-top:-68px; border:0; display:block; background:#0b1020; }\n    .helper-grid { display:grid; grid-template-columns:repeat(3,minmax(0,1fr)); gap:14px; }\n    .helper-card { border:1px solid var(--border); border-radius:16px; background:#11182d; padding:14px; }\n    .helper-card h3 { margin:0 0 10px 0; }\n    .center-inline-search { display:flex; gap:8px; width:min(520px,100%); }\n    .panel-switch { text-align:left; width:100%; }\n    .panel-switch strong { pointer-events:none; }\n    .panel-view { display:none; }\n    .panel-view.is-active { display:block; }\n    .admin-messenger { display:grid; grid-template-columns:300px minmax(0,1fr); gap:14px; }\n    .admin-messenger-sidebar, .admin-messenger-main { border:1px solid var(--border); border-radius:16px; background:#0b1020; }\n    .admin-messenger-sidebar { padding:12px; display:flex; flex-direction:column; gap:10px; min-width:0; }\n    .admin-chat-list { display:flex; flex-direction:column; gap:8px; max-height:68vh; overflow:auto; }\n    .center-chat-item { width:100%; text-align:left; background:#11182d; border:1px solid var(--border); border-radius:14px; padding:12px; }\n    .center-chat-item.is-active { background:#1b2850; border-color:#4d67b1; }\n    .center-chat-title { font-weight:700; margin-bottom:4px; word-break:break-word; }\n    .center-chat-meta { color:var(--muted); font-size:12px; }\n    .admin-messenger-main { min-width:0; overflow:hidden; }\n    .admin-chat-header { display:flex; justify-content:space-between; align-items:center; gap:12px; padding:14px 16px; border-bottom:1px solid var(--border); flex-wrap:wrap; }\n    .admin-chat-feed { padding:14px; max-height:68vh; overflow:auto; }\n    .ai-form { display:flex; flex-direction:column; gap:14px; }\n    .ai-grid { display:grid; grid-template-columns:repeat(2,minmax(0,1fr)); gap:12px; }\n    .ai-grid label, .ai-form label { display:flex; flex-direction:column; gap:7px; color:#dbe6ff; font-weight:700; }\n    .ai-check { flex-direction:row !important; align-items:center; gap:8px !important; border:1px solid var(--border); border-radius:14px; background:#11182d; padding:12px; }\n    .ai-form input[type=text], .ai-form input[type=number], .ai-form select, .ai-form textarea { width:100%; max-width:none; }\n    .utc-note { margin-left:auto; color:var(--muted); font-size:12px; }\n\n    .admin-users-shell { display:flex; flex-direction:column; gap:10px; }\n    .admin-users-titlebar { display:flex; align-items:center; justify-content:space-between; min-height:34px; }\n    .admin-users-titlebar strong { font-size:18px; letter-spacing:-0.02em; }\n    .admin-users-grid { display:grid; grid-template-columns:330px minmax(0,1fr); gap:12px; min-height:58vh; }\n    .admin-users-list, .admin-users-detail { border:1px solid var(--border); border-radius:18px; background:#0b1020; min-width:0; }\n    .admin-users-list { padding:12px; display:flex; flex-direction:column; gap:10px; }\n    .admin-user-tabs { display:flex; gap:8px; flex-wrap:wrap; }\n    .admin-user-tabs a { color:#dbe6ff; text-decoration:none; border:1px solid var(--border); background:#121933; border-radius:999px; padding:7px 10px; font-size:12px; font-weight:800; }\n    .admin-user-tabs a.active { background:#1b2850; border-color:#4d67b1; }\n    .admin-user-search { display:flex; gap:8px; width:100%; }\n    .admin-user-search input[type=text] { max-width:none; flex:1 1 auto; }\n    .admin-user-search button { flex:0 0 auto; }\n    .admin-user-list-scroll { display:flex; flex-direction:column; gap:8px; overflow:auto; max-height:62vh; padding-right:3px; }\n    .admin-user-row { display:flex; align-items:center; gap:10px; border:1px solid var(--border); border-radius:16px; background:#11182d; padding:10px; color:var(--text); text-decoration:none; min-width:0; }\n    .admin-user-row:hover { background:#15203a; border-color:#36508d; }\n    .admin-user-row.active { background:#172241; border-color:#4d67b1; box-shadow:inset 0 0 0 1px rgba(255,255,255,.04); }\n    .admin-user-row-avatar, .admin-user-avatar { width:38px; height:38px; border-radius:50%; flex:0 0 auto; overflow:hidden; display:flex; align-items:center; justify-content:center; border:1px solid #314068; background:radial-gradient(circle at 30% 30%, #314a88, #11182d 70%); color:#fff; font-weight:900; }\n    .admin-user-row-avatar-img, .admin-user-avatar-img { width:100%; height:100%; object-fit:cover; display:block; }\n    .admin-user-row-main { min-width:0; flex:1; }\n    .admin-user-row-name { font-weight:900; white-space:nowrap; overflow:hidden; text-overflow:ellipsis; }\n    .admin-user-row-meta { color:var(--muted); font-size:12px; margin-top:2px; }\n    .admin-user-pill { display:inline-flex; align-items:center; justify-content:center; border-radius:999px; border:1px solid var(--border); padding:5px 9px; font-size:12px; font-weight:800; white-space:nowrap; }\n    .admin-user-pill.online { background:#10261b; color:#98e2b8; border-color:#28533a; }\n    .admin-user-pill.offline { background:#151b2f; color:#b8c3e4; border-color:#2e3a63; }\n    .admin-user-pill.banned { background:#251316; color:#ffb4bf; border-color:#5a2730; }\n    .admin-user-pill.clear { background:#141e37; color:#aecdff; border-color:#314a84; }\n    .admin-user-pill.review { background:#2b1b10; color:#ffd19a; border-color:#73522b; }\n    .admin-users-detail { padding:14px; }\n    .admin-user-card { display:flex; flex-direction:column; gap:12px; }\n    .admin-user-card-head { display:flex; justify-content:space-between; align-items:flex-start; gap:12px; }\n    .admin-user-card-ident { display:flex; align-items:center; gap:12px; min-width:0; }\n    .admin-user-avatar { width:56px; height:56px; font-size:22px; cursor:pointer; padding:0; }\n    .admin-user-card-title { min-width:0; }\n    .admin-user-name { font-size:28px; font-weight:900; letter-spacing:-0.03em; line-height:1; word-break:break-word; }\n    .admin-user-sub { color:var(--muted); margin-top:6px; word-break:break-word; }\n    .admin-user-pills { display:flex; gap:8px; flex-wrap:wrap; margin-top:10px; }\n    .admin-user-gear { width:38px; height:38px; padding:0; border-radius:12px; }\n    .admin-user-info-grid { display:grid; grid-template-columns:repeat(2,minmax(0,1fr)); gap:10px; }\n    .admin-user-info-grid.compact { grid-template-columns:repeat(2,minmax(0,1fr)); }\n    .admin-user-info { border:1px solid var(--border); border-radius:16px; background:#11182d; padding:12px; min-width:0; }\n    .admin-user-info span { display:block; color:var(--muted); font-size:11px; text-transform:uppercase; letter-spacing:.07em; margin-bottom:7px; }\n    .admin-user-info strong { display:block; word-break:break-word; }\n    .admin-user-section { border:1px solid var(--border); border-radius:16px; background:#11182d; padding:12px; }\n    .admin-user-section-head { display:flex; justify-content:space-between; gap:10px; margin-bottom:10px; }\n    .admin-user-section-head span { color:var(--muted); font-size:12px; }\n    .admin-report-list { display:flex; flex-direction:column; gap:8px; }\n    .admin-report-row { border:1px solid #2f3d68; border-radius:14px; background:#0d1324; padding:10px; }\n    .admin-report-top { display:flex; justify-content:space-between; gap:8px; align-items:center; margin-bottom:7px; }\n    .admin-report-reason { color:#ffb4bf; font-weight:900; font-size:12px; }\n    .admin-report-status { border:1px solid var(--border); border-radius:999px; padding:4px 8px; font-size:11px; font-weight:800; }\n    .admin-report-status.open { background:#2a1d10; color:#ffc98f; border-color:#6f4b24; }\n    .admin-report-status.done { background:#10261b; color:#98e2b8; border-color:#28533a; }\n    .admin-report-text { line-height:1.45; }\n    .admin-report-meta { color:var(--muted); font-size:12px; margin-top:6px; }\n    .admin-report-actions { display:flex; gap:8px; flex-wrap:wrap; margin-top:8px; }\n    .admin-report-actions form { margin:0; }\n    .admin-report-actions button { padding:7px 10px; font-size:12px; }\n    .admin-suggestions-shell { display:grid; grid-template-columns:minmax(0,1fr) 300px; gap:14px; align-items:start; }\n    .admin-suggestion-list { display:flex; flex-direction:column; gap:10px; }\n    .admin-suggestion-card { border:1px solid var(--border); border-radius:16px; background:#0d1324; padding:14px; }\n    .admin-suggestion-head { display:flex; justify-content:space-between; gap:12px; align-items:flex-start; flex-wrap:wrap; margin-bottom:10px; }\n    .admin-suggestion-title { font-size:17px; font-weight:900; word-break:break-word; }\n    .admin-suggestion-meta { color:var(--muted); font-size:12px; margin-top:4px; word-break:break-word; }\n    .admin-suggestion-text { line-height:1.55; word-break:break-word; white-space:pre-wrap; }\n    .admin-suggestion-actions { display:flex; gap:8px; margin-top:12px; align-items:flex-start; flex-wrap:wrap; }\n    .admin-suggestion-action-form { display:flex; gap:8px; align-items:flex-start; flex:1 1 420px; margin:0; min-width:min(100%,420px); }\n    .admin-suggestion-actions textarea { flex:1 1 240px; max-width:none; min-height:40px; resize:vertical; }\n    .admin-suggestion-actions form.inline-form { margin:0; }\n    .admin-suggestion-actions button { white-space:nowrap; }\n    .admin-suggestion-side { border:1px solid var(--border); border-radius:16px; background:#11182d; padding:14px; position:sticky; top:86px; }\n    .admin-gif-shell { display:grid; grid-template-columns:300px minmax(0,1fr); gap:14px; align-items:start; }\n    .admin-gif-upload { border:1px solid var(--border); border-radius:16px; background:#11182d; padding:14px; position:sticky; top:86px; }\n    .admin-gif-upload form { display:flex; flex-direction:column; gap:10px; }\n    .admin-gif-upload input[type=file] { width:100%; color:var(--muted); }\n    .admin-gif-grid { display:grid; grid-template-columns:repeat(auto-fill,minmax(180px,1fr)); gap:12px; }\n    .admin-gif-card { border:1px solid var(--border); border-radius:16px; background:#0d1324; overflow:hidden; min-width:0; }\n    .admin-gif-thumb { aspect-ratio:1.45/1; background:#060914; display:flex; align-items:center; justify-content:center; }\n    .admin-gif-thumb img { width:100%; height:100%; object-fit:contain; display:block; }\n    .admin-gif-body { padding:10px; display:flex; flex-direction:column; gap:8px; }\n    .admin-gif-name { font-weight:900; white-space:nowrap; overflow:hidden; text-overflow:ellipsis; }\n    .admin-gif-actions { display:flex; gap:8px; flex-wrap:wrap; }\n    .admin-gif-actions form { margin:0; }\n    .admin-download-shell { display:grid; grid-template-columns:300px minmax(0,1fr); gap:14px; align-items:start; }\n    .admin-download-upload { border:1px solid var(--border); border-radius:16px; background:#11182d; padding:14px; position:sticky; top:86px; }\n    .admin-download-upload form { display:flex; flex-direction:column; gap:10px; }\n    .admin-download-upload input[type=file] { width:100%; color:var(--muted); }\n    .admin-download-grid { display:grid; grid-template-columns:repeat(auto-fill,minmax(240px,1fr)); gap:12px; }\n    .admin-download-card { border:1px solid var(--border); border-radius:16px; background:#0d1324; padding:14px; display:flex; flex-direction:column; gap:10px; min-width:0; }\n    .admin-download-top { display:flex; justify-content:space-between; gap:10px; align-items:flex-start; }\n    .admin-download-title { font-weight:900; font-size:16px; word-break:break-word; }\n    .admin-download-meta { color:var(--muted); font-size:12px; line-height:1.45; word-break:break-word; }\n    .admin-download-actions { display:flex; gap:8px; flex-wrap:wrap; margin-top:auto; }\n    .admin-download-actions form { margin:0; }\n    .admin-download-actions a { text-decoration:none; border:1px solid var(--border); background:#151d37; color:var(--text); border-radius:14px; padding:10px 14px; font-weight:800; }\n    .admin-user-actions { display:grid; grid-template-columns:repeat(3,minmax(0,1fr)); gap:10px; }\n    .admin-user-actions form { margin:0; }\n    .admin-ban-reason-input { width:100%; max-width:none; margin-bottom:8px; padding:9px 10px; border-radius:12px; border:1px solid var(--border); background:#090d18; color:var(--text); }\n    .admin-user-actions button { width:100%; }\n    .btn-ok { background:#122b1c; border-color:#28533a; color:#baf0cf; }\n    .btn-ok:hover { background:#173625; }\n    .admin-user-emptyline, .admin-user-empty-detail { border:1px dashed var(--border); border-radius:14px; background:#0f1527; color:var(--muted); padding:18px; text-align:center; }\n    .admin-user-empty-detail { min-height:360px; display:flex; align-items:center; justify-content:center; }\n    .admin-modal-backdrop { position:fixed; inset:0; z-index:1000; background:rgba(0,0,0,.58); display:flex; align-items:center; justify-content:center; padding:20px; }\n    .admin-modal-window { width:min(760px,100%); max-height:90vh; overflow:auto; border:1px solid var(--border); border-radius:22px; background:#0b1020; box-shadow:0 24px 80px rgba(0,0,0,.45); }\n    .admin-modal-head { display:flex; justify-content:space-between; align-items:flex-start; gap:12px; border-bottom:1px solid var(--border); padding:16px; }\n    .admin-modal-title { font-size:24px; font-weight:900; letter-spacing:-.02em; }\n    .admin-modal-sub { color:var(--muted); margin-top:4px; }\n    .admin-modal-close { width:36px; height:36px; padding:0; }\n    .admin-modal-body { padding:16px; display:flex; flex-direction:column; gap:14px; }\n    .admin-modal-avatar { border:1px solid var(--border); border-radius:18px; background:#11182d; min-height:260px; display:flex; align-items:center; justify-content:center; overflow:hidden; }\n    .admin-modal-avatar-img { max-width:100%; max-height:420px; object-fit:contain; display:block; }\n    .admin-modal-avatar-empty { width:120px; height:120px; border-radius:50%; display:flex; align-items:center; justify-content:center; font-size:42px; font-weight:900; background:#172241; border:1px solid #314068; }\n    .admin-modal-actions { display:flex; gap:10px; flex-wrap:wrap; }\n    .admin-modal-actions a { text-decoration:none; border:1px solid var(--border); background:#121933; color:#eef2ff; border-radius:14px; padding:10px 12px; font-weight:800; }\n    .admin-user-toast { position:fixed; right:18px; bottom:18px; z-index:1200; max-width:min(420px,calc(100vw - 36px)); padding:12px 14px; border-radius:14px; border:1px solid #5a2730; background:#2d1420; color:#ffd7df; box-shadow:0 18px 50px rgba(0,0,0,.38); font-weight:800; }\n    .admin-user-toast[data-kind='ok'] { border-color:#28533a; background:#10261b; color:#baf0cf; }\n    .admin-user-toast[hidden] { display:none; }\n    @media (max-width: 980px) { .user-card, .server-row-card, .center-shell, .center-workspace, .panel-shell, .helper-grid, .user-fields, .admin-messenger, .admin-users-grid, .admin-user-info-grid, .admin-user-actions, .admin-suggestions-shell, .admin-gif-shell, .admin-download-shell { grid-template-columns:1fr; } .user-actions, .server-actions { justify-content:flex-start; } .admin-user-list-scroll { max-height:none; } .admin-suggestion-side, .admin-gif-upload, .admin-download-upload { position:static; } }\n    @media (max-width: 640px) { main.admin-main { padding:12px; } header { padding:12px; } .brand { font-size:22px; } .search-row form { flex-direction:column; } .search-row input[type=text], .search-row button { width:100%; } .messenger-frame { margin-top:-62px; height:calc(100% + 62px); } .admin-suggestion-action-form { flex-direction:column; } .admin-suggestion-actions textarea, .admin-suggestion-actions button { width:100%; } }\n    </style>\n    </head>\n    <body>\n    <header>\n    <div class='brand'>Админ-панель</div>\n    <nav class='nav'>");
    push_all(&mut out, nav.as_slice());
    push_lit(&mut out, "</nav>\n    <div class='utc-note'>Время везде: UTC</div>\n    ");
    push_all(&mut out, logout_html.as_slice());
    push_lit(&mut out, "\n    </header>\n    <main class='");
    push_all(&mut out, main_class.as_slice());
    push_lit(&mut out, "'>\n    ");
    push_all(&mut out, msg_html.as_slice());
    push_lit(&mut out, "\n    ");
    push_all(&mut out, chars_of(body).as_slice());
    push_lit(&mut out, "\n    </main>\n    ");
    push_all(&mut out, center_script.as_slice());
    push_all(&mut out, users_script.as_slice());
    push_lit(&mut out, "</body>\n    </html>");
    string_of(out.as_slice())
}

/// `str::replacen(pat, rep, 1)`: the first occurrence of `pat` replaced.
pub open spec fn replace_first(s: Seq<char>, pat: Seq<char>, rep: Seq<char>) -> Seq<char> {
    if contains(s, pat) {
        let i = choose|i: int| occurs_at(s, pat, i) && forall|j: int| 0 <= j < i ==> !occurs_at(s, pat, j);
        s.take(i) + rep + s.skip(i + pat.len())
    } else {
        s
    }
}

fn replace_first_exec(s: &[char], pat: &str, rep: &str) -> (r: Vec<char>)
    ensures
        r@ == replace_first(s@, pat@, rep@),
{
    let p = chars_of(pat);
    match find_chars(s, p.as_slice()) {
        Some(i) => {
            proof {
                let k = choose|k: int| occurs_at(s@, p@, k) && forall|j: int| 0 <= j < k ==> !occurs_at(s@, p@, j);
                if k < i {
                    assert(!occurs_at(s@, p@, k));
                } else if i < k {
                    assert(!occurs_at(s@, p@, i as int));
                }
                assert(k == i);
            }
            assert(occurs_at(s@, p@, i as int));
            assert(i + p.len() <= s.len());
            let mut out = slice_chars(s, 0, i);
            push_lit(&mut out, rep);
            push_all(&mut out, slice_chars(s, i + p.len(), s.len()).as_slice());
            proof {
                assert(s@.take(i as int) =~= s@.subrange(0, i as int));
                assert(s@.skip(i + p@.len()) =~= s@.subrange(i + p@.len(), s@.len() as int));
            }
            out
        },
        None => copy_chars(s),
    }
}

/// A panel page for embedding in the centre: the header hidden and the main
/// area full width.
pub open spec fn embedded_page_spec(title: Seq<char>, body: Seq<char>, msg: Option<Seq<char>>) -> Seq<char> {
    replace_first(
        replace_first(page_spec(title, body, msg), "<header>"@, "<header style='display:none'>"@),
        "<main class='admin-main'>"@,
        "<main class='admin-main' style='max-width:none;padding:12px;'>"@,
    )
}

pub fn embedded_page(title: &str, body: &str, msg: Option<&str>) -> (html: String)
    ensures
        html@ == embedded_page_spec(
            title@,
            body@,
            match msg {
                Some(m) => Some(m@),
                None => None,
            },
        ),
{
    let full = page(title, body, msg);
    let a = replace_first_exec(chars_of(full.as_str()).as_slice(), "<header>", "<header style='display:none'>");
    let b = replace_first_exec(
        a.as_slice(),
        "<main class='admin-main'>",
        "<main class='admin-main' style='max-width:none;padding:12px;'>",
    );
    string_of(b.as_slice())
}


// ---------------------------------------------------------------------------
// The control centre
// ---------------------------------------------------------------------------

/// The user shown first in the control centre: the one asked for, else the
/// first listed user that the mode admits.
pub open spec fn first_in_mode(users: Seq<UserRow>, mode: Seq<char>) -> Option<i64>
    decreases users.len(),
{
    if users.len() == 0 {
        None
    } else if user_mode_matches_spec(users[0].is_banned, users[0].trust_review_status@, users[0].trust_factor, mode) {
        Some(users[0].id)
    } else {
        first_in_mode(users.drop_first(), mode)
    }
}

pub fn center_selected_user(requested: Option<i64>, users: &[UserRow], mode: &str) -> (r: Option<i64>)
    ensures
        r == (match requested {
            Some(id) => Some(id),
            None => first_in_mode(users@, mode@),
        }),
{
    if requested.is_some() {
        return requested;
    }
    let mut i: usize = 0;
    proof {
        assert(users@.skip(0) =~= users@);
    }
    while i < users.len()
        invariant
            requested is None,
            i <= users@.len(),
            first_in_mode(users@, mode@) == first_in_mode(users@.skip(i as int), mode@),
        decreases users@.len() - i,
    {
        proof {
            assert(users@.skip(i as int).drop_first() =~= users@.skip(i as int + 1));
        }
        if user_mode_matches(&users[i], mode) {
            return Some(users[i].id);
        }
        i = i + 1;
    }
    None
}

/// The search text of a server card: its id, and its name and owner in
/// lower case.
pub open spec fn center_filter_spec(s: AdminServerRow) -> Seq<char> {
    "#"@ + int_text(s.id as int) + " "@ + unicode_lower(s.name@) + " "@ + unicode_lower(s.owner_username@)
}

fn center_filter(s: &AdminServerRow) -> (r: String)
    ensures
        r@ == center_filter_spec(*s),
{
    let mut out = chars_of("#");
    push_all(&mut out, i64_text(s.id).as_slice());
    push_lit(&mut out, " ");
    push_all(&mut out, chars_of(to_lowercase(s.name.as_str()).as_str()).as_slice());
    push_lit(&mut out, " ");
    push_all(&mut out, chars_of(to_lowercase(s.owner_username.as_str()).as_str()).as_slice());
    string_of(out.as_slice())
}

/// One server card of the control centre, with its search text and actions.
pub open spec fn center_server_card_spec(csrf: Seq<char>, s: AdminServerRow) -> Seq<char> {
    "<div class='server-row-card' data-filter-item='servers' data-filter='"@ + escape_html_spec(center_filter_spec(s)) + "'>\n  <div class='server-main'>\n    <div class='server-top'>\n      <div class='server-title'>\n        <span class='server-id'>#"@ + int_text(s.id as int) + "</span>\n        <span class='server-name'>"@ + escape_html_spec(s.name@) + "</span>\n      </div>\n      <div class='user-meta'>Создан: "@ + escape_html_spec(admin_dt_spec(s.created_at@)) + "</div>\n    </div>\n    <div class='server-meta'>Владелец: #"@ + int_text(s.owner_id as int) + " "@ + escape_html_spec(s.owner_username@) + "</div>\n  </div>\n  <div class='server-actions'>\n    <form method='post' action='/admin/servers/"@ + int_text(s.id as int) + "/add_all_users' class='inline-form'>\n      <input type='hidden' name='csrf' value='"@ + escape_html_spec(csrf) + "' />\n      <input type='hidden' name='return_to' value='/admin/center?view=servers' />\n      <button type='submit' class='btn-soft'>Добавить всех пользователей</button>\n    </form>\n    <form method='post' action='/admin/servers/"@ + int_text(s.id as int) + "/delete' class='inline-form'>\n      <input type='hidden' name='csrf' value='"@ + escape_html_spec(csrf) + "' />\n      <input type='hidden' name='return_to' value='/admin/center' />\n      <button type='submit' class='btn-danger'>Удалить сервер</button>\n    </form>\n  </div>\n</div>"@
}

pub fn render_center_server_card(csrf: &str, s: &AdminServerRow) -> (html: Vec<char>)
    ensures
        html@ == center_server_card_spec(csrf@, *s),
{
    let filter = center_filter(s);
    let mut out = chars_of("<div class='server-row-card' data-filter-item='servers' data-filter='");
    push_all(&mut out, esc(filter.as_str()).as_slice());
    push_lit(&mut out, "'>\n  <div class='server-main'>\n    <div class='server-top'>\n      <div class='server-title'>\n        <span class='server-id'>#");
    push_all(&mut out, i64_text(s.id).as_slice());
    push_lit(&mut out, "</span>\n        <span class='server-name'>");
    push_all(&mut out, esc(s.name.as_str()).as_slice());
    push_lit(&mut out, "</span>\n      </div>\n      <div class='user-meta'>Создан: ");
    push_all(&mut out, esc(fmt_admin_dt(s.created_at.as_str()).as_str()).as_slice());
    push_lit(&mut out, "</div>\n    </div>\n    <div class='server-meta'>Владелец: #");
    push_all(&mut out, i64_text(s.owner_id).as_slice());
    push_lit(&mut out, " ");
    push_all(&mut out, esc(s.owner_username.as_str()).as_slice());
    push_lit(&mut out, "</div>\n  </div>\n  <div class='server-actions'>\n    <form method='post' action='/admin/servers/");
    push_all(&mut out, i64_text(s.id).as_slice());
    push_lit(&mut out, "/add_all_users' class='inline-form'>\n      <input type='hidden' name='csrf' value='");
    push_all(&mut out, esc(csrf).as_slice());
    push_lit(&mut out, "' />\n      <input type='hidden' name='return_to' value='/admin/center?view=servers' />\n      <button type='submit' class='btn-soft'>Добавить всех пользователей</button>\n    </form>\n    <form method='post' action='/admin/servers/");
    push_all(&mut out, i64_text(s.id).as_slice());
    push_lit(&mut out, "/delete' class='inline-form'>\n      <input type='hidden' name='csrf' value='");
    push_all(&mut out, esc(csrf).as_slice());
    push_lit(&mut out, "' />\n      <input type='hidden' name='return_to' value='/admin/center' />\n      <button type='submit' class='btn-danger'>Удалить сервер</button>\n    </form>\n  </div>\n</div>");
    out
}


/// The overview panel of the control centre, with its three totals.
pub open spec fn center_overview_spec(users_total: i64, servers_total: i64, banned_total: i64) -> Seq<char> {
    "<div class='center-hero'>\n  <div>\n    <h2 class='center-hero-title'>Центр управления</h2>\n    <div class='center-hero-sub'>Одна рабочая область для админки и мессенджера. Секции раскрываются по всей доступной ширине, а поиски и выбранная панель сохраняются.</div>\n  </div>\n        <div class='center-stat-row'>\n        <div class='center-stat'><div class='center-stat-label'>Пользователи</div><div class='center-stat-value'>"@ + int_text(users_total as int) + "</div></div>\n        <div class='center-stat'><div class='center-stat-label'>Серверы</div><div class='center-stat-value'>"@ + int_text(servers_total as int) + "</div></div>\n        <div class='center-stat'><div class='center-stat-label'>Заблокировано</div><div class='center-stat-value'>"@ + int_text(banned_total as int) + "</div></div>\n    </div>\n</div>\n<div class='helper-grid'>\n  <div class='helper-card'><h3>Навигация</h3><div class='center-note-list'>\n    <div class='center-note-line'>• слева выбираешь нужную секцию;</div>\n    <div class='center-note-line'>• справа открывается рабочая область без перезагрузки;</div>\n    <div class='center-note-line'>• состояние панели сохраняется после обновления.</div>\n  </div></div>\n  <div class='helper-card'><h3>Модерация</h3><div class='center-note-list'>\n    <div class='center-note-line'>• репорты видны в карточке пользователя;</div>\n    <div class='center-note-line'>• предложения вынесены в отдельную панель;</div>\n    <div class='center-note-line'>• опасные действия требуют админ-доступ.</div>\n  </div></div>\n    <div class='helper-card'><h3>Мониторинг</h3><div class='center-note-list'>\n        <div class='center-note-line'>• время в админке показывается в UTC.</div>\n    </div></div>\n</div>"@
}

pub fn render_center_overview(users_total: i64, servers_total: i64, banned_total: i64) -> (html: String)
    ensures
        html@ == center_overview_spec(users_total, servers_total, banned_total),
{
    let mut out = chars_of("<div class='center-hero'>\n  <div>\n    <h2 class='center-hero-title'>Центр управления</h2>\n    <div class='center-hero-sub'>Одна рабочая область для админки и мессенджера. Секции раскрываются по всей доступной ширине, а поиски и выбранная панель сохраняются.</div>\n  </div>\n        <div class='center-stat-row'>\n        <div class='center-stat'><div class='center-stat-label'>Пользователи</div><div class='center-stat-value'>");
    push_all(&mut out, i64_text(users_total).as_slice());
    push_lit(&mut out, "</div></div>\n        <div class='center-stat'><div class='center-stat-label'>Серверы</div><div class='center-stat-value'>");
    push_all(&mut out, i64_text(servers_total).as_slice());
    push_lit(&mut out, "</div></div>\n        <div class='center-stat'><div class='center-stat-label'>Заблокировано</div><div class='center-stat-value'>");
    push_all(&mut out, i64_text(banned_total).as_slice());
    push_lit(&mut out, "</div></div>\n    </div>\n</div>\n<div class='helper-grid'>\n  <div class='helper-card'><h3>Навигация</h3><div class='center-note-list'>\n    <div class='center-note-line'>• слева выбираешь нужную секцию;</div>\n    <div class='center-note-line'>• справа открывается рабочая область без перезагрузки;</div>\n    <div class='center-note-line'>• состояние панели сохраняется после обновления.</div>\n  </div></div>\n  <div class='helper-card'><h3>Модерация</h3><div class='center-note-list'>\n    <div class='center-note-line'>• репорты видны в карточке пользователя;</div>\n    <div class='center-note-line'>• предложения вынесены в отдельную панель;</div>\n    <div class='center-note-line'>• опасные действия требуют админ-доступ.</div>\n  </div></div>\n    <div class='helper-card'><h3>Мониторинг</h3><div class='center-note-list'>\n        <div class='center-note-line'>• время в админке показывается в UTC.</div>\n    </div></div>\n</div>");
    string_of(out.as_slice())
}


/// The control centre: a sidebar of sections and a stage holding each panel.
pub open spec fn center_body_spec(overview_panel: Seq<char>, users_panel: Seq<char>, suggestions_panel: Seq<char>, servers_panel: Seq<char>, downloads_panel: Seq<char>, db_panel: Seq<char>) -> Seq<char> {
    "<div class='panel-shell'>\n        <aside class='panel-sidebar'>\n        <button type='button' class='center-nav-item panel-switch' data-center-switch='overview'><strong>Центр</strong><span class='small'>Общий вид и точка входа в остальные панели.</span></button>\n        <button type='button' class='center-nav-item panel-switch' data-center-switch='users'><strong>Пользователи</strong><span class='small'>Почта, ник и действия по аккаунтам без прыжков по страницам.</span></button>\n        <button type='button' class='center-nav-item panel-switch' data-center-switch='suggestions'><strong>Предложения</strong><span class='small'>Идеи пользователей из настроек и быстрый просмотр статусов.</span></button>\n        <button type='button' class='center-nav-item panel-switch' data-center-switch='servers'><strong>Серверы</strong><span class='small'>Проверка владельцев и удаление прямо внутри рабочей области.</span></button>\n        <button type='button' class='center-nav-item panel-switch' data-center-switch='downloads'><strong>Загрузки</strong><span class='small'>APK и ПК клиент, которые сервер отдает на странице скачивания.</span></button>\n        <button type='button' class='center-nav-item panel-switch' data-center-switch='db'><strong>База данных</strong><span class='small'>Сервисные действия и обслуживание без отдельной вкладки.</span></button>\n    </aside>\n    <section class='panel-stage'>\n        <div class='panel-stage-header'>\n        <div>\n            <div class='panel-stage-title' data-center-stage-title>Центр управления</div>\n            <div class='panel-stage-sub' data-center-stage-sub>Одна рабочая страница для админки и внутреннего мониторинга мессенджера.</div>\n        </div>\n        </div>\n        <div class='panel-stage-body'>\n        <div class='panel-view' data-panel-view='overview' data-stage-title='Центр управления' data-stage-sub='Одна рабочая страница для админки и внутреннего мониторинга мессенджера.'>"@ + overview_panel + "</div>\n        <div class='panel-view' data-panel-view='users' data-stage-title='Пользователи' data-stage-sub=''>"@ + users_panel + "</div>\n        <div class='panel-view' data-panel-view='suggestions' data-stage-title='Предложения' data-stage-sub='Идеи пользователей из настроек и статус их рассмотрения.'>"@ + suggestions_panel + "</div>\n        <div class='panel-view' data-panel-view='servers' data-stage-title='Панель серверов' data-stage-sub='Проверка серверов и действия с ними в общей рабочей области.'>"@ + servers_panel + "</div>\n        <div class='panel-view' data-panel-view='downloads' data-stage-title='Загрузки приложения' data-stage-sub='APK и ПК клиент, которые пользователи скачивают с сервера.'>"@ + downloads_panel + "</div>\n        <div class='panel-view' data-panel-view='db' data-stage-title='Панель базы данных' data-stage-sub='Сервисные инструменты открываются здесь же, без переходов по страницам.'>"@ + db_panel + "</div>\n                <!-- GIF, Messenger and Homie panels are hidden -->\n        </div>\n    </section>\n    </div>"@
}

pub fn render_center_body(overview_panel: &str, users_panel: &str, suggestions_panel: &str, servers_panel: &str, downloads_panel: &str, db_panel: &str) -> (html: String)
    ensures
        html@ == center_body_spec(overview_panel@, users_panel@, suggestions_panel@, servers_panel@, downloads_panel@, db_panel@),
{
    let mut out = chars_of("<div class='panel-shell'>\n        <aside class='panel-sidebar'>\n        <button type='button' class='center-nav-item panel-switch' data-center-switch='overview'><strong>Центр</strong><span class='small'>Общий вид и точка входа в остальные панели.</span></button>\n        <button type='button' class='center-nav-item panel-switch' data-center-switch='users'><strong>Пользователи</strong><span class='small'>Почта, ник и действия по аккаунтам без прыжков по страницам.</span></button>\n        <button type='button' class='center-nav-item panel-switch' data-center-switch='suggestions'><strong>Предложения</strong><span class='small'>Идеи пользователей из настроек и быстрый просмотр статусов.</span></button>\n        <button type='button' class='center-nav-item panel-switch' data-center-switch='servers'><strong>Серверы</strong><span class='small'>Проверка владельцев и удаление прямо внутри рабочей области.</span></button>\n        <button type='button' class='center-nav-item panel-switch' data-center-switch='downloads'><strong>Загрузки</strong><span class='small'>APK и ПК клиент, которые сервер отдает на странице скачивания.</span></button>\n        <button type='button' class='center-nav-item panel-switch' data-center-switch='db'><strong>База данных</strong><span class='small'>Сервисные действия и обслуживание без отдельной вкладки.</span></button>\n    </aside>\n    <section class='panel-stage'>\n        <div class='panel-stage-header'>\n        <div>\n            <div class='panel-stage-title' data-center-stage-title>Центр управления</div>\n            <div class='panel-stage-sub' data-center-stage-sub>Одна рабочая страница для админки и внутреннего мониторинга мессенджера.</div>\n        </div>\n        </div>\n        <div class='panel-stage-body'>\n        <div class='panel-view' data-panel-view='overview' data-stage-title='Центр управления' data-stage-sub='Одна рабочая страница для админки и внутреннего мониторинга мессенджера.'>");
    push_all(&mut out, chars_of(overview_panel).as_slice());
    push_lit(&mut out, "</div>\n        <div class='panel-view' data-panel-view='users' data-stage-title='Пользователи' data-stage-sub=''>");
    push_all(&mut out, chars_of(users_panel).as_slice());
    push_lit(&mut out, "</div>\n        <div class='panel-view' data-panel-view='suggestions' data-stage-title='Предложения' data-stage-sub='Идеи пользователей из настроек и статус их рассмотрения.'>");
    push_all(&mut out, chars_of(suggestions_panel).as_slice());
    push_lit(&mut out, "</div>\n        <div class='panel-view' data-panel-view='servers' data-stage-title='Панель серверов' data-stage-sub='Проверка серверов и действия с ними в общей рабочей области.'>");
    push_all(&mut out, chars_of(servers_panel).as_slice());
    push_lit(&mut out, "</div>\n        <div class='panel-view' data-panel-view='downloads' data-stage-title='Загрузки приложения' data-stage-sub='APK и ПК клиент, которые пользователи скачивают с сервера.'>");
    push_all(&mut out, chars_of(downloads_panel).as_slice());
    push_lit(&mut out, "</div>\n        <div class='panel-view' data-panel-view='db' data-stage-title='Панель базы данных' data-stage-sub='Сервисные инструменты открываются здесь же, без переходов по страницам.'>");
    push_all(&mut out, chars_of(db_panel).as_slice());
    push_lit(&mut out, "</div>\n                <!-- GIF, Messenger and Homie panels are hidden -->\n        </div>\n    </section>\n    </div>");
    string_of(out.as_slice())
}


/// The server cards of the control centre, in order.
pub open spec fn center_cards_spec(csrf: Seq<char>, servers: Seq<AdminServerRow>) -> Seq<char>
    decreases servers.len(),
{
    if servers.len() == 0 {
        Seq::empty()
    } else {
        center_cards_spec(csrf, servers.drop_last()) + center_server_card_spec(csrf, servers.last())
    }
}

/// The server panel rows of the control centre: the cards, or a note that
/// there are none.
pub open spec fn center_servers_spec(csrf: Seq<char>, servers: Seq<AdminServerRow>) -> Seq<char> {
    let cards = center_cards_spec(csrf, servers);
    if cards.len() == 0 {
        "<div class='empty-state'>Серверы не найдены.</div>"@
    } else {
        cards
    }
}

pub fn render_center_servers(csrf: &str, servers: &[AdminServerRow]) -> (html: String)
    ensures
        html@ == center_servers_spec(csrf@, servers@),
{
    let mut out: Vec<char> = Vec::new();
    let mut i: usize = 0;
    while i < servers.len()
        invariant
            i <= servers@.len(),
            out@ == center_cards_spec(csrf@, servers@.take(i as int)),
        decreases servers@.len() - i,
    {
        let card = render_center_server_card(csrf, &servers[i]);
        push_all(&mut out, card.as_slice());
        proof {
            assert(servers@.take(i + 1).drop_last() =~= servers@.take(i as int));
            assert(servers@.take(i + 1).last() == servers@[i as int]);
        }
        i = i + 1;
    }
    proof {
        assert(servers@.take(servers@.len() as int) =~= servers@);
    }
    if out.len() == 0 {
        String::from_str("<div class='empty-state'>Серверы не найдены.</div>")
    } else {
        string_of(out.as_slice())
    }
}


/// The warning the sign-in page shows while no administrator password is
/// configured.
pub open spec fn login_warning_spec(password_configured: bool) -> Seq<char> {
    if password_configured {
        Seq::empty()
    } else {
        "<div class='warn'>LB_ADMIN_PASSWORD_HASH / LB_ADMIN_PASSWORD не настроен. Опасные действия для обычных пользователей и серверов будут заблокированы.</div>"@
    }
}

/// The sign-in card of the panel, naming the listener it is served on.
pub open spec fn login_body_spec(base: Seq<char>, password_configured: bool) -> Seq<char> {
    "<div class='card'>\n        <h2>Вход</h2>\n        <p class='small'>Admin listener: <code>"@ + escape_html_spec(base) + "</code></p>\n        <form id='admin-login-form' method='post' action='/admin/login'>\n        <div class='small'>Пароль администратора</div>\n        <input type='password' name='password' autocomplete='current-password' required />\n        <div style='height:10px'></div>\n        <button type='submit'>Войти</button>\n        </form>\n        "@ + login_warning_spec(password_configured) + "\n        </div>"@
}

pub fn render_login_body(base: &str, password_configured: bool) -> (html: String)
    ensures
        html@ == login_body_spec(base@, password_configured),
{
    let warn: Vec<char> = if password_configured {
        Vec::new()
    } else {
        chars_of("<div class='warn'>LB_ADMIN_PASSWORD_HASH / LB_ADMIN_PASSWORD не настроен. Опасные действия для обычных пользователей и серверов будут заблокированы.</div>")
    };
    let mut out = chars_of("<div class='card'>\n        <h2>Вход</h2>\n        <p class='small'>Admin listener: <code>");
    push_all(&mut out, esc(base).as_slice());
    push_lit(&mut out, "</code></p>\n        <form id='admin-login-form' method='post' action='/admin/login'>\n        <div class='small'>Пароль администратора</div>\n        <input type='password' name='password' autocomplete='current-password' required />\n        <div style='height:10px'></div>\n        <button type='submit'>Войти</button>\n        </form>\n        ");
    push_all(&mut out, warn.as_slice());
    push_lit(&mut out, "\n        </div>");
    string_of(out.as_slice())
}

} // verus!
