//! The administration panel's user views: user cards, reports and test
//! accounts.

use vstd::prelude::*;
use crate::admin::{
    AdminSession, UserReportRow, UserRow, admin_dt_spec, cookie_consent_label,
    cookie_consent_label_spec, fmt_admin_dt, initial_spec, needs_review, reason_label,
    reason_label_spec, report_status_label, report_status_label_spec, trust_review_label,
    trust_review_label_spec, user_initial,
};
use crate::html::{escape_chars, escape_html_spec};
use crate::text::{
    chars_of, eq_lit, i64_text, int_text, nat_text, push_all, push_lit, string_of,
    trim, trim_chars, u64_text,
};

verus! {

/// The HTML-escaped characters of a text.
pub fn esc(s: &str) -> (r: Vec<char>)
    ensures
        r@ == escape_html_spec(s@),
{
    escape_chars(chars_of(s).as_slice())
}

fn is_blank(s: &str) -> (r: bool)
    ensures
        r == (trim(s@).len() == 0),
{
    trim_chars(chars_of(s).as_slice()).len() == 0
}


/// The buttons that settle an open report.
pub open spec fn report_actions_spec(id: i64, csrf: Seq<char>, return_to: Seq<char>) -> Seq<char> {
    "<div class='admin-report-actions'>\n  <form method='post' action='/admin/reports/"@ + int_text(id as int) + "/status' data-ajax-report-status>\n    <input type='hidden' name='csrf' value='"@ + escape_html_spec(csrf) + "' />\n    <input type='hidden' name='return_to' value='"@ + escape_html_spec(return_to) + "' />\n    <input type='hidden' name='status' value='reviewed' />\n    <button type='submit' class='btn-soft'>Просмотрено</button>\n  </form>\n  <form method='post' action='/admin/reports/"@ + int_text(id as int) + "/status' data-ajax-report-status>\n    <input type='hidden' name='csrf' value='"@ + escape_html_spec(csrf) + "' />\n    <input type='hidden' name='return_to' value='"@ + escape_html_spec(return_to) + "' />\n    <input type='hidden' name='status' value='rejected' />\n    <button type='submit' class='btn-soft'>Отклонить</button>\n  </form>\n</div>"@
}

fn report_actions(id: i64, csrf: &str, return_to: &str) -> (html: Vec<char>)
    ensures
        html@ == report_actions_spec(id, csrf@, return_to@),
{
    let mut out = chars_of("<div class='admin-report-actions'>\n  <form method='post' action='/admin/reports/");
    push_all(&mut out, i64_text(id).as_slice());
    push_lit(&mut out, "/status' data-ajax-report-status>\n    <input type='hidden' name='csrf' value='");
    push_all(&mut out, esc(csrf).as_slice());
    push_lit(&mut out, "' />\n    <input type='hidden' name='return_to' value='");
    push_all(&mut out, esc(return_to).as_slice());
    push_lit(&mut out, "' />\n    <input type='hidden' name='status' value='reviewed' />\n    <button type='submit' class='btn-soft'>Просмотрено</button>\n  </form>\n  <form method='post' action='/admin/reports/");
    push_all(&mut out, i64_text(id).as_slice());
    push_lit(&mut out, "/status' data-ajax-report-status>\n    <input type='hidden' name='csrf' value='");
    push_all(&mut out, esc(csrf).as_slice());
    push_lit(&mut out, "' />\n    <input type='hidden' name='return_to' value='");
    push_all(&mut out, esc(return_to).as_slice());
    push_lit(&mut out, "' />\n    <input type='hidden' name='status' value='rejected' />\n    <button type='submit' class='btn-soft'>Отклонить</button>\n  </form>\n</div>");
    out
}


/// The text of a report as listed: its message escaped, or a stock text.
pub open spec fn report_message_spec(message: Seq<char>) -> Seq<char> {
    if trim(message).len() == 0 {
        "Без комментария"@
    } else {
        escape_html_spec(message)
    }
}

/// The message a report points at, when it points at one.
pub open spec fn report_msg_id_spec(message_id: Option<i64>) -> Seq<char> {
    match message_id {
        Some(id) => " · сообщение #"@ + int_text(id as int),
        None => seq![],
    }
}

pub open spec fn open_done(status: Seq<char>) -> Seq<char> {
    if status == "open"@ {
        "open"@
    } else {
        "done"@
    }
}

pub open spec fn report_actions_for(csrf: Seq<char>, r: UserReportRow, return_to: Seq<char>) -> Seq<char> {
    if r.status@ == "open"@ {
        report_actions_spec(r.id, csrf, return_to)
    } else {
        seq![]
    }
}


/// One report in a user's report list.
pub open spec fn report_row_spec(csrf: Seq<char>, r: UserReportRow, return_to: Seq<char>) -> Seq<char> {
    "<div class='admin-report-row'>\n  <div class='admin-report-top'>\n    <span class='admin-report-reason'>"@ + reason_label_spec(r.reason@) + "</span>\n    <span class='admin-report-status "@ + open_done(r.status@) + "'>"@ + report_status_label_spec(r.status@) + "</span>\n  </div>\n  <div class='admin-report-text'>"@ + report_message_spec(r.message@) + "</div>\n  <div class='admin-report-meta'>От: #"@ + int_text(r.reporter_id as int) + " "@ + escape_html_spec(r.reporter_username@) + " · "@ + escape_html_spec(admin_dt_spec(r.created_at@)) + escape_html_spec(report_msg_id_spec(r.message_id)) + "</div>\n  "@ + report_actions_for(csrf, r, return_to) + "\n</div>"@
}

fn report_row(csrf: &str, r: &UserReportRow, return_to: &str) -> (html: Vec<char>)
    ensures
        html@ == report_row_spec(csrf@, *r, return_to@),
{
    let message: Vec<char> = if is_blank(r.message.as_str()) {
        chars_of("Без комментария")
    } else {
        esc(r.message.as_str())
    };
    let msg_id: Vec<char> = match r.message_id {
        Some(id) => {
            let mut m = chars_of(" · сообщение #");
            push_all(&mut m, i64_text(id).as_slice());
            m
        },
        None => Vec::new(),
    };
    let is_open = eq_lit(chars_of(r.status.as_str()).as_slice(), "open");
    let actions: Vec<char> = if is_open {
        report_actions(r.id, csrf, return_to)
    } else {
        Vec::new()
    };
    let status_class = if is_open {
        chars_of("open")
    } else {
        chars_of("done")
    };
    let mut out = chars_of("<div class='admin-report-row'>\n  <div class='admin-report-top'>\n    <span class='admin-report-reason'>");
    push_all(&mut out, chars_of(reason_label(r.reason.as_str())).as_slice());
    push_lit(&mut out, "</span>\n    <span class='admin-report-status ");
    push_all(&mut out, status_class.as_slice());
    push_lit(&mut out, "'>");
    push_all(&mut out, chars_of(report_status_label(r.status.as_str())).as_slice());
    push_lit(&mut out, "</span>\n  </div>\n  <div class='admin-report-text'>");
    push_all(&mut out, message.as_slice());
    push_lit(&mut out, "</div>\n  <div class='admin-report-meta'>От: #");
    push_all(&mut out, i64_text(r.reporter_id).as_slice());
    push_lit(&mut out, " ");
    push_all(&mut out, esc(r.reporter_username.as_str()).as_slice());
    push_lit(&mut out, " · ");
    push_all(&mut out, esc(fmt_admin_dt(r.created_at.as_str()).as_str()).as_slice());
    push_all(&mut out, escape_chars(msg_id.as_slice()).as_slice());
    push_lit(&mut out, "</div>\n  ");
    push_all(&mut out, actions.as_slice());
    push_lit(&mut out, "\n</div>");
    out
}


pub open spec fn report_rows(csrf: Seq<char>, rs: Seq<UserReportRow>, return_to: Seq<char>) -> Seq<char>
    decreases rs.len(),
{
    if rs.len() == 0 {
        seq![]
    } else {
        report_rows(csrf, rs.drop_last(), return_to) + report_row_spec(csrf, rs.last(), return_to)
    }
}

/// A user's reports, newest as given, or a line saying there are none.
pub open spec fn user_reports_spec(csrf: Seq<char>, rs: Seq<UserReportRow>, return_to: Seq<char>) -> Seq<char> {
    if rs.len() == 0 {
        "<div class='admin-user-emptyline'>Репортов по этому пользователю нет.</div>"@
    } else {
        report_rows(csrf, rs, return_to)
    }
}

pub fn render_user_reports_html(sess: &AdminSession, reports: &[UserReportRow], return_to: &str) -> (r: String)
    ensures
        r@ == user_reports_spec(sess.csrf@, reports@, return_to@),
{
    if reports.len() == 0 {
        return String::from_str("<div class='admin-user-emptyline'>Репортов по этому пользователю нет.</div>");
    }
    let csrf = sess.csrf.as_str();
    let mut out: Vec<char> = Vec::new();
    let mut i: usize = 0;
    while i < reports.len()
        invariant
            i <= reports.len(),
            csrf@ == sess.csrf@,
            out@ == report_rows(csrf@, reports@.take(i as int), return_to@),
        decreases reports.len() - i,
    {
        let row = report_row(csrf, &reports[i], return_to);
        push_all(&mut out, row.as_slice());
        proof {
            let t = reports@.take(i + 1);
            assert(t.drop_last() =~= reports@.take(i as int));
            assert(t.last() == reports@[i as int]);
        }
        i = i + 1;
    }
    proof {
        assert(reports@.take(reports@.len() as int) =~= reports@);
    }
    string_of(out.as_slice())
}

/// The form that lifts a ban.
pub open spec fn unban_form_spec(id: i64, csrf: Seq<char>, return_to: Seq<char>) -> Seq<char> {
    "<form method='post' action='/admin/users/"@ + int_text(id as int) + "/unban' data-ajax-user-action>\n  <input type='hidden' name='csrf' value='"@ + escape_html_spec(csrf) + "' />\n  <input type='hidden' name='return_to' value='"@ + escape_html_spec(return_to) + "' />\n  <button type='submit' class='btn-ok'>Разбанить</button>\n</form>"@
}

fn unban_form(id: i64, csrf: &str, return_to: &str) -> (html: Vec<char>)
    ensures
        html@ == unban_form_spec(id, csrf@, return_to@),
{
    let mut out = chars_of("<form method='post' action='/admin/users/");
    push_all(&mut out, i64_text(id).as_slice());
    push_lit(&mut out, "/unban' data-ajax-user-action>\n  <input type='hidden' name='csrf' value='");
    push_all(&mut out, esc(csrf).as_slice());
    push_lit(&mut out, "' />\n  <input type='hidden' name='return_to' value='");
    push_all(&mut out, esc(return_to).as_slice());
    push_lit(&mut out, "' />\n  <button type='submit' class='btn-ok'>Разбанить</button>\n</form>");
    out
}


/// The form that bans a user, with a reason.
pub open spec fn ban_form_spec(id: i64, csrf: Seq<char>, return_to: Seq<char>) -> Seq<char> {
    "<form method='post' action='/admin/users/"@ + int_text(id as int) + "/ban' data-ajax-user-action>\n  <input type='hidden' name='csrf' value='"@ + escape_html_spec(csrf) + "' />\n  <input type='hidden' name='return_to' value='"@ + escape_html_spec(return_to) + "' />\n  <input type='text' name='reason' class='admin-ban-reason-input' placeholder='Причина бана' maxlength='180' />\n  <button type='submit' class='btn-soft'>Заблокировать</button>\n</form>"@
}

fn ban_form(id: i64, csrf: &str, return_to: &str) -> (html: Vec<char>)
    ensures
        html@ == ban_form_spec(id, csrf@, return_to@),
{
    let mut out = chars_of("<form method='post' action='/admin/users/");
    push_all(&mut out, i64_text(id).as_slice());
    push_lit(&mut out, "/ban' data-ajax-user-action>\n  <input type='hidden' name='csrf' value='");
    push_all(&mut out, esc(csrf).as_slice());
    push_lit(&mut out, "' />\n  <input type='hidden' name='return_to' value='");
    push_all(&mut out, esc(return_to).as_slice());
    push_lit(&mut out, "' />\n  <input type='text' name='reason' class='admin-ban-reason-input' placeholder='Причина бана' maxlength='180' />\n  <button type='submit' class='btn-soft'>Заблокировать</button>\n</form>");
    out
}


pub open spec fn email_html_spec(email: Seq<char>) -> Seq<char> {
    if trim(email).len() == 0 {
        "без e-mail"@
    } else {
        escape_html_spec(email)
    }
}

fn email_html(email: &str) -> (html: Vec<char>)
    ensures
        html@ == email_html_spec(email@),
{
    if is_blank(email) {
        chars_of("без e-mail")
    } else {
        esc(email)
    }
}

/// The last time a user was seen, or a note that it is unknown.
pub open spec fn last_seen_spec(presence_updated_at: Seq<char>) -> Seq<char> {
    if trim(presence_updated_at).len() == 0 {
        "нет данных"@
    } else {
        admin_dt_spec(presence_updated_at)
    }
}

fn last_seen(presence_updated_at: &str) -> (t: Vec<char>)
    ensures
        t@ == last_seen_spec(presence_updated_at@),
{
    if is_blank(presence_updated_at) {
        chars_of("нет данных")
    } else {
        chars_of(fmt_admin_dt(presence_updated_at).as_str())
    }
}

pub open spec fn card_avatar_spec(avatar_file_id: Option<i64>, username: Seq<char>) -> Seq<char> {
    match avatar_file_id {
        Some(fid) => "<img class='admin-user-avatar-img' src='/admin/profile-files/"@ + int_text(fid as int)
            + "/raw' alt='avatar' />"@,
        None => escape_html_spec(initial_spec(username)),
    }
}

fn card_avatar(avatar_file_id: Option<i64>, username: &str) -> (html: Vec<char>)
    ensures
        html@ == card_avatar_spec(avatar_file_id, username@),
{
    match avatar_file_id {
        Some(fid) => {
            let mut out = chars_of("<img class='admin-user-avatar-img' src='/admin/profile-files/");
            push_all(&mut out, i64_text(fid).as_slice());
            push_lit(&mut out, "/raw' alt='avatar' />");
            out
        },
        None => esc(user_initial(username).as_str()),
    }
}

pub open spec fn trust_label_spec(review: bool, trust_factor: i64) -> Seq<char> {
    if review {
        "Проверка"@
    } else {
        "Trust "@ + int_text(trust_factor as int)
    }
}

pub open spec fn ban_reason_html_spec(u: UserRow) -> Seq<char> {
    if u.is_banned && trim(u.ban_reason@).len() > 0 {
        "<div class='admin-user-section compact-ban-reason'><strong>Причина бана</strong><div class='admin-user-section-muted'>"@
            + escape_html_spec(u.ban_reason@) + "</div><div class='admin-report-meta'>"@ + (if trim(
            u.ban_at@,
        ).len() == 0 {
            seq![]
        } else {
            "Выдан: "@ + escape_html_spec(admin_dt_spec(u.ban_at@))
        }) + "</div></div>"@
    } else {
        seq![]
    }
}

fn ban_reason_html(u: &UserRow) -> (html: Vec<char>)
    ensures
        html@ == ban_reason_html_spec(*u),
{
    if u.is_banned && !is_blank(u.ban_reason.as_str()) {
        let mut out = chars_of(
            "<div class='admin-user-section compact-ban-reason'><strong>Причина бана</strong><div class='admin-user-section-muted'>",
        );
        push_all(&mut out, esc(u.ban_reason.as_str()).as_slice());
        push_lit(&mut out, "</div><div class='admin-report-meta'>");
        if is_blank(u.ban_at.as_str()) {
            proof {
                assert(out@ =~= out@ + Seq::<char>::empty());
            }
        } else {
            let mut when = chars_of("Выдан: ");
            push_all(&mut when, esc(fmt_admin_dt(u.ban_at.as_str()).as_str()).as_slice());
            push_all(&mut out, when.as_slice());
        }
        push_lit(&mut out, "</div></div>");
        out
    } else {
        Vec::new()
    }
}

pub open spec fn trust_review_html_spec(u: UserRow) -> Seq<char> {
    if needs_review(u.trust_review_status@, u.trust_factor) {
        let reason = if trim(u.trust_review_reason@).len() == 0 {
            "Причина не указана"@
        } else {
            escape_html_spec(u.trust_review_reason@)
        };
        let at = if trim(u.trust_review_at@).len() == 0 {
            seq![]
        } else {
            "<div class='admin-report-meta'>Событие: "@ + escape_html_spec(admin_dt_spec(u.trust_review_at@))
                + "</div>"@
        };
        "<div class='admin-user-section compact-ban-reason'><strong>Проверка доверия</strong><div class='admin-user-section-muted'>"@
            + reason + "</div>"@ + at + "</div>"@
    } else {
        seq![]
    }
}

fn user_needs_review(u: &UserRow) -> (b: bool)
    ensures
        b == needs_review(u.trust_review_status@, u.trust_factor),
{
    eq_lit(chars_of(u.trust_review_status.as_str()).as_slice(), "review") || u.trust_factor < 60
}

fn trust_review_html(u: &UserRow) -> (html: Vec<char>)
    ensures
        html@ == trust_review_html_spec(*u),
{
    if user_needs_review(u) {
        let reason = if is_blank(u.trust_review_reason.as_str()) {
            chars_of("Причина не указана")
        } else {
            esc(u.trust_review_reason.as_str())
        };
        let at: Vec<char> = if is_blank(u.trust_review_at.as_str()) {
            Vec::new()
        } else {
            let mut a = chars_of("<div class='admin-report-meta'>Событие: ");
            push_all(&mut a, esc(fmt_admin_dt(u.trust_review_at.as_str()).as_str()).as_slice());
            push_lit(&mut a, "</div>");
            a
        };
        let mut out = chars_of(
            "<div class='admin-user-section compact-ban-reason'><strong>Проверка доверия</strong><div class='admin-user-section-muted'>",
        );
        push_all(&mut out, reason.as_slice());
        push_lit(&mut out, "</div>");
        push_all(&mut out, at.as_slice());
        push_lit(&mut out, "</div>");
        out
    } else {
        Vec::new()
    }
}

pub open spec fn yes_no(b: bool, yes: Seq<char>, no: Seq<char>) -> Seq<char> {
    if b {
        yes
    } else {
        no
    }
}

fn pick(b: bool, yes: &str, no: &str) -> (r: Vec<char>)
    ensures
        r@ == yes_no(b, yes@, no@),
{
    if b {
        chars_of(yes)
    } else {
        chars_of(no)
    }
}

pub open spec fn main_action_spec(u: UserRow, csrf: Seq<char>, return_to: Seq<char>) -> Seq<char> {
    if u.is_banned {
        unban_form_spec(u.id, csrf, return_to)
    } else {
        ban_form_spec(u.id, csrf, return_to)
    }
}


/// A user's detail card: identity, status pills, dates, trust, ban and
/// review notes, reports and the moderation actions.
pub open spec fn user_card_spec(csrf: Seq<char>, u: UserRow, reports: Seq<UserReportRow>, return_to: Seq<char>) -> Seq<char> {
    "<div class='admin-user-card' data-admin-user-detail-card data-user-id='"@ + int_text(u.id as int) + "' data-user-banned='"@ + yes_no(u.is_banned, "1"@, "0"@) + "' data-user-online='"@ + yes_no(u.is_online, "1"@, "0"@) + "'>\n  <div class='admin-user-card-head'>\n    <div class='admin-user-card-ident'>\n      <button type='button' class='admin-user-avatar' data-admin-user-details='"@ + int_text(u.id as int) + "' data-details-url='/admin/users/"@ + int_text(u.id as int) + "/details'>"@ + card_avatar_spec(u.avatar_file_id, u.username@) + "</button>\n      <div class='admin-user-card-title'>\n        <div class='admin-user-name'>"@ + escape_html_spec(u.username@) + "</div>\n        <div class='admin-user-sub'>ID #"@ + int_text(u.id as int) + " · "@ + email_html_spec(u.email@) + "</div>\n        <div class='admin-user-pills'>\n          <span class='admin-user-pill "@ + yes_no(u.is_online, "online"@, "offline"@) + "'>"@ + yes_no(u.is_online, "Онлайн"@, "Оффлайн"@) + "</span>\n          <span class='admin-user-pill "@ + yes_no(u.is_banned, "banned"@, "clear"@) + "'>"@ + yes_no(u.is_banned, "Ограничен"@, "Без ограничений"@) + "</span>\n          <span class='admin-user-pill "@ + yes_no(needs_review(u.trust_review_status@, u.trust_factor), "review"@, "clear"@) + "'>"@ + escape_html_spec(trust_label_spec(needs_review(u.trust_review_status@, u.trust_factor), u.trust_factor)) + "</span>\n        </div>\n      </div>\n    </div>\n    <button type='button' class='admin-user-gear' data-admin-user-details='"@ + int_text(u.id as int) + "' data-details-url='/admin/users/"@ + int_text(u.id as int) + "/details' title='Детали и аватар'>⚙</button>\n  </div>\n\n  <div class='admin-user-info-grid compact'>\n    <div class='admin-user-info'><span>Регистрация</span><strong>"@ + escape_html_spec(admin_dt_spec(u.created_at@)) + "</strong></div>\n    <div class='admin-user-info'><span>Последняя активность</span><strong>"@ + escape_html_spec(last_seen_spec(u.presence_updated_at@)) + "</strong></div>\n    <div class='admin-user-info'><span>Cookies</span><strong>"@ + cookie_consent_label_spec(u.cookie_consent_status@) + "</strong></div>\n    <div class='admin-user-info'><span>Trust</span><strong>"@ + int_text(u.trust_factor as int) + " / 100 · "@ + trust_review_label_spec(u.trust_review_status@) + "</strong></div>\n  </div>\n\n  "@ + ban_reason_html_spec(u) + "\n  "@ + trust_review_html_spec(u) + "\n\n  <div class='admin-user-section'>\n    <div class='admin-user-section-head'>\n      <strong>Репорты</strong>\n      <span>"@ + nat_text(reports.len() as nat) + "</span>\n    </div>\n    <div class='admin-report-list'>"@ + crate::admin_users::user_reports_spec(csrf, reports, return_to) + "</div>\n  </div>\n\n  <div class='admin-user-actions'>\n    "@ + main_action_spec(u, csrf, return_to) + "\n    <form method='post' action='/admin/users/"@ + int_text(u.id as int) + "/purge' data-ajax-user-action>\n      <input type='hidden' name='csrf' value='"@ + escape_html_spec(csrf) + "' />\n      <input type='hidden' name='return_to' value='"@ + escape_html_spec(return_to) + "' />\n      <button type='submit' class='btn-soft'>Удалить контент</button>\n    </form>\n    <form method='post' action='/admin/users/"@ + int_text(u.id as int) + "/ban_forever' data-ajax-user-action data-danger-action='1'>\n      <input type='hidden' name='csrf' value='"@ + escape_html_spec(csrf) + "' />\n      <input type='hidden' name='return_to' value='"@ + escape_html_spec(return_to) + "' />\n      <button type='submit' class='btn-danger'>Удалить аккаунт</button>\n    </form>\n  </div>\n</div>"@
}

#[verifier::rlimit(40)]
pub fn render_user_detail_card(
    sess: &AdminSession,
    user: &UserRow,
    reports: &[UserReportRow],
    current_return_to: &str,
) -> (html: String)
    ensures
        html@ == user_card_spec(sess.csrf@, *user, reports@, current_return_to@),
{
    let u = user;
    let csrf = sess.csrf.as_str();
    let return_to = current_return_to;
    let review = user_needs_review(u);
    let trust_label: Vec<char> = if review {
        chars_of("Проверка")
    } else {
        let mut l = chars_of("Trust ");
        push_all(&mut l, i64_text(u.trust_factor).as_slice());
        l
    };
    let main_action = if u.is_banned {
        unban_form(u.id, csrf, return_to)
    } else {
        ban_form(u.id, csrf, return_to)
    };
    let reports_html = crate::admin_users::render_user_reports_html(sess, reports, return_to);
    let mut out = chars_of("<div class='admin-user-card' data-admin-user-detail-card data-user-id='");
    push_all(&mut out, i64_text(u.id).as_slice());
    push_lit(&mut out, "' data-user-banned='");
    push_all(&mut out, pick(u.is_banned, "1", "0").as_slice());
    push_lit(&mut out, "' data-user-online='");
    push_all(&mut out, pick(u.is_online, "1", "0").as_slice());
    push_lit(&mut out, "'>\n  <div class='admin-user-card-head'>\n    <div class='admin-user-card-ident'>\n      <button type='button' class='admin-user-avatar' data-admin-user-details='");
    push_all(&mut out, i64_text(u.id).as_slice());
    push_lit(&mut out, "' data-details-url='/admin/users/");
    push_all(&mut out, i64_text(u.id).as_slice());
    push_lit(&mut out, "/details'>");
    push_all(&mut out, card_avatar(u.avatar_file_id, u.username.as_str()).as_slice());
    push_lit(&mut out, "</button>\n      <div class='admin-user-card-title'>\n        <div class='admin-user-name'>");
    push_all(&mut out, esc(u.username.as_str()).as_slice());
    push_lit(&mut out, "</div>\n        <div class='admin-user-sub'>ID #");
    push_all(&mut out, i64_text(u.id).as_slice());
    push_lit(&mut out, " · ");
    push_all(&mut out, email_html(u.email.as_str()).as_slice());
    push_lit(&mut out, "</div>\n        <div class='admin-user-pills'>\n          <span class='admin-user-pill ");
    push_all(&mut out, pick(u.is_online, "online", "offline").as_slice());
    push_lit(&mut out, "'>");
    push_all(&mut out, pick(u.is_online, "Онлайн", "Оффлайн").as_slice());
    push_lit(&mut out, "</span>\n          <span class='admin-user-pill ");
    push_all(&mut out, pick(u.is_banned, "banned", "clear").as_slice());
    push_lit(&mut out, "'>");
    push_all(&mut out, pick(u.is_banned, "Ограничен", "Без ограничений").as_slice());
    push_lit(&mut out, "</span>\n          <span class='admin-user-pill ");
    push_all(&mut out, pick(review, "review", "clear").as_slice());
    push_lit(&mut out, "'>");
    push_all(&mut out, escape_chars(trust_label.as_slice()).as_slice());
    push_lit(&mut out, "</span>\n        </div>\n      </div>\n    </div>\n    <button type='button' class='admin-user-gear' data-admin-user-details='");
    push_all(&mut out, i64_text(u.id).as_slice());
    push_lit(&mut out, "' data-details-url='/admin/users/");
    push_all(&mut out, i64_text(u.id).as_slice());
    push_lit(&mut out, "/details' title='Детали и аватар'>⚙</button>\n  </div>\n\n  <div class='admin-user-info-grid compact'>\n    <div class='admin-user-info'><span>Регистрация</span><strong>");
    push_all(&mut out, esc(fmt_admin_dt(u.created_at.as_str()).as_str()).as_slice());
    push_lit(&mut out, "</strong></div>\n    <div class='admin-user-info'><span>Последняя активность</span><strong>");
    push_all(&mut out, escape_chars(last_seen(u.presence_updated_at.as_str()).as_slice()).as_slice());
    push_lit(&mut out, "</strong></div>\n    <div class='admin-user-info'><span>Cookies</span><strong>");
    push_all(&mut out, chars_of(cookie_consent_label(u.cookie_consent_status.as_str())).as_slice());
    push_lit(&mut out, "</strong></div>\n    <div class='admin-user-info'><span>Trust</span><strong>");
    push_all(&mut out, i64_text(u.trust_factor).as_slice());
    push_lit(&mut out, " / 100 · ");
    push_all(&mut out, chars_of(trust_review_label(u.trust_review_status.as_str())).as_slice());
    push_lit(&mut out, "</strong></div>\n  </div>\n\n  ");
    push_all(&mut out, ban_reason_html(u).as_slice());
    push_lit(&mut out, "\n  ");
    push_all(&mut out, trust_review_html(u).as_slice());
    push_lit(&mut out, "\n\n  <div class='admin-user-section'>\n    <div class='admin-user-section-head'>\n      <strong>Репорты</strong>\n      <span>");
    push_all(&mut out, u64_text(reports.len() as u64).as_slice());
    push_lit(&mut out, "</span>\n    </div>\n    <div class='admin-report-list'>");
    push_all(&mut out, chars_of(reports_html.as_str()).as_slice());
    push_lit(&mut out, "</div>\n  </div>\n\n  <div class='admin-user-actions'>\n    ");
    push_all(&mut out, main_action.as_slice());
    push_lit(&mut out, "\n    <form method='post' action='/admin/users/");
    push_all(&mut out, i64_text(u.id).as_slice());
    push_lit(&mut out, "/purge' data-ajax-user-action>\n      <input type='hidden' name='csrf' value='");
    push_all(&mut out, esc(csrf).as_slice());
    push_lit(&mut out, "' />\n      <input type='hidden' name='return_to' value='");
    push_all(&mut out, esc(return_to).as_slice());
    push_lit(&mut out, "' />\n      <button type='submit' class='btn-soft'>Удалить контент</button>\n    </form>\n    <form method='post' action='/admin/users/");
    push_all(&mut out, i64_text(u.id).as_slice());
    push_lit(&mut out, "/ban_forever' data-ajax-user-action data-danger-action='1'>\n      <input type='hidden' name='csrf' value='");
    push_all(&mut out, esc(csrf).as_slice());
    push_lit(&mut out, "' />\n      <input type='hidden' name='return_to' value='");
    push_all(&mut out, esc(return_to).as_slice());
    push_lit(&mut out, "' />\n      <button type='submit' class='btn-danger'>Удалить аккаунт</button>\n    </form>\n  </div>\n</div>");
    string_of(out.as_slice())
}


pub open spec fn modal_avatar_spec(avatar_file_id: Option<i64>, username: Seq<char>) -> Seq<char> {
    match avatar_file_id {
        Some(fid) => "<img class='admin-modal-avatar-img' src='/admin/profile-files/"@ + int_text(fid as int)
            + "/raw' alt='avatar' />"@,
        None => "<div class='admin-modal-avatar-empty'>"@ + escape_html_spec(initial_spec(username))
            + "</div>"@,
    }
}

fn modal_avatar(avatar_file_id: Option<i64>, username: &str) -> (html: Vec<char>)
    ensures
        html@ == modal_avatar_spec(avatar_file_id, username@),
{
    match avatar_file_id {
        Some(fid) => {
            let mut out = chars_of("<img class='admin-modal-avatar-img' src='/admin/profile-files/");
            push_all(&mut out, i64_text(fid).as_slice());
            push_lit(&mut out, "/raw' alt='avatar' />");
            out
        },
        None => {
            let mut out = chars_of("<div class='admin-modal-avatar-empty'>");
            push_all(&mut out, esc(user_initial(username).as_str()).as_slice());
            push_lit(&mut out, "</div>");
            out
        },
    }
}


/// Links to open and download a user's avatar.
pub open spec fn avatar_links_spec(file_id: i64) -> Seq<char> {
    "<div class='admin-modal-actions'>\n  <a href='/admin/profile-files/"@ + int_text(file_id as int) + "/raw' target='_blank' rel='noopener'>Открыть аватар</a>\n  <a href='/admin/profile-files/"@ + int_text(file_id as int) + "/raw' download>Скачать</a>\n</div>"@
}

fn avatar_links(file_id: i64) -> (html: Vec<char>)
    ensures
        html@ == avatar_links_spec(file_id),
{
    let mut out = chars_of("<div class='admin-modal-actions'>\n  <a href='/admin/profile-files/");
    push_all(&mut out, i64_text(file_id).as_slice());
    push_lit(&mut out, "/raw' target='_blank' rel='noopener'>Открыть аватар</a>\n  <a href='/admin/profile-files/");
    push_all(&mut out, i64_text(file_id).as_slice());
    push_lit(&mut out, "/raw' download>Скачать</a>\n</div>");
    out
}


pub open spec fn avatar_actions_spec(avatar_file_id: Option<i64>) -> Seq<char> {
    match avatar_file_id {
        Some(fid) => avatar_links_spec(fid),
        None => "<div class='admin-user-emptyline'>Аватар не установлен.</div>"@,
    }
}


/// The details dialog of a user: identity, avatar and dates.
pub open spec fn user_modal_spec(u: UserRow) -> Seq<char> {
    "<div class='admin-modal-head'>\n  <div>\n    <div class='admin-modal-title'>"@ + escape_html_spec(u.username@) + "</div>\n    <div class='admin-modal-sub'>ID #"@ + int_text(u.id as int) + " · "@ + email_html_spec(u.email@) + "</div>\n  </div>\n  <button type='button' class='admin-modal-close' data-admin-modal-close>✕</button>\n</div>\n<div class='admin-modal-body'>\n  <div class='admin-modal-avatar'>"@ + modal_avatar_spec(u.avatar_file_id, u.username@) + "</div>\n  "@ + avatar_actions_spec(u.avatar_file_id) + "\n  <div class='admin-user-info-grid'>\n    <div class='admin-user-info'><span>Регистрация</span><strong>"@ + escape_html_spec(admin_dt_spec(u.created_at@)) + "</strong></div>\n    <div class='admin-user-info'><span>Последняя активность</span><strong>"@ + escape_html_spec(last_seen_spec(u.presence_updated_at@)) + "</strong></div>\n    <div class='admin-user-info'><span>Статус</span><strong>"@ + yes_no(u.is_online, "онлайн"@, "оффлайн"@) + "</strong></div>\n    <div class='admin-user-info'><span>Бан</span><strong>"@ + yes_no(u.is_banned, "ограничен"@, "нет"@) + "</strong></div>\n  </div>\n</div>"@
}

pub fn render_user_details_modal(user: &UserRow) -> (html: String)
    ensures
        html@ == user_modal_spec(*user),
{
    let u = user;
    let avatar_actions = match u.avatar_file_id {
        Some(fid) => avatar_links(fid),
        None => chars_of("<div class='admin-user-emptyline'>Аватар не установлен.</div>"),
    };
    let mut out = chars_of("<div class='admin-modal-head'>\n  <div>\n    <div class='admin-modal-title'>");
    push_all(&mut out, esc(u.username.as_str()).as_slice());
    push_lit(&mut out, "</div>\n    <div class='admin-modal-sub'>ID #");
    push_all(&mut out, i64_text(u.id).as_slice());
    push_lit(&mut out, " · ");
    push_all(&mut out, email_html(u.email.as_str()).as_slice());
    push_lit(&mut out, "</div>\n  </div>\n  <button type='button' class='admin-modal-close' data-admin-modal-close>✕</button>\n</div>\n<div class='admin-modal-body'>\n  <div class='admin-modal-avatar'>");
    push_all(&mut out, modal_avatar(u.avatar_file_id, u.username.as_str()).as_slice());
    push_lit(&mut out, "</div>\n  ");
    push_all(&mut out, avatar_actions.as_slice());
    push_lit(&mut out, "\n  <div class='admin-user-info-grid'>\n    <div class='admin-user-info'><span>Регистрация</span><strong>");
    push_all(&mut out, esc(fmt_admin_dt(u.created_at.as_str()).as_str()).as_slice());
    push_lit(&mut out, "</strong></div>\n    <div class='admin-user-info'><span>Последняя активность</span><strong>");
    push_all(&mut out, escape_chars(last_seen(u.presence_updated_at.as_str()).as_slice()).as_slice());
    push_lit(&mut out, "</strong></div>\n    <div class='admin-user-info'><span>Статус</span><strong>");
    push_all(&mut out, pick(u.is_online, "онлайн", "оффлайн").as_slice());
    push_lit(&mut out, "</strong></div>\n    <div class='admin-user-info'><span>Бан</span><strong>");
    push_all(&mut out, pick(u.is_banned, "ограничен", "нет").as_slice());
    push_lit(&mut out, "</strong></div>\n  </div>\n</div>");
    string_of(out.as_slice())
}

// ---------------------------------------------------------------------------
// The user list
// ---------------------------------------------------------------------------

/// The users a filter keeps, in order.
pub open spec fn filter_users(us: Seq<UserRow>, mode: Seq<char>) -> Seq<UserRow>
    decreases us.len(),
{
    if us.len() == 0 {
        seq![]
    } else {
        let p = filter_users(us.drop_last(), mode);
        let u = us.last();
        if crate::admin::user_mode_matches_spec(u.is_banned, u.trust_review_status@, u.trust_factor, mode) {
            p.push(u)
        } else {
            p
        }
    }
}

pub open spec fn first_with_id(us: Seq<UserRow>, id: i64) -> Option<UserRow>
    decreases us.len(),
{
    if us.len() == 0 {
        None
    } else if us[0].id == id {
        Some(us[0])
    } else {
        first_with_id(us.drop_first(), id)
    }
}

/// The user shown in detail: the one asked for when the filter keeps it,
/// else the first one kept.
pub open spec fn selected_user(fs: Seq<UserRow>, requested: Option<i64>) -> Option<UserRow> {
    let first = if fs.len() > 0 {
        Some(fs[0])
    } else {
        None
    };
    match requested {
        Some(id) => match first_with_id(fs, id) {
            Some(u) => Some(u),
            None => first,
        },
        None => first,
    }
}

pub open spec fn row_avatar_spec(avatar_file_id: Option<i64>, username: Seq<char>) -> Seq<char> {
    match avatar_file_id {
        Some(fid) => "<img class='admin-user-row-avatar-img' src='/admin/profile-files/"@ + int_text(
            fid as int,
        ) + "/raw' alt='avatar' />"@,
        None => escape_html_spec(initial_spec(username)),
    }
}

fn row_avatar(avatar_file_id: Option<i64>, username: &str) -> (html: Vec<char>)
    ensures
        html@ == row_avatar_spec(avatar_file_id, username@),
{
    match avatar_file_id {
        Some(fid) => {
            let mut out = chars_of("<img class='admin-user-row-avatar-img' src='/admin/profile-files/");
            push_all(&mut out, i64_text(fid).as_slice());
            push_lit(&mut out, "/raw' alt='avatar' />");
            out
        },
        None => esc(user_initial(username).as_str()),
    }
}

/// The text the client-side filter matches a user row against.
pub open spec fn row_filter_spec(u: UserRow) -> Seq<char> {
    "#"@ + int_text(u.id as int) + " "@ + crate::admin::unicode_lower(u.username@) + " "@
        + crate::admin::unicode_lower(u.email@) + " "@ + u.cookie_consent_status@ + " "@
        + u.trust_review_status@
}

fn row_filter(u: &UserRow) -> (t: Vec<char>)
    ensures
        t@ == row_filter_spec(*u),
{
    let mut out = chars_of("#");
    push_all(&mut out, i64_text(u.id).as_slice());
    push_lit(&mut out, " ");
    push_all(&mut out, chars_of(crate::admin::to_lowercase(u.username.as_str()).as_str()).as_slice());
    push_lit(&mut out, " ");
    push_all(&mut out, chars_of(crate::admin::to_lowercase(u.email.as_str()).as_str()).as_slice());
    push_lit(&mut out, " ");
    push_all(&mut out, chars_of(u.cookie_consent_status.as_str()).as_slice());
    push_lit(&mut out, " ");
    push_all(&mut out, chars_of(u.trust_review_status.as_str()).as_slice());
    out
}

pub open spec fn pill_class_spec(u: UserRow) -> Seq<char> {
    if u.is_banned {
        "banned"@
    } else if needs_review(u.trust_review_status@, u.trust_factor) {
        "review"@
    } else if u.is_online {
        "online"@
    } else {
        "offline"@
    }
}

pub open spec fn pill_text_spec(u: UserRow) -> Seq<char> {
    if u.is_banned {
        "Бан"@
    } else if needs_review(u.trust_review_status@, u.trust_factor) {
        "Проверка"@
    } else if u.is_online {
        "Онлайн"@
    } else {
        "Оффлайн"@
    }
}

pub open spec fn details_url_spec(id: i64) -> Seq<char> {
    "/admin/users/"@ + int_text(id as int) + "/details"@
}


/// One row of the user list.
pub open spec fn user_row_spec(base_path: Seq<char>, embedded: bool, query: Seq<char>, mode: Seq<char>, selected_id: Option<i64>, return_to: Seq<char>, u: UserRow) -> Seq<char> {
    "<a class='admin-user-row"@ + (if selected_id == Some(u.id) { " active"@ } else { seq![] }) + "' href='"@ + escape_html_spec(crate::admin::with_query(base_path, crate::admin::form_pairs(crate::admin::user_page_pairs(embedded, query, mode, Some(u.id))))) + "' data-admin-user-row data-user-id='"@ + int_text(u.id as int) + "' data-card-url='"@ + escape_html_spec(crate::admin::card_url_spec(u.id, return_to)) + "' data-details-url='"@ + escape_html_spec(details_url_spec(u.id)) + "' data-filter-item='users' data-filter='"@ + escape_html_spec(row_filter_spec(u)) + "'>\n  <div class='admin-user-row-avatar'>"@ + row_avatar_spec(u.avatar_file_id, u.username@) + "</div>\n  <div class='admin-user-row-main'>\n    <div class='admin-user-row-name'>"@ + escape_html_spec(u.username@) + "</div>\n    <div class='admin-user-row-meta'>ID #"@ + int_text(u.id as int) + "</div>\n  </div>\n  <span class='admin-user-pill "@ + pill_class_spec(u) + "'>"@ + pill_text_spec(u) + "</span>\n</a>"@
}

#[verifier::rlimit(40)]
fn user_row(base_path: &str, embedded: bool, query: &str, mode: &str, selected_id: Option<i64>, return_to: &str, u: &UserRow) -> (html: Vec<char>)
    ensures
        html@ == user_row_spec(base_path@, embedded, query@, mode@, selected_id, return_to@, *u),
{
    let review = user_needs_review(u);
    let active: Vec<char> = if selected_id == Some(u.id) {
        chars_of(" active")
    } else {
        Vec::new()
    };
    let row_href = crate::admin::user_page_url(base_path, embedded, query, mode, Some(u.id));
    let card_url = crate::admin::user_card_url(u.id, return_to);
    let mut details_url = chars_of("/admin/users/");
    push_all(&mut details_url, i64_text(u.id).as_slice());
    push_lit(&mut details_url, "/details");
    let pill_class = if u.is_banned {
        chars_of("banned")
    } else if review {
        chars_of("review")
    } else if u.is_online {
        chars_of("online")
    } else {
        chars_of("offline")
    };
    let pill_text = if u.is_banned {
        chars_of("Бан")
    } else if review {
        chars_of("Проверка")
    } else if u.is_online {
        chars_of("Онлайн")
    } else {
        chars_of("Оффлайн")
    };
    let mut out = chars_of("<a class='admin-user-row");
    push_all(&mut out, active.as_slice());
    push_lit(&mut out, "' href='");
    push_all(&mut out, esc(row_href.as_str()).as_slice());
    push_lit(&mut out, "' data-admin-user-row data-user-id='");
    push_all(&mut out, i64_text(u.id).as_slice());
    push_lit(&mut out, "' data-card-url='");
    push_all(&mut out, esc(card_url.as_str()).as_slice());
    push_lit(&mut out, "' data-details-url='");
    push_all(&mut out, escape_chars(details_url.as_slice()).as_slice());
    push_lit(&mut out, "' data-filter-item='users' data-filter='");
    push_all(&mut out, escape_chars(row_filter(u).as_slice()).as_slice());
    push_lit(&mut out, "'>\n  <div class='admin-user-row-avatar'>");
    push_all(&mut out, row_avatar(u.avatar_file_id, u.username.as_str()).as_slice());
    push_lit(&mut out, "</div>\n  <div class='admin-user-row-main'>\n    <div class='admin-user-row-name'>");
    push_all(&mut out, esc(u.username.as_str()).as_slice());
    push_lit(&mut out, "</div>\n    <div class='admin-user-row-meta'>ID #");
    push_all(&mut out, i64_text(u.id).as_slice());
    push_lit(&mut out, "</div>\n  </div>\n  <span class='admin-user-pill ");
    push_all(&mut out, pill_class.as_slice());
    push_lit(&mut out, "'>");
    push_all(&mut out, pill_text.as_slice());
    push_lit(&mut out, "</span>\n</a>");
    out
}

pub open spec fn user_rows(base_path: Seq<char>, embedded: bool, query: Seq<char>, mode: Seq<char>, selected_id: Option<i64>, return_to: Seq<char>, us: Seq<UserRow>) -> Seq<char>
    decreases us.len(),
{
    if us.len() == 0 {
        seq![]
    } else {
        user_rows(base_path, embedded, query, mode, selected_id, return_to, us.drop_last()) + user_row_spec(
            base_path,
            embedded,
            query,
            mode,
            selected_id,
            return_to,
            us.last(),
        )
    }
}


/// The live search box of the embedded user list.
pub open spec fn embedded_search_spec(query: Seq<char>) -> Seq<char> {
    "<div class='admin-user-search'>\n  <input type='text' data-persist-key='admin-center-users-search' data-filter-input='users' value='"@ + escape_html_spec(query) + "' placeholder='Поиск: имя / e-mail / id' />\n  <button type='button' class='btn-soft' data-clear-filter='users'>Сбросить</button>\n</div>"@
}

fn embedded_search(query: &str) -> (html: Vec<char>)
    ensures
        html@ == embedded_search_spec(query@),
{
    let mut out = chars_of("<div class='admin-user-search'>\n  <input type='text' data-persist-key='admin-center-users-search' data-filter-input='users' value='");
    push_all(&mut out, esc(query).as_slice());
    push_lit(&mut out, "' placeholder='Поиск: имя / e-mail / id' />\n  <button type='button' class='btn-soft' data-clear-filter='users'>Сбросить</button>\n</div>");
    out
}


/// The search form of the user list page.
pub open spec fn page_search_spec(action: Seq<char>, mode: Seq<char>, query: Seq<char>) -> Seq<char> {
    "<form method='get' action='"@ + action + "' class='admin-user-search'>\n  <input type='hidden' name='mode' value='"@ + escape_html_spec(mode) + "' />\n  <input type='text' name='q' value='"@ + escape_html_spec(query) + "' placeholder='Поиск: имя / e-mail / id' />\n  <button type='submit'>Найти</button>\n</form>"@
}

fn page_search(action: &str, mode: &str, query: &str) -> (html: Vec<char>)
    ensures
        html@ == page_search_spec(action@, mode@, query@),
{
    let mut out = chars_of("<form method='get' action='");
    push_all(&mut out, chars_of(action).as_slice());
    push_lit(&mut out, "' class='admin-user-search'>\n  <input type='hidden' name='mode' value='");
    push_all(&mut out, esc(mode).as_slice());
    push_lit(&mut out, "' />\n  <input type='text' name='q' value='");
    push_all(&mut out, esc(query).as_slice());
    push_lit(&mut out, "' placeholder='Поиск: имя / e-mail / id' />\n  <button type='submit'>Найти</button>\n</form>");
    out
}

fn active_if(b: bool) -> (r: Vec<char>)
    ensures
        r@ == yes_no(b, "active"@, seq![]),
{
    if b {
        chars_of("active")
    } else {
        Vec::new()
    }
}

pub open spec fn href_for(base: Seq<char>, embedded: bool, query: Seq<char>, mode: Seq<char>) -> Seq<char> {
    escape_html_spec(crate::admin::with_query(base, crate::admin::form_pairs(crate::admin::user_page_pairs(embedded, query, mode, None))))
}

pub open spec fn users_base(embedded: bool) -> Seq<char> {
    if embedded {
        "/admin/center"@
    } else {
        "/admin/users"@
    }
}

/// The user list with its filter tabs, search, rows and the selected user's
/// card.
pub open spec fn users_panel_spec(
    csrf: Seq<char>,
    users: Seq<UserRow>,
    query: Seq<char>,
    embedded: bool,
    mode_in: Seq<char>,
    requested: Option<i64>,
    return_to: Seq<char>,
    reports: Seq<UserReportRow>,
) -> Seq<char> {
    let base = users_base(embedded);
    let mode = crate::admin::user_mode_spec(Some(mode_in));
    let fs = filter_users(users, mode);
    let sel = selected_user(fs, requested);
    let sel_id = match sel {
        Some(u) => Some(u.id),
        None => None,
    };
    let search_html = if embedded {
        embedded_search_spec(query)
    } else {
        page_search_spec(base, mode, query)
    };
    let rows_html = if fs.len() == 0 {
        "<div class='admin-user-emptyline'>Пользователи не найдены.</div>"@
    } else {
        user_rows(base, embedded, query, mode, sel_id, return_to, fs)
    };
    let detail_html = match sel {
        Some(u) => user_card_spec(csrf, u, reports, return_to),
        None => "<div class='admin-user-empty-detail'>Выбери пользователя слева.</div>"@,
    };
    "<div class='admin-users-shell'>\n  <div class='admin-users-titlebar'>\n    <strong>Пользователи</strong>\n  </div>\n  <div class='admin-users-grid'>\n    <aside class='admin-users-list'>\n      <div class='admin-user-tabs'>\n        <a href='"@ + href_for(base, embedded, query, "all"@) + "' class='"@ + yes_no(mode == "all"@, "active"@, seq![]) + "'>Все</a>\n        <a href='"@ + href_for(base, embedded, query, "active"@) + "' class='"@ + yes_no(mode == "active"@, "active"@, seq![]) + "'>Обычные</a>\n        <a href='"@ + href_for(base, embedded, query, "review"@) + "' class='"@ + yes_no(mode == "review"@, "active"@, seq![]) + "'>Проверка</a>\n        <a href='"@ + href_for(base, embedded, query, "banned"@) + "' class='"@ + yes_no(mode == "banned"@, "active"@, seq![]) + "'>Забаненные</a>\n      </div>\n      "@ + search_html + "\n      <div class='admin-user-list-scroll'>"@ + rows_html + "</div>\n    </aside>\n    <section class='admin-users-detail' data-admin-user-detail>"@ + detail_html + "</section>\n  </div>\n</div>"@
}

pub open spec fn picked_users(users: Seq<UserRow>, picked: Seq<usize>) -> Seq<UserRow> {
    picked.map_values(|j: usize| users[j as int])
}

fn filter_user_indices(users: &[UserRow], mode: &str) -> (picked: Vec<usize>)
    ensures
        forall|k: int| 0 <= k < picked@.len() ==> (picked@[k] as int) < users@.len(),
        picked_users(users@, picked@) == filter_users(users@, mode@),
{
    let mut picked: Vec<usize> = Vec::new();
    let mut i: usize = 0;
    while i < users.len()
        invariant
            i <= users.len(),
            forall|k: int| 0 <= k < picked@.len() ==> (picked@[k] as int) < users@.len(),
            picked_users(users@, picked@) == filter_users(users@.take(i as int), mode@),
        decreases users.len() - i,
    {
        let u = &users[i];
        let keep = crate::admin::user_mode_matches(u, mode);
        let ghost before = picked@;
        if keep {
            picked.push(i);
        }
        proof {
            let t = users@.take(i + 1);
            assert(t.drop_last() =~= users@.take(i as int));
            assert(t.last() == users@[i as int]);
            if keep {
                assert(picked_users(users@, picked@) =~= picked_users(users@, before).push(users@[i as int]));
            } else {
                assert(picked_users(users@, picked@) =~= picked_users(users@, before));
            }
        }
        i = i + 1;
    }
    proof {
        assert(users@.take(users@.len() as int) =~= users@);
    }
    picked
}

fn select_user_index(users: &[UserRow], picked: &Vec<usize>, requested: Option<i64>) -> (sel: Option<usize>)
    requires
        forall|k: int| 0 <= k < picked@.len() ==> (picked@[k] as int) < users@.len(),
    ensures
        match sel {
            Some(j) => (j as int) < users@.len() && selected_user(picked_users(users@, picked@), requested)
                == Some(users@[j as int]),
            None => selected_user(picked_users(users@, picked@), requested) is None,
        },
{
    let ghost fs = picked_users(users@, picked@);
    let mut sel: Option<usize> = None;
    if let Some(id) = requested {
        let mut k: usize = 0;
        proof {
            assert(fs.skip(0) =~= fs);
        }
        while k < picked.len()
            invariant
                k <= picked.len(),
                fs == picked_users(users@, picked@),
                forall|q: int| 0 <= q < picked@.len() ==> (picked@[q] as int) < users@.len(),
                sel is None ==> first_with_id(fs, id) == first_with_id(fs.skip(k as int), id),
                sel matches Some(j) ==> (j as int) < users@.len() && first_with_id(fs, id) == Some(
                    users@[j as int],
                ),
            decreases picked.len() - k,
        {
            if sel.is_none() {
                proof {
                    assert(fs.skip(k as int)[0] == users@[picked@[k as int] as int]);
                    assert(fs.skip(k as int).drop_first() =~= fs.skip(k + 1));
                }
                if users[picked[k]].id == id {
                    sel = Some(picked[k]);
                }
            }
            k = k + 1;
        }
        proof {
            if sel is None {
                assert(fs.skip(picked@.len() as int) =~= Seq::<UserRow>::empty());
            }
        }
    }
    if sel.is_none() && picked.len() > 0 {
        sel = Some(picked[0]);
    }
    sel
}

fn user_rows_html(
    base_path: &str,
    embedded: bool,
    query: &str,
    mode: &str,
    selected_id: Option<i64>,
    return_to: &str,
    users: &[UserRow],
    picked: &Vec<usize>,
) -> (html: Vec<char>)
    requires
        forall|k: int| 0 <= k < picked@.len() ==> (picked@[k] as int) < users@.len(),
    ensures
        html@ == user_rows(base_path@, embedded, query@, mode@, selected_id, return_to@, picked_users(users@, picked@)),
{
    let ghost fs = picked_users(users@, picked@);
    let mut rows_html: Vec<char> = Vec::new();
    let mut k: usize = 0;
    while k < picked.len()
        invariant
            k <= picked.len(),
            fs == picked_users(users@, picked@),
            forall|q: int| 0 <= q < picked@.len() ==> (picked@[q] as int) < users@.len(),
            rows_html@ == user_rows(base_path@, embedded, query@, mode@, selected_id, return_to@, fs.take(k as int)),
        decreases picked.len() - k,
    {
        let row = user_row(base_path, embedded, query, mode, selected_id, return_to, &users[picked[k]]);
        push_all(&mut rows_html, row.as_slice());
        proof {
            let t = fs.take(k + 1);
            assert(t.drop_last() =~= fs.take(k as int));
            assert(t.last() == users@[picked@[k as int] as int]);
        }
        k = k + 1;
    }
    proof {
        assert(fs.take(fs.len() as int) =~= fs);
    }
    rows_html
}

#[verifier::rlimit(60)]
pub fn render_users_panel_body(
    sess: &AdminSession,
    users: &[UserRow],
    query: &str,
    embedded: bool,
    mode: &str,
    requested_user_id: Option<i64>,
    current_return_to: &str,
    selected_reports: &[UserReportRow],
) -> (html: String)
    ensures
        html@ == users_panel_spec(
            sess.csrf@,
            users@,
            query@,
            embedded,
            mode@,
            requested_user_id,
            current_return_to@,
            selected_reports@,
        ),
{
    let base_path = if embedded {
        "/admin/center"
    } else {
        "/admin/users"
    };
    let mode = crate::admin::normalized_user_mode(Some(mode));
    let mc = chars_of(mode);
    let return_to = current_return_to;
    let picked = filter_user_indices(users, mode);
    let sel = select_user_index(users, &picked, requested_user_id);
    let selected_id: Option<i64> = match sel {
        Some(j) => Some(users[j].id),
        None => None,
    };
    let all_href = crate::admin::user_page_url(base_path, embedded, query, "all", None);
    let active_href = crate::admin::user_page_url(base_path, embedded, query, "active", None);
    let banned_href = crate::admin::user_page_url(base_path, embedded, query, "banned", None);
    let review_href = crate::admin::user_page_url(base_path, embedded, query, "review", None);
    let search_html = if embedded {
        embedded_search(query)
    } else {
        page_search(base_path, mode, query)
    };
    let rows_html: Vec<char> = if picked.len() == 0 {
        chars_of("<div class='admin-user-emptyline'>Пользователи не найдены.</div>")
    } else {
        user_rows_html(base_path, embedded, query, mode, selected_id, return_to, users, &picked)
    };
    let detail_html: Vec<char> = match sel {
        Some(j) => chars_of(render_user_detail_card(sess, &users[j], selected_reports, return_to).as_str()),
        None => chars_of("<div class='admin-user-empty-detail'>Выбери пользователя слева.</div>"),
    };
    proof {
        let ghost fs = filter_users(users@, mode@);
        assert(base_path@ == users_base(embedded));
        assert(picked_users(users@, picked@) == fs);
        assert(picked@.len() == fs.len());
        let sel_spec = selected_user(fs, requested_user_id);
        let sel_id = match sel_spec {
            Some(u) => Some(u.id),
            None => None,
        };
        assert(selected_id == sel_id);
        assert(rows_html@ == (if fs.len() == 0 {
            "<div class='admin-user-emptyline'>Пользователи не найдены.</div>"@
        } else {
            user_rows(base_path@, embedded, query@, mode@, sel_id, return_to@, fs)
        }));
        assert(detail_html@ == (match sel_spec {
            Some(u) => user_card_spec(sess.csrf@, u, selected_reports@, return_to@),
            None => "<div class='admin-user-empty-detail'>Выбери пользователя слева.</div>"@,
        }));
    }
    let mut out = chars_of("<div class='admin-users-shell'>\n  <div class='admin-users-titlebar'>\n    <strong>Пользователи</strong>\n  </div>\n  <div class='admin-users-grid'>\n    <aside class='admin-users-list'>\n      <div class='admin-user-tabs'>\n        <a href='");
    push_all(&mut out, esc(all_href.as_str()).as_slice());
    push_lit(&mut out, "' class='");
    push_all(&mut out, active_if(eq_lit(mc.as_slice(), "all")).as_slice());
    push_lit(&mut out, "'>Все</a>\n        <a href='");
    push_all(&mut out, esc(active_href.as_str()).as_slice());
    push_lit(&mut out, "' class='");
    push_all(&mut out, active_if(eq_lit(mc.as_slice(), "active")).as_slice());
    push_lit(&mut out, "'>Обычные</a>\n        <a href='");
    push_all(&mut out, esc(review_href.as_str()).as_slice());
    push_lit(&mut out, "' class='");
    push_all(&mut out, active_if(eq_lit(mc.as_slice(), "review")).as_slice());
    push_lit(&mut out, "'>Проверка</a>\n        <a href='");
    push_all(&mut out, esc(banned_href.as_str()).as_slice());
    push_lit(&mut out, "' class='");
    push_all(&mut out, active_if(eq_lit(mc.as_slice(), "banned")).as_slice());
    push_lit(&mut out, "'>Забаненные</a>\n      </div>\n      ");
    push_all(&mut out, search_html.as_slice());
    push_lit(&mut out, "\n      <div class='admin-user-list-scroll'>");
    push_all(&mut out, rows_html.as_slice());
    push_lit(&mut out, "</div>\n    </aside>\n    <section class='admin-users-detail' data-admin-user-detail>");
    push_all(&mut out, detail_html.as_slice());
    push_lit(&mut out, "</section>\n  </div>\n</div>");
    string_of(out.as_slice())
}


// ---------------------------------------------------------------------------
// Test accounts
// ---------------------------------------------------------------------------

/// What `regex` answers for a pattern against a text: `None` when the
/// pattern does not compile, else whether it matches somewhere in the text.
pub uninterp spec fn regex_verdict(pattern: Seq<char>, text: Seq<char>) -> Option<bool>;

/// `Regex::new(pattern)` and, when it compiles, `is_match(text)`. The
/// verdict is left to the name `regex_verdict`.
#[verifier::external_body]
fn regex_check(pattern: &str, text: &str) -> (r: Option<bool>)
    ensures
        r == regex_verdict(pattern@, text@),
{
    regex::Regex::new(pattern).ok().map(|re| re.is_match(text))
}

/// The pattern that marks test accounts: the configured one when it
/// compiles, else `^test_`.
pub open spec fn test_pattern_spec(configured: Option<Seq<char>>) -> Seq<char> {
    let p = match configured {
        Some(c) => c,
        None => "^test_"@,
    };
    if regex_verdict(p, Seq::empty()) is Some {
        p
    } else {
        "^test_"@
    }
}

pub fn test_account_pattern(configured: Option<&str>) -> (r: String)
    ensures
        r@ == test_pattern_spec(
            match configured {
                Some(c) => Some(c@),
                None => None,
            },
        ),
{
    let p = match configured {
        Some(c) => c,
        None => "^test_",
    };
    proof {
        reveal_strlit("");
        assert(""@ =~= Seq::<char>::empty());
    }
    if regex_check(p, "").is_some() {
        String::from_str(p)
    } else {
        String::from_str("^test_")
    }
}

/// Whether a name is matched by the pattern.
pub open spec fn pattern_hits(pattern: Seq<char>, text: Seq<char>) -> bool {
    regex_verdict(pattern, text) == Some(true)
}

/// A test account: its name, or its e-mail when it has one, matches the
/// pattern.
pub open spec fn test_user_spec(pattern: Seq<char>, username: Seq<char>, email: Seq<char>) -> bool {
    pattern_hits(pattern, username) || (email.len() > 0 && pattern_hits(pattern, email))
}

pub fn is_test_user(pattern: &str, username: &str, email: &str) -> (r: bool)
    ensures
        r == test_user_spec(pattern@, username@, email@),
{
    if regex_check(pattern, username) == Some(true) {
        return true;
    }
    chars_of(email).len() > 0 && regex_check(pattern, email) == Some(true)
}

/// A test server: its name matches the pattern.
pub fn is_test_server(pattern: &str, name: &str) -> (r: bool)
    ensures
        r == pattern_hits(pattern@, name@),
{
    regex_check(pattern, name) == Some(true)
}

/// One row of the test-user list, with its selection box.
pub open spec fn test_user_row_spec(u: UserRow) -> Seq<char> {
    "<tr>\n<td><input type='checkbox' name='user_ids' value='"@ + int_text(u.id as int) + "' /></td>\n<td>#"@ + int_text(u.id as int) + "</td>\n<td>"@ + escape_html_spec(u.username@) + "<div class='small'>"@ + escape_html_spec(u.email@) + "</div></td>\n<td>"@ + (if u.is_banned { "заблокирован"@ } else { Seq::<char>::empty() }) + "</td>\n<td class='small'>"@ + escape_html_spec(admin_dt_spec(u.created_at@)) + "</td>\n</tr>"@
}

fn render_test_user_row(u: &UserRow) -> (html: Vec<char>)
    ensures
        html@ == test_user_row_spec(*u),
{
    let banned: Vec<char> = if u.is_banned {
        chars_of("заблокирован")
    } else {
        Vec::new()
    };
    let mut out = chars_of("<tr>\n<td><input type='checkbox' name='user_ids' value='");
    push_all(&mut out, i64_text(u.id).as_slice());
    push_lit(&mut out, "' /></td>\n<td>#");
    push_all(&mut out, i64_text(u.id).as_slice());
    push_lit(&mut out, "</td>\n<td>");
    push_all(&mut out, esc(u.username.as_str()).as_slice());
    push_lit(&mut out, "<div class='small'>");
    push_all(&mut out, esc(u.email.as_str()).as_slice());
    push_lit(&mut out, "</div></td>\n<td>");
    push_all(&mut out, banned.as_slice());
    push_lit(&mut out, "</td>\n<td class='small'>");
    push_all(&mut out, esc(fmt_admin_dt(u.created_at.as_str()).as_str()).as_slice());
    push_lit(&mut out, "</td>\n</tr>");
    out
}


/// The test-user page around its rows: the pattern in use and the delete form.
pub open spec fn test_users_body_spec(pattern: Seq<char>, csrf: Seq<char>, rows: Seq<char>) -> Seq<char> {
    "<div class='card'>\n<h2>Тестовые пользователи</h2>\n<div class='small'>Шаблон: <code>"@ + escape_html_spec(pattern) + "</code> (измени LB_TEST_USER_REGEX, если нужно)</div>\n<form method='post' action='/admin/test-users'>\n  <input type='hidden' name='csrf' value='"@ + escape_html_spec(csrf) + "' />\n  <table class='table'>\n  <thead><tr><th></th><th>ID</th><th>Пользователь</th><th>Статус</th><th>Создан</th></tr></thead>\n  <tbody>\n  "@ + rows + "\n  </tbody>\n  </table>\n  <div style='height:10px'></div>\n  <button type='submit' class='btn-danger'>Удалить выбранных</button>\n</form>\n</div>"@
}

fn render_test_users_body_with(pattern: &str, csrf: &str, rows: &Vec<char>) -> (html: String)
    ensures
        html@ == test_users_body_spec(pattern@, csrf@, rows@),
{
    let mut out = chars_of("<div class='card'>\n<h2>Тестовые пользователи</h2>\n<div class='small'>Шаблон: <code>");
    push_all(&mut out, esc(pattern).as_slice());
    push_lit(&mut out, "</code> (измени LB_TEST_USER_REGEX, если нужно)</div>\n<form method='post' action='/admin/test-users'>\n  <input type='hidden' name='csrf' value='");
    push_all(&mut out, esc(csrf).as_slice());
    push_lit(&mut out, "' />\n  <table class='table'>\n  <thead><tr><th></th><th>ID</th><th>Пользователь</th><th>Статус</th><th>Создан</th></tr></thead>\n  <tbody>\n  ");
    push_all(&mut out, rows.as_slice());
    push_lit(&mut out, "\n  </tbody>\n  </table>\n  <div style='height:10px'></div>\n  <button type='submit' class='btn-danger'>Удалить выбранных</button>\n</form>\n</div>");
    string_of(out.as_slice())
}


/// The rows of the test-user list, in order.
pub open spec fn test_user_rows_spec(users: Seq<UserRow>) -> Seq<char>
    decreases users.len(),
{
    if users.len() == 0 {
        Seq::empty()
    } else {
        test_user_rows_spec(users.drop_last()) + test_user_row_spec(users.last())
    }
}

/// The test-user page: the pattern in use, and a row with a selection box
/// for each account.
pub fn render_test_users_body(pattern: &str, csrf: &str, users: &[UserRow]) -> (html: String)
    ensures
        html@ == test_users_body_spec(pattern@, csrf@, test_user_rows_spec(users@)),
{
    let mut rows: Vec<char> = Vec::new();
    let mut i: usize = 0;
    while i < users.len()
        invariant
            i <= users@.len(),
            rows@ == test_user_rows_spec(users@.take(i as int)),
        decreases users@.len() - i,
    {
        let row = render_test_user_row(&users[i]);
        push_all(&mut rows, row.as_slice());
        proof {
            assert(users@.take(i + 1).drop_last() =~= users@.take(i as int));
            assert(users@.take(i + 1).last() == users@[i as int]);
        }
        i = i + 1;
    }
    proof {
        assert(users@.take(users@.len() as int) =~= users@);
    }
    render_test_users_body_with(pattern, csrf, &rows)
}

} // verus!
