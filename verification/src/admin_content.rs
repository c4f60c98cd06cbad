//! HTML fragments of the administration panel's content views: GIFs,
//! client downloads, database tools, servers and file markers.

use vstd::prelude::*;
use vstd::utf8::encode_utf8;
use crate::admin::{
    AdminSession, admin_download_platform_label, admin_dt_spec, admin_format_bytes,
    download_platform_label_spec, fmt_admin_dt, format_bytes_spec,
};
use crate::admin_users::{esc, yes_no};
use crate::encoding::{lossy_text, percent_decode, url_decode_component_lossy};
use crate::html::{escape_chars, escape_html_spec};
use crate::html::{br_lines, escape_html_lines};
use crate::patterns::{
    captures_all, group, group_at, groups_view, opt_view, regex_capture_groups, regex_pieces,
    split_by,
};
use crate::text::{
    ascii_lower, chars_of, ends_with, ends_with_lit, i64_text, int_text, parse_i64,
    parse_i64_spec, push_all, push_lit, starts_with, starts_with_lit, string_of, to_ascii_lower,
    trim, trim_chars,
};

verus! {

/// A global GIF as the panel lists it.
pub struct AdminGifRow {
    pub id: i64,
    pub original_name: String,
    pub file_size: i64,
    pub created_at: String,
}

/// An uploaded client build as the panel lists it.
pub struct AdminDownloadRow {
    pub id: i64,
    pub platform: String,
    pub version: String,
    pub original_name: String,
    pub file_size: i64,
    pub uploaded_at: String,
    pub is_active: bool,
}

/// A server as the panel lists it.
pub struct AdminServerRow {
    pub id: i64,
    pub name: String,
    pub owner_id: i64,
    pub owner_username: String,
    pub created_at: String,
}


/// One global GIF with its delete button.
pub open spec fn gif_card_spec(csrf: Seq<char>, r: AdminGifRow, return_to: Seq<char>) -> Seq<char> {
    "<div class='admin-gif-card'>\n  <div class='admin-gif-thumb'><img src='/admin/gifs/"@ + int_text(r.id as int) + "/raw' alt='"@ + escape_html_spec(r.original_name@) + "' loading='lazy'></div>\n  <div class='admin-gif-body'>\n    <div class='admin-gif-name' title='"@ + escape_html_spec(r.original_name@) + "'>"@ + escape_html_spec(r.original_name@) + "</div>\n    <div class='small'>"@ + escape_html_spec(format_bytes_spec(r.file_size)) + " • "@ + escape_html_spec(admin_dt_spec(r.created_at@)) + "</div>\n    <div class='admin-gif-actions'>\n      <form method='post' action='/admin/gifs/"@ + int_text(r.id as int) + "/delete'>\n        <input type='hidden' name='csrf' value='"@ + escape_html_spec(csrf) + "'>\n        <input type='hidden' name='return_to' value='"@ + escape_html_spec(return_to) + "'>\n        <button type='submit' class='btn-danger'>Удалить</button>\n      </form>\n    </div>\n  </div>\n</div>"@
}

fn gif_card(csrf: &str, r: &AdminGifRow, return_to: &str) -> (html: Vec<char>)
    ensures
        html@ == gif_card_spec(csrf@, *r, return_to@),
{
    let mut out = chars_of("<div class='admin-gif-card'>\n  <div class='admin-gif-thumb'><img src='/admin/gifs/");
    push_all(&mut out, i64_text(r.id).as_slice());
    push_lit(&mut out, "/raw' alt='");
    push_all(&mut out, esc(r.original_name.as_str()).as_slice());
    push_lit(&mut out, "' loading='lazy'></div>\n  <div class='admin-gif-body'>\n    <div class='admin-gif-name' title='");
    push_all(&mut out, esc(r.original_name.as_str()).as_slice());
    push_lit(&mut out, "'>");
    push_all(&mut out, esc(r.original_name.as_str()).as_slice());
    push_lit(&mut out, "</div>\n    <div class='small'>");
    push_all(&mut out, esc(admin_format_bytes(r.file_size).as_str()).as_slice());
    push_lit(&mut out, " • ");
    push_all(&mut out, esc(fmt_admin_dt(r.created_at.as_str()).as_str()).as_slice());
    push_lit(&mut out, "</div>\n    <div class='admin-gif-actions'>\n      <form method='post' action='/admin/gifs/");
    push_all(&mut out, i64_text(r.id).as_slice());
    push_lit(&mut out, "/delete'>\n        <input type='hidden' name='csrf' value='");
    push_all(&mut out, esc(csrf).as_slice());
    push_lit(&mut out, "'>\n        <input type='hidden' name='return_to' value='");
    push_all(&mut out, esc(return_to).as_slice());
    push_lit(&mut out, "'>\n        <button type='submit' class='btn-danger'>Удалить</button>\n      </form>\n    </div>\n  </div>\n</div>");
    out
}


pub open spec fn gif_cards(csrf: Seq<char>, rs: Seq<AdminGifRow>, return_to: Seq<char>) -> Seq<char>
    decreases rs.len(),
{
    if rs.len() == 0 {
        seq![]
    } else {
        gif_cards(csrf, rs.drop_last(), return_to) + gif_card_spec(csrf, rs.last(), return_to)
    }
}

fn gif_cards_exec(csrf: &str, rows: &[AdminGifRow], return_to: &str) -> (html: Vec<char>)
    ensures
        html@ == gif_cards(csrf@, rows@, return_to@),
{
    let mut out: Vec<char> = Vec::new();
    let mut i: usize = 0;
    while i < rows.len()
        invariant
            i <= rows.len(),
            out@ == gif_cards(csrf@, rows@.take(i as int), return_to@),
        decreases rows.len() - i,
    {
        let card = gif_card(csrf, &rows[i], return_to);
        push_all(&mut out, card.as_slice());
        proof {
            let t = rows@.take(i + 1);
            assert(t.drop_last() =~= rows@.take(i as int));
            assert(t.last() == rows@[i as int]);
        }
        i = i + 1;
    }
    proof {
        assert(rows@.take(rows@.len() as int) =~= rows@);
    }
    out
}


/// The GIF view: the upload form and the global GIFs.
pub open spec fn gifs_panel_spec(csrf: Seq<char>, rows: Seq<AdminGifRow>, return_to: Seq<char>) -> Seq<char> {
    "<div class='admin-gif-shell'>\n  <aside class='admin-gif-upload'>\n    <h2>Глобальные GIF</h2>\n    <p class='small'>Эти GIF видят все пользователи в пикере. Личные избранные пользователи добавляют сами из чата.</p>\n    <form method='post' action='/admin/gifs/upload' enctype='multipart/form-data'>\n      <input type='hidden' name='csrf' value='"@ + escape_html_spec(csrf) + "'>\n      <input type='hidden' name='return_to' value='"@ + escape_html_spec(return_to) + "'>\n      <input type='file' name='file' accept='image/gif,.gif' required>\n      <button type='submit'>Добавить GIF</button>\n    </form>\n  </aside>\n  <section>\n    <div class='admin-gif-grid'>"@ + (if rows.len() == 0 { "<div class='empty-state'>Глобальных GIF пока нет. Загрузи первую анимацию слева.</div>"@ } else { gif_cards(csrf, rows, return_to) }) + "</div>\n  </section>\n</div>"@
}

pub fn render_admin_gifs_panel_body(sess: &AdminSession, rows: &[AdminGifRow], return_to: &str) -> (html: String)
    ensures
        html@ == gifs_panel_spec(sess.csrf@, rows@, return_to@),
{
    let cards = if rows.len() == 0 {
        chars_of("<div class='empty-state'>Глобальных GIF пока нет. Загрузи первую анимацию слева.</div>")
    } else {
        gif_cards_exec(sess.csrf.as_str(), rows, return_to)
    };
    let mut out = chars_of("<div class='admin-gif-shell'>\n  <aside class='admin-gif-upload'>\n    <h2>Глобальные GIF</h2>\n    <p class='small'>Эти GIF видят все пользователи в пикере. Личные избранные пользователи добавляют сами из чата.</p>\n    <form method='post' action='/admin/gifs/upload' enctype='multipart/form-data'>\n      <input type='hidden' name='csrf' value='");
    push_all(&mut out, esc(sess.csrf.as_str()).as_slice());
    push_lit(&mut out, "'>\n      <input type='hidden' name='return_to' value='");
    push_all(&mut out, esc(return_to).as_slice());
    push_lit(&mut out, "'>\n      <input type='file' name='file' accept='image/gif,.gif' required>\n      <button type='submit'>Добавить GIF</button>\n    </form>\n  </aside>\n  <section>\n    <div class='admin-gif-grid'>");
    push_all(&mut out, cards.as_slice());
    push_lit(&mut out, "</div>\n  </section>\n</div>");
    string_of(out.as_slice())
}


pub open spec fn download_link_spec(r: AdminDownloadRow) -> Seq<char> {
    if r.is_active {
        "<a href='/api/downloads/"@ + escape_html_spec(r.platform@) + "/file' target='_blank' rel='noopener'>Скачать</a>"@
    } else {
        seq![]
    }
}

pub open spec fn version_text_spec(version: Seq<char>) -> Seq<char> {
    if trim(version).len() == 0 {
        "без версии"@
    } else {
        version
    }
}

pub open spec fn active_cls_spec(active: bool) -> Seq<char> {
    if active {
        "status-active"@
    } else {
        seq![]
    }
}


/// One uploaded client build with its links.
pub open spec fn download_card_spec(csrf: Seq<char>, r: AdminDownloadRow, return_to: Seq<char>) -> Seq<char> {
    "<div class='admin-download-card'>\n  <div class='admin-download-top'>\n    <div>\n      <div class='admin-download-title'>"@ + escape_html_spec(download_platform_label_spec(r.platform@)) + "</div>\n      <div class='admin-download-meta'>"@ + escape_html_spec(r.original_name@) + "</div>\n    </div>\n    <span class='status-badge "@ + active_cls_spec(r.is_active) + "'>"@ + yes_no(r.is_active, "Активна"@, "Скрыта"@) + "</span>\n  </div>\n  <div class='admin-download-meta'>Версия: "@ + escape_html_spec(version_text_spec(r.version@)) + "</div>\n  <div class='admin-download-meta'>"@ + escape_html_spec(format_bytes_spec(r.file_size)) + " • "@ + escape_html_spec(admin_dt_spec(r.uploaded_at@)) + "</div>\n  <div class='admin-download-actions'>\n    "@ + download_link_spec(r) + "\n    <form method='post' action='/admin/downloads/"@ + int_text(r.id as int) + "/delete'>\n      <input type='hidden' name='csrf' value='"@ + escape_html_spec(csrf) + "'>\n      <input type='hidden' name='return_to' value='"@ + escape_html_spec(return_to) + "'>\n      <button type='submit' class='btn-danger'>Удалить</button>\n    </form>\n  </div>\n</div>"@
}

fn download_card(csrf: &str, r: &AdminDownloadRow, return_to: &str) -> (html: Vec<char>)
    ensures
        html@ == download_card_spec(csrf@, *r, return_to@),
{
    let download_link: Vec<char> = if r.is_active {
        let mut l = chars_of("<a href='/api/downloads/");
        push_all(&mut l, esc(r.platform.as_str()).as_slice());
        push_lit(&mut l, "/file' target='_blank' rel='noopener'>Скачать</a>");
        l
    } else {
        Vec::new()
    };
    let version_text: Vec<char> = if trim_chars(chars_of(r.version.as_str()).as_slice()).len() == 0 {
        chars_of("без версии")
    } else {
        chars_of(r.version.as_str())
    };
    let active_cls: Vec<char> = if r.is_active {
        chars_of("status-active")
    } else {
        Vec::new()
    };
    let active: Vec<char> = if r.is_active {
        chars_of("Активна")
    } else {
        chars_of("Скрыта")
    };
    let mut out = chars_of("<div class='admin-download-card'>\n  <div class='admin-download-top'>\n    <div>\n      <div class='admin-download-title'>");
    push_all(&mut out, esc(admin_download_platform_label(r.platform.as_str())).as_slice());
    push_lit(&mut out, "</div>\n      <div class='admin-download-meta'>");
    push_all(&mut out, esc(r.original_name.as_str()).as_slice());
    push_lit(&mut out, "</div>\n    </div>\n    <span class='status-badge ");
    push_all(&mut out, active_cls.as_slice());
    push_lit(&mut out, "'>");
    push_all(&mut out, active.as_slice());
    push_lit(&mut out, "</span>\n  </div>\n  <div class='admin-download-meta'>Версия: ");
    push_all(&mut out, escape_chars(version_text.as_slice()).as_slice());
    push_lit(&mut out, "</div>\n  <div class='admin-download-meta'>");
    push_all(&mut out, esc(admin_format_bytes(r.file_size).as_str()).as_slice());
    push_lit(&mut out, " • ");
    push_all(&mut out, esc(fmt_admin_dt(r.uploaded_at.as_str()).as_str()).as_slice());
    push_lit(&mut out, "</div>\n  <div class='admin-download-actions'>\n    ");
    push_all(&mut out, download_link.as_slice());
    push_lit(&mut out, "\n    <form method='post' action='/admin/downloads/");
    push_all(&mut out, i64_text(r.id).as_slice());
    push_lit(&mut out, "/delete'>\n      <input type='hidden' name='csrf' value='");
    push_all(&mut out, esc(csrf).as_slice());
    push_lit(&mut out, "'>\n      <input type='hidden' name='return_to' value='");
    push_all(&mut out, esc(return_to).as_slice());
    push_lit(&mut out, "'>\n      <button type='submit' class='btn-danger'>Удалить</button>\n    </form>\n  </div>\n</div>");
    out
}


pub open spec fn download_cards(csrf: Seq<char>, rs: Seq<AdminDownloadRow>, return_to: Seq<char>) -> Seq<char>
    decreases rs.len(),
{
    if rs.len() == 0 {
        seq![]
    } else {
        download_cards(csrf, rs.drop_last(), return_to) + download_card_spec(csrf, rs.last(), return_to)
    }
}

fn download_cards_exec(csrf: &str, rows: &[AdminDownloadRow], return_to: &str) -> (html: Vec<char>)
    ensures
        html@ == download_cards(csrf@, rows@, return_to@),
{
    let mut out: Vec<char> = Vec::new();
    let mut i: usize = 0;
    while i < rows.len()
        invariant
            i <= rows.len(),
            out@ == download_cards(csrf@, rows@.take(i as int), return_to@),
        decreases rows.len() - i,
    {
        let card = download_card(csrf, &rows[i], return_to);
        push_all(&mut out, card.as_slice());
        proof {
            let t = rows@.take(i + 1);
            assert(t.drop_last() =~= rows@.take(i as int));
            assert(t.last() == rows@[i as int]);
        }
        i = i + 1;
    }
    proof {
        assert(rows@.take(rows@.len() as int) =~= rows@);
    }
    out
}


/// The client download view: the upload form and the uploaded builds.
pub open spec fn downloads_panel_spec(csrf: Seq<char>, rows: Seq<AdminDownloadRow>, return_to: Seq<char>) -> Seq<char> {
    "<div class='admin-download-shell'>\n  <aside class='admin-download-upload'>\n    <h2>Загрузки приложения</h2>\n    <p class='small'>Файлы отсюда раздаются сервером на странице скачивания LaBerry. Новая загрузка заменяет активную версию выбранной платформы.</p>\n    <form method='post' action='/admin/downloads/upload' enctype='multipart/form-data'>\n      <input type='hidden' name='csrf' value='"@ + escape_html_spec(csrf) + "'>\n      <input type='hidden' name='return_to' value='"@ + escape_html_spec(return_to) + "'>\n      <label class='small'>Платформа</label>\n      <select name='platform' required>\n        <option value='android'>Android APK</option>\n        <option value='pc'>ПК клиент</option>\n      </select>\n      <label class='small'>Версия</label>\n      <input type='text' name='version' maxlength='64' placeholder='Например: 0.9.3'>\n      <input type='file' name='file' accept='.apk,.exe,.msi,.zip,.7z,.rar' required>\n      <button type='submit'>Загрузить</button>\n    </form>\n  </aside>\n  <section>\n    <div class='admin-download-grid'>"@ + (if rows.len() == 0 { "<div class='empty-state'>Загрузок пока нет. Загрузите APK или ПК клиент слева.</div>"@ } else { download_cards(csrf, rows, return_to) }) + "</div>\n  </section>\n</div>"@
}

pub fn render_admin_downloads_panel_body(sess: &AdminSession, rows: &[AdminDownloadRow], return_to: &str) -> (html: String)
    ensures
        html@ == downloads_panel_spec(sess.csrf@, rows@, return_to@),
{
    let cards = if rows.len() == 0 {
        chars_of("<div class='empty-state'>Загрузок пока нет. Загрузите APK или ПК клиент слева.</div>")
    } else {
        download_cards_exec(sess.csrf.as_str(), rows, return_to)
    };
    let mut out = chars_of("<div class='admin-download-shell'>\n  <aside class='admin-download-upload'>\n    <h2>Загрузки приложения</h2>\n    <p class='small'>Файлы отсюда раздаются сервером на странице скачивания LaBerry. Новая загрузка заменяет активную версию выбранной платформы.</p>\n    <form method='post' action='/admin/downloads/upload' enctype='multipart/form-data'>\n      <input type='hidden' name='csrf' value='");
    push_all(&mut out, esc(sess.csrf.as_str()).as_slice());
    push_lit(&mut out, "'>\n      <input type='hidden' name='return_to' value='");
    push_all(&mut out, esc(return_to).as_slice());
    push_lit(&mut out, "'>\n      <label class='small'>Платформа</label>\n      <select name='platform' required>\n        <option value='android'>Android APK</option>\n        <option value='pc'>ПК клиент</option>\n      </select>\n      <label class='small'>Версия</label>\n      <input type='text' name='version' maxlength='64' placeholder='Например: 0.9.3'>\n      <input type='file' name='file' accept='.apk,.exe,.msi,.zip,.7z,.rar' required>\n      <button type='submit'>Загрузить</button>\n    </form>\n  </aside>\n  <section>\n    <div class='admin-download-grid'>");
    push_all(&mut out, cards.as_slice());
    push_lit(&mut out, "</div>\n  </section>\n</div>");
    string_of(out.as_slice())
}


/// The database tools view.
pub open spec fn db_panel_spec(csrf: Seq<char>, return_to: Seq<char>) -> Seq<char> {
    "\n<div class='card'>\n  <div class='hstack'>\n    <h2 style='margin:0;'>База данных</h2>\n    <span class='pill'>Прямое выполнение</span>\n  </div>\n  <div class='small' style='margin-top:10px;'>Операции на этой странице запускаются сразу по нажатию. Интерфейс использует единый UTC-формат времени.</div>\n</div>\n\n<div class='db-list'>\n  <div class='db-card'>\n    <h3>Очистить сообщения и вложения</h3>\n    <div class='small'>Удаляет сообщения, реакции, закрепы, chat_reads, записи files и сами файлы. Пользователи, серверы и каналы остаются.</div>\n    <div style='height:12px'></div>\n    <form method='post' action='/admin/db/wipe_messages'>\n      <input type='hidden' name='csrf' value='"@ + escape_html_spec(csrf) + "' />\n      <input type='hidden' name='return_to' value='"@ + escape_html_spec(return_to) + "' />\n      <button type='submit' class='btn-soft'>Очистить сообщения</button>\n    </form>\n  </div>\n\n  <div class='db-card'>\n    <h3>Очистить серверы и каналы</h3>\n    <div class='small danger-note'>Удаляет все серверы, каналы, сообщения и файлы внутри них. Личные сообщения не трогаются.</div>\n    <div style='height:12px'></div>\n    <form method='post' action='/admin/db/wipe_servers'>\n      <input type='hidden' name='csrf' value='"@ + escape_html_spec(csrf) + "' />\n      <input type='hidden' name='return_to' value='"@ + escape_html_spec(return_to) + "' />\n      <button type='submit' class='btn-danger'>Очистить серверы</button>\n    </form>\n  </div>\n\n  <div class='db-card'>\n    <h3>Сбросить всё, кроме пользователей</h3>\n    <div class='small danger-note'>Профили, настройки, сессии, друзья, серверы, ЛС, сообщения и файлы будут удалены. Глобальный сервер создастся заново автоматически.</div>\n    <div style='height:12px'></div>\n    <form method='post' action='/admin/db/reset_keep_users'>\n      <input type='hidden' name='csrf' value='"@ + escape_html_spec(csrf) + "' />\n      <input type='hidden' name='return_to' value='"@ + escape_html_spec(return_to) + "' />\n      <button type='submit' class='btn-danger'>Сбросить, оставить пользователей</button>\n    </form>\n  </div>\n\n  <div class='db-card'>\n    <h3>Очистить просроченные файлы</h3>\n    <div class='small'>Удаляет истёкшие временные вложения и мусорные файлы/thumbs без записей в БД.</div>\n    <div style='height:12px'></div>\n    <form method='post' action='/admin/db/cleanup_expired_files'>\n      <input type='hidden' name='csrf' value='"@ + escape_html_spec(csrf) + "' />\n      <input type='hidden' name='return_to' value='"@ + escape_html_spec(return_to) + "' />\n      <button type='submit' class='btn-soft'>Очистить файлы</button>\n    </form>\n  </div>\n\n  <div class='db-card'>\n    <h3>Выполнить VACUUM</h3>\n    <div class='small'>Пересобирает файл базы данных. Во время работы может потребоваться до ~2× свободного места на диске.</div>\n    <div style='height:12px'></div>\n    <form method='post' action='/admin/db/vacuum'>\n      <input type='hidden' name='csrf' value='"@ + escape_html_spec(csrf) + "' />\n      <input type='hidden' name='return_to' value='"@ + escape_html_spec(return_to) + "' />\n      <button type='submit' class='btn-soft'>Запустить VACUUM</button>\n    </form>\n  </div>\n</div>\n"@
}

pub fn render_db_panel_body(sess: &AdminSession, return_to: &str) -> (html: String)
    ensures
        html@ == db_panel_spec(sess.csrf@, return_to@),
{
    let mut out = chars_of("\n<div class='card'>\n  <div class='hstack'>\n    <h2 style='margin:0;'>База данных</h2>\n    <span class='pill'>Прямое выполнение</span>\n  </div>\n  <div class='small' style='margin-top:10px;'>Операции на этой странице запускаются сразу по нажатию. Интерфейс использует единый UTC-формат времени.</div>\n</div>\n\n<div class='db-list'>\n  <div class='db-card'>\n    <h3>Очистить сообщения и вложения</h3>\n    <div class='small'>Удаляет сообщения, реакции, закрепы, chat_reads, записи files и сами файлы. Пользователи, серверы и каналы остаются.</div>\n    <div style='height:12px'></div>\n    <form method='post' action='/admin/db/wipe_messages'>\n      <input type='hidden' name='csrf' value='");
    push_all(&mut out, esc(sess.csrf.as_str()).as_slice());
    push_lit(&mut out, "' />\n      <input type='hidden' name='return_to' value='");
    push_all(&mut out, esc(return_to).as_slice());
    push_lit(&mut out, "' />\n      <button type='submit' class='btn-soft'>Очистить сообщения</button>\n    </form>\n  </div>\n\n  <div class='db-card'>\n    <h3>Очистить серверы и каналы</h3>\n    <div class='small danger-note'>Удаляет все серверы, каналы, сообщения и файлы внутри них. Личные сообщения не трогаются.</div>\n    <div style='height:12px'></div>\n    <form method='post' action='/admin/db/wipe_servers'>\n      <input type='hidden' name='csrf' value='");
    push_all(&mut out, esc(sess.csrf.as_str()).as_slice());
    push_lit(&mut out, "' />\n      <input type='hidden' name='return_to' value='");
    push_all(&mut out, esc(return_to).as_slice());
    push_lit(&mut out, "' />\n      <button type='submit' class='btn-danger'>Очистить серверы</button>\n    </form>\n  </div>\n\n  <div class='db-card'>\n    <h3>Сбросить всё, кроме пользователей</h3>\n    <div class='small danger-note'>Профили, настройки, сессии, друзья, серверы, ЛС, сообщения и файлы будут удалены. Глобальный сервер создастся заново автоматически.</div>\n    <div style='height:12px'></div>\n    <form method='post' action='/admin/db/reset_keep_users'>\n      <input type='hidden' name='csrf' value='");
    push_all(&mut out, esc(sess.csrf.as_str()).as_slice());
    push_lit(&mut out, "' />\n      <input type='hidden' name='return_to' value='");
    push_all(&mut out, esc(return_to).as_slice());
    push_lit(&mut out, "' />\n      <button type='submit' class='btn-danger'>Сбросить, оставить пользователей</button>\n    </form>\n  </div>\n\n  <div class='db-card'>\n    <h3>Очистить просроченные файлы</h3>\n    <div class='small'>Удаляет истёкшие временные вложения и мусорные файлы/thumbs без записей в БД.</div>\n    <div style='height:12px'></div>\n    <form method='post' action='/admin/db/cleanup_expired_files'>\n      <input type='hidden' name='csrf' value='");
    push_all(&mut out, esc(sess.csrf.as_str()).as_slice());
    push_lit(&mut out, "' />\n      <input type='hidden' name='return_to' value='");
    push_all(&mut out, esc(return_to).as_slice());
    push_lit(&mut out, "' />\n      <button type='submit' class='btn-soft'>Очистить файлы</button>\n    </form>\n  </div>\n\n  <div class='db-card'>\n    <h3>Выполнить VACUUM</h3>\n    <div class='small'>Пересобирает файл базы данных. Во время работы может потребоваться до ~2× свободного места на диске.</div>\n    <div style='height:12px'></div>\n    <form method='post' action='/admin/db/vacuum'>\n      <input type='hidden' name='csrf' value='");
    push_all(&mut out, esc(sess.csrf.as_str()).as_slice());
    push_lit(&mut out, "' />\n      <input type='hidden' name='return_to' value='");
    push_all(&mut out, esc(return_to).as_slice());
    push_lit(&mut out, "' />\n      <button type='submit' class='btn-soft'>Запустить VACUUM</button>\n    </form>\n  </div>\n</div>\n");
    string_of(out.as_slice())
}


/// The server view, around rows already rendered.
pub open spec fn servers_panel_spec(query: Seq<char>, rows_html: Seq<char>, embedded: bool) -> Seq<char> {
    if embedded {
        "<div class='card'><div class='search-row'><div class='hstack'><h2 style='margin:0;'>Серверы</h2><span class='pill'>UTC</span></div><div class='center-inline-search'><input type='text' data-persist-key='admin-center-servers-search' data-filter-input='servers' value='"@ + escape_html_spec(query) + "' placeholder='Поиск: название сервера / id' /><button type='button' class='btn-soft' data-clear-filter='servers'>Сбросить</button></div></div></div><div class='card'><div class='servers-list' data-filter-list='servers'>"@ + rows_html + "</div></div>"@
    } else {
        "<div class='card'><div class='search-row'><div class='hstack'><h2 style='margin:0;'>Серверы</h2><span class='pill'>UTC</span></div><form method='get' action='/admin/servers'><input type='text' name='q' value='"@ + escape_html_spec(query) + "' placeholder='Поиск: название сервера / id (пусто = последние)' /><button type='submit'>Найти</button></form></div></div><div class='card'><div class='servers-list'>"@ + rows_html + "</div></div>"@
    }
}

pub fn render_servers_panel_body(query: &str, rows_html: &str, embedded: bool) -> (html: String)
    ensures
        html@ == servers_panel_spec(query@, rows_html@, embedded),
{
    if embedded {
        let mut out = chars_of("<div class='card'><div class='search-row'><div class='hstack'><h2 style='margin:0;'>Серверы</h2><span class='pill'>UTC</span></div><div class='center-inline-search'><input type='text' data-persist-key='admin-center-servers-search' data-filter-input='servers' value='");
        push_all(&mut out, esc(query).as_slice());
        push_lit(&mut out, "' placeholder='Поиск: название сервера / id' /><button type='button' class='btn-soft' data-clear-filter='servers'>Сбросить</button></div></div></div><div class='card'><div class='servers-list' data-filter-list='servers'>");
        push_all(&mut out, chars_of(rows_html).as_slice());
        push_lit(&mut out, "</div></div>");
        return string_of(out.as_slice());
    }
    let mut out = chars_of("<div class='card'><div class='search-row'><div class='hstack'><h2 style='margin:0;'>Серверы</h2><span class='pill'>UTC</span></div><form method='get' action='/admin/servers'><input type='text' name='q' value='");
    push_all(&mut out, esc(query).as_slice());
    push_lit(&mut out, "' placeholder='Поиск: название сервера / id (пусто = последние)' /><button type='submit'>Найти</button></form></div></div><div class='card'><div class='servers-list'>");
    push_all(&mut out, chars_of(rows_html).as_slice());
    push_lit(&mut out, "</div></div>");
    string_of(out.as_slice())
}


/// One server of the server view, with its actions.
pub open spec fn server_row_spec(csrf: Seq<char>, s: AdminServerRow, return_to: Seq<char>) -> Seq<char> {
    "<div class='server-row-card'><div class='server-main'><div class='server-top'><div class='server-title'><span class='server-id'>#"@ + int_text(s.id as int) + "</span><span class='server-name'>"@ + escape_html_spec(s.name@) + "</span></div><div class='user-meta'>Создан: "@ + escape_html_spec(admin_dt_spec(s.created_at@)) + "</div></div><div class='server-meta'>Владелец: #"@ + int_text(s.owner_id as int) + " "@ + escape_html_spec(s.owner_username@) + "</div></div><div class='server-actions'><form method=\"post\" action=\"/admin/servers/"@ + int_text(s.id as int) + "/remove_user\" class=\"inline-form\" style=\"display:flex; gap:4px; align-items:center;\"><input type=\"hidden\" name=\"csrf\" value=\""@ + escape_html_spec(csrf) + "\" /><input type=\"hidden\" name=\"return_to\" value=\""@ + escape_html_spec(return_to) + "\" /><input type=\"text\" name=\"user_id\" placeholder=\"User ID\" style=\"width:70px; padding:6px;\" required /><button type=\"submit\" class=\"btn-danger\" style=\"padding:6px 10px;\">Удалить юзера</button></form><form method='post' action='/admin/servers/"@ + int_text(s.id as int) + "/add_all_users' class='inline-form'><input type='hidden' name='csrf' value='"@ + escape_html_spec(csrf) + "' /><input type='hidden' name='return_to' value='"@ + escape_html_spec(return_to) + "' /><button type='submit' class='btn-soft'>Добавить всех</button></form><form method='post' action='/admin/servers/"@ + int_text(s.id as int) + "/delete' class='inline-form'><input type='hidden' name='csrf' value='"@ + escape_html_spec(csrf) + "' /><input type='hidden' name='return_to' value='"@ + escape_html_spec(return_to) + "' /><button type='submit' class='btn-danger'>Удалить сервер</button></form></div></div>"@
}

pub fn render_server_row(csrf: &str, s: &AdminServerRow, return_to: &str) -> (html: String)
    ensures
        html@ == server_row_spec(csrf@, *s, return_to@),
{
    let mut out = chars_of("<div class='server-row-card'><div class='server-main'><div class='server-top'><div class='server-title'><span class='server-id'>#");
    push_all(&mut out, i64_text(s.id).as_slice());
    push_lit(&mut out, "</span><span class='server-name'>");
    push_all(&mut out, esc(s.name.as_str()).as_slice());
    push_lit(&mut out, "</span></div><div class='user-meta'>Создан: ");
    push_all(&mut out, esc(fmt_admin_dt(s.created_at.as_str()).as_str()).as_slice());
    push_lit(&mut out, "</div></div><div class='server-meta'>Владелец: #");
    push_all(&mut out, i64_text(s.owner_id).as_slice());
    push_lit(&mut out, " ");
    push_all(&mut out, esc(s.owner_username.as_str()).as_slice());
    push_lit(&mut out, "</div></div><div class='server-actions'><form method=\"post\" action=\"/admin/servers/");
    push_all(&mut out, i64_text(s.id).as_slice());
    push_lit(&mut out, "/remove_user\" class=\"inline-form\" style=\"display:flex; gap:4px; align-items:center;\"><input type=\"hidden\" name=\"csrf\" value=\"");
    push_all(&mut out, esc(csrf).as_slice());
    push_lit(&mut out, "\" /><input type=\"hidden\" name=\"return_to\" value=\"");
    push_all(&mut out, esc(return_to).as_slice());
    push_lit(&mut out, "\" /><input type=\"text\" name=\"user_id\" placeholder=\"User ID\" style=\"width:70px; padding:6px;\" required /><button type=\"submit\" class=\"btn-danger\" style=\"padding:6px 10px;\">Удалить юзера</button></form><form method='post' action='/admin/servers/");
    push_all(&mut out, i64_text(s.id).as_slice());
    push_lit(&mut out, "/add_all_users' class='inline-form'><input type='hidden' name='csrf' value='");
    push_all(&mut out, esc(csrf).as_slice());
    push_lit(&mut out, "' /><input type='hidden' name='return_to' value='");
    push_all(&mut out, esc(return_to).as_slice());
    push_lit(&mut out, "' /><button type='submit' class='btn-soft'>Добавить всех</button></form><form method='post' action='/admin/servers/");
    push_all(&mut out, i64_text(s.id).as_slice());
    push_lit(&mut out, "/delete' class='inline-form'><input type='hidden' name='csrf' value='");
    push_all(&mut out, esc(csrf).as_slice());
    push_lit(&mut out, "' /><input type='hidden' name='return_to' value='");
    push_all(&mut out, esc(return_to).as_slice());
    push_lit(&mut out, "' /><button type='submit' class='btn-danger'>Удалить сервер</button></form></div></div>");
    string_of(out.as_slice())
}


/// The MIME type shown for a file: trimmed, or the generic type when blank.
pub open spec fn clean_mime_spec(mime: Seq<char>) -> Seq<char> {
    if trim(mime).len() == 0 {
        "application/octet-stream"@
    } else {
        trim(mime)
    }
}

/// The short type badge of a file.
pub open spec fn type_label_spec(clean_mime: Seq<char>, name: Seq<char>) -> Seq<char> {
    if starts_with(clean_mime, "image/"@) {
        "IMG"@
    } else if starts_with(clean_mime, "video/"@) {
        "VID"@
    } else if starts_with(clean_mime, "audio/"@) {
        "AUD"@
    } else if ends_with(ascii_lower(name), ".md"@) {
        "MD"@
    } else {
        "FILE"@
    }
}


/// A file attached to a message, as the panel shows it: type badge, decoded name, id, type and size, and a download link.
pub open spec fn file_marker_spec(file_id: i64, encoded_name: Seq<char>, mime: Seq<char>, size: i64) -> Seq<char> {
    "<div class='admin-file-card'>\n  <div class='admin-file-type'>"@ + escape_html_spec(type_label_spec(clean_mime_spec(mime), lossy_text(percent_decode(encode_utf8(encoded_name))))) + "</div>\n  <div class='admin-file-main'>\n    <div class='admin-file-name'>"@ + escape_html_spec(lossy_text(percent_decode(encode_utf8(encoded_name)))) + "</div>\n    <div class='admin-file-meta'>#"@ + int_text(file_id as int) + " · "@ + escape_html_spec(clean_mime_spec(mime)) + " · "@ + escape_html_spec(format_bytes_spec(size)) + "</div>\n  </div>\n  <a class='admin-file-action' href='/admin/files/"@ + int_text(file_id as int) + "/raw' target='_blank' rel='noopener'>Скачать</a>\n</div>"@
}

pub fn render_admin_file_marker(file_id: i64, encoded_name: &str, mime: &str, size: i64) -> (html: String)
    ensures
        html@ == file_marker_spec(file_id, encoded_name@, mime@, size),
{
    let name = url_decode_component_lossy(encoded_name);
    let t = trim_chars(chars_of(mime).as_slice());
    let clean_mime: Vec<char> = if t.len() == 0 {
        chars_of("application/octet-stream")
    } else {
        t
    };
    let cm = clean_mime.as_slice();
    let type_label: Vec<char> = if starts_with_lit(cm, "image/") {
        chars_of("IMG")
    } else if starts_with_lit(cm, "video/") {
        chars_of("VID")
    } else if starts_with_lit(cm, "audio/") {
        chars_of("AUD")
    } else if ends_with_lit(to_ascii_lower(chars_of(name.as_str()).as_slice()).as_slice(), ".md") {
        chars_of("MD")
    } else {
        chars_of("FILE")
    };
    let mut out = chars_of("<div class='admin-file-card'>\n  <div class='admin-file-type'>");
    push_all(&mut out, escape_chars(type_label.as_slice()).as_slice());
    push_lit(&mut out, "</div>\n  <div class='admin-file-main'>\n    <div class='admin-file-name'>");
    push_all(&mut out, esc(name.as_str()).as_slice());
    push_lit(&mut out, "</div>\n    <div class='admin-file-meta'>#");
    push_all(&mut out, i64_text(file_id).as_slice());
    push_lit(&mut out, " · ");
    push_all(&mut out, escape_chars(cm).as_slice());
    push_lit(&mut out, " · ");
    push_all(&mut out, esc(admin_format_bytes(size).as_str()).as_slice());
    push_lit(&mut out, "</div>\n  </div>\n  <a class='admin-file-action' href='/admin/files/");
    push_all(&mut out, i64_text(file_id).as_slice());
    push_lit(&mut out, "/raw' target='_blank' rel='noopener'>Скачать</a>\n</div>");
    string_of(out.as_slice())
}


/// A file marker `[[file:ID|NAME|MIME|SIZE]]` found in a message, as the
/// marker pattern captures it: the whole marker, the id digits, the name, and
/// the MIME type and the size where they are written.
pub struct MarkerCapture {
    pub whole: String,
    pub id: String,
    pub name: String,
    pub mime: Option<String>,
    pub size: Option<String>,
}

pub open spec fn opt_chars(o: Option<String>) -> Option<Seq<char>> {
    opt_view(o)
}

pub open spec fn capture_view(c: MarkerCapture) -> (
    Seq<char>,
    Seq<char>,
    Seq<char>,
    Option<Seq<char>>,
    Option<Seq<char>>,
) {
    (c.whole@, c.id@, c.name@, opt_chars(c.mime), opt_chars(c.size))
}

/// The file-marker grammar: `[[file:ID|NAME]]`, with `|MIME` and then
/// `|SIZE` written after the name where they are given.
pub open spec fn file_marker_pattern() -> Seq<char> {
    r"\[\[file:(\d+)\|([^|\]]+)(?:\|([^|\]]*))?(?:\|(\d+))?\]\]"@
}

/// A text, or empty where there is none.
pub open spec fn or_empty(o: Option<Seq<char>>) -> Seq<char> {
    match o {
        Some(t) => t,
        None => Seq::empty(),
    }
}

/// A marker from the groups of its match: the whole marker, the id digits,
/// the name (`file` where it is missing), and the MIME type and the size
/// where they are written.
pub open spec fn capture_of_groups(g: Seq<Option<Seq<char>>>) -> (
    Seq<char>,
    Seq<char>,
    Seq<char>,
    Option<Seq<char>>,
    Option<Seq<char>>,
) {
    (
        or_empty(group_at(g, 0)),
        or_empty(group_at(g, 1)),
        match group_at(g, 2) {
            Some(n) => n,
            None => "file"@,
        },
        group_at(g, 3),
        group_at(g, 4),
    )
}

/// The file markers of a message, in order; none where the grammar does not
/// compile.
pub open spec fn file_marker_captures(content: Seq<char>) -> Seq<
    (Seq<char>, Seq<char>, Seq<char>, Option<Seq<char>>, Option<Seq<char>>),
> {
    match regex_capture_groups(file_marker_pattern(), content) {
        Some(ms) => ms.map_values(|g: Seq<Option<Seq<char>>>| capture_of_groups(g)),
        None => Seq::empty(),
    }
}

/// The text of a message around its file markers; the whole message where
/// the grammar does not compile.
pub open spec fn file_marker_gaps(content: Seq<char>) -> Seq<Seq<char>> {
    match regex_pieces(file_marker_pattern(), content) {
        Some(p) => p,
        None => seq![content],
    }
}

fn text_or(o: Option<String>, fallback: &str) -> (r: String)
    ensures
        r@ == match opt_view(o) {
            Some(t) => t,
            None => fallback@,
        },
{
    match o {
        Some(t) => t,
        None => String::from_str(fallback),
    }
}

/// A marker from the groups of its match.
pub fn marker_from_groups(g: &Vec<Option<String>>) -> (c: MarkerCapture)
    ensures
        capture_view(c) == capture_of_groups(groups_view(*g)),
{
    proof {
        reveal_strlit("");
    }
    let whole = text_or(group(g, 0), "");
    let id = text_or(group(g, 1), "");
    let name = text_or(group(g, 2), "file");
    let mime = group(g, 3);
    let size = group(g, 4);
    proof {
        assert(Seq::<char>::empty() =~= ""@);
    }
    MarkerCapture { whole, id, name, mime, size }
}

/// The file markers of a message, in order.
pub fn find_file_markers(content: &str) -> (r: Vec<MarkerCapture>)
    ensures
        r@.map_values(|c: MarkerCapture| capture_view(c)) == file_marker_captures(content@),
{
    let mut out: Vec<MarkerCapture> = Vec::new();
    match captures_all(r"\[\[file:(\d+)\|([^|\]]+)(?:\|([^|\]]*))?(?:\|(\d+))?\]\]", content) {
        Some(ms) => {
            let ghost gv = ms@.map_values(|c: Vec<Option<String>>| groups_view(c));
            let mut i: usize = 0;
            while i < ms.len()
                invariant
                    i <= ms.len(),
                    gv == ms@.map_values(|c: Vec<Option<String>>| groups_view(c)),
                    out@.map_values(|c: MarkerCapture| capture_view(c)) == gv.take(i as int).map_values(
                        |g: Seq<Option<Seq<char>>>| capture_of_groups(g),
                    ),
                decreases ms.len() - i,
            {
                let ghost before = out@;
                out.push(marker_from_groups(&ms[i]));
                proof {
                    assert(gv[i as int] == groups_view(ms@[i as int]));
                    assert(gv.take(i + 1) =~= gv.take(i as int).push(gv[i as int]));
                    assert(out@.map_values(|c: MarkerCapture| capture_view(c)) =~= before.map_values(
                        |c: MarkerCapture| capture_view(c),
                    ).push(capture_view(out@[i as int])));
                    assert(gv.take(i + 1).map_values(|g: Seq<Option<Seq<char>>>| capture_of_groups(g))
                        =~= gv.take(i as int).map_values(
                        |g: Seq<Option<Seq<char>>>| capture_of_groups(g),
                    ).push(capture_of_groups(gv[i as int])));
                }
                i = i + 1;
            }
            proof {
                assert(gv.take(ms@.len() as int) =~= gv);
            }
        },
        None => {
            proof {
                assert(out@.map_values(|c: MarkerCapture| capture_view(c)) =~= Seq::<
                    (Seq<char>, Seq<char>, Seq<char>, Option<Seq<char>>, Option<Seq<char>>),
                >::empty());
            }
        },
    }
    out
}

/// The text of a message around its file markers.
pub fn split_file_markers(content: &str) -> (r: Vec<String>)
    ensures
        r@.map_values(|g: String| g@) == file_marker_gaps(content@),
{
    match split_by(r"\[\[file:(\d+)\|([^|\]]+)(?:\|([^|\]]*))?(?:\|(\d+))?\]\]", content) {
        Some(p) => p,
        None => {
            let mut v: Vec<String> = Vec::new();
            v.push(String::from_str(content));
            proof {
                assert(v@.map_values(|g: String| g@) =~= seq![content@]);
            }
            v
        },
    }
}

/// A decimal number as `parse::<i64>` reads it, or 0 where it does not.
pub open spec fn number_or_zero(t: Seq<char>) -> i64 {
    match parse_i64_spec(t) {
        Some(v) => v as i64,
        None => 0,
    }
}

/// Message text between markers: its trimmed text, escaped with line breaks,
/// in a text block; nothing where it is blank.
pub open spec fn message_text_block(g: Seq<char>) -> Seq<char> {
    if trim(g).len() == 0 {
        Seq::empty()
    } else {
        "<div class='admin-message-text'>"@ + br_lines(escape_html_spec(trim(g))) + "</div>"@
    }
}

/// A marker with a positive id as a file card; any other marker as text.
pub open spec fn marker_block(
    c: (Seq<char>, Seq<char>, Seq<char>, Option<Seq<char>>, Option<Seq<char>>),
) -> Seq<char> {
    let id = number_or_zero(c.1);
    if id > 0 {
        let mime = match c.3 {
            Some(m) => m,
            None => "application/octet-stream"@,
        };
        let size = match c.4 {
            Some(z) => number_or_zero(z),
            None => 0,
        };
        file_marker_spec(id, c.2, mime, size)
    } else {
        br_lines(escape_html_spec(c.0))
    }
}

/// The blocks of the first `n` markers, each after the text before it.
pub open spec fn message_blocks(
    gaps: Seq<Seq<char>>,
    caps: Seq<(Seq<char>, Seq<char>, Seq<char>, Option<Seq<char>>, Option<Seq<char>>)>,
    n: int,
) -> Seq<char>
    decreases n,
{
    if n <= 0 {
        Seq::empty()
    } else {
        let g = if n - 1 < gaps.len() {
            message_text_block(gaps[n - 1])
        } else {
            Seq::empty()
        };
        message_blocks(gaps, caps, n - 1) + g + marker_block(caps[n - 1])
    }
}

/// Whether one of the first `n` markers names a file.
pub open spec fn has_file_marker(
    caps: Seq<(Seq<char>, Seq<char>, Seq<char>, Option<Seq<char>>, Option<Seq<char>>)>,
    n: int,
) -> bool {
    exists|i: int| 0 <= i < n && number_or_zero((#[trigger] caps[i]).1) > 0
}

/// A message as the moderation views show it, from its text around the
/// markers and the markers: a placeholder when it is blank; else the text
/// blocks and the markers in order, followed by the text after the last
/// marker; the whole message as escaped text where that comes out blank
/// and names no file.
pub open spec fn message_html_spec(
    content: Seq<char>,
    gaps: Seq<Seq<char>>,
    caps: Seq<(Seq<char>, Seq<char>, Seq<char>, Option<Seq<char>>, Option<Seq<char>>)>,
) -> Seq<char> {
    if trim(content).len() == 0 {
        "<span class='muted'>[вложение или пустое сообщение]</span>"@
    } else {
        let n = caps.len() as int;
        let tail = if n < gaps.len() {
            message_text_block(gaps[n])
        } else {
            Seq::empty()
        };
        let body = message_blocks(gaps, caps, n) + tail;
        if has_file_marker(caps, n) || trim(body).len() > 0 {
            body
        } else {
            br_lines(escape_html_spec(content))
        }
    }
}

fn push_text_block(out: &mut Vec<char>, g: &str)
    ensures
        final(out)@ == old(out)@ + message_text_block(g@),
{
    let t = trim_chars(chars_of(g).as_slice());
    if t.len() > 0 {
        push_lit(out, "<div class='admin-message-text'>");
        let e = escape_html_lines(string_of(t.as_slice()).as_str());
        push_all(out, chars_of(e.as_str()).as_slice());
        push_lit(out, "</div>");
    }
}

fn number_or_zero_exec(t: &str) -> (r: i64)
    ensures
        r == number_or_zero(t@),
{
    match parse_i64(chars_of(t).as_slice()) {
        Some(v) => v,
        None => 0,
    }
}

/// A message's HTML from its text around the markers and the markers found
/// in it.
pub fn render_message_parts(content: &str, gaps: &Vec<String>, caps: &Vec<MarkerCapture>) -> (r: String)
    ensures
        r@ == message_html_spec(
            content@,
            gaps@.map_values(|g: String| g@),
            caps@.map_values(|c: MarkerCapture| capture_view(c)),
        ),
{
    let ghost gv = gaps@.map_values(|g: String| g@);
    let ghost cv = caps@.map_values(|c: MarkerCapture| capture_view(c));
    let t = trim_chars(chars_of(content).as_slice());
    if t.len() == 0 {
        return String::from_str("<span class='muted'>[вложение или пустое сообщение]</span>");
    }
    let mut out: Vec<char> = Vec::new();
    let mut found = false;
    let mut i: usize = 0;
    while i < caps.len()
        invariant
            i <= caps@.len(),
            gv == gaps@.map_values(|g: String| g@),
            cv == caps@.map_values(|c: MarkerCapture| capture_view(c)),
            out@ == message_blocks(gv, cv, i as int),
            found == has_file_marker(cv, i as int),
        decreases caps@.len() - i,
    {
        if i < gaps.len() {
            push_text_block(&mut out, gaps[i].as_str());
        }
        let c = &caps[i];
        let id = number_or_zero_exec(c.id.as_str());
        if id > 0 {
            let size = match &c.size {
                Some(z) => number_or_zero_exec(z.as_str()),
                None => 0,
            };
            let card = match &c.mime {
                Some(m) => render_admin_file_marker(id, c.name.as_str(), m.as_str(), size),
                None => render_admin_file_marker(id, c.name.as_str(), "application/octet-stream", size),
            };
            push_all(&mut out, chars_of(card.as_str()).as_slice());
            found = true;
        } else {
            let e = escape_html_lines(c.whole.as_str());
            push_all(&mut out, chars_of(e.as_str()).as_slice());
        }
        proof {
            assert(cv[i as int] == capture_view(caps@[i as int]));
            if i < gaps@.len() {
                assert(gv[i as int] == gaps@[i as int]@);
            }
        }
        i = i + 1;
    }
    if caps.len() < gaps.len() {
        push_text_block(&mut out, gaps[caps.len()].as_str());
        proof {
            assert(gv[caps@.len() as int] == gaps@[caps@.len() as int]@);
        }
    }
    let tb = trim_chars(out.as_slice());
    if found || tb.len() > 0 {
        string_of(out.as_slice())
    } else {
        escape_html_lines(content)
    }
}

/// A message as the moderation views show it: its text in blocks and its
/// file markers as file cards.
pub fn render_admin_message_html(content: &str) -> (r: String)
    ensures
        r@ == message_html_spec(content@, file_marker_gaps(content@), file_marker_captures(content@)),
{
    let gaps = split_file_markers(content);
    let caps = find_file_markers(content);
    render_message_parts(content, &gaps, &caps)
}

} // verus!
