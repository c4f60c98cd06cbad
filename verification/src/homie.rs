//! Parsed JSON documents, and the Homie assistant service: where it is, and
//! the text the admin centre shows from the JSON answers it sends back.

use vstd::prelude::*;
use crate::admin::{
    homie_looks_like_json_text, homie_normalize_plain_text, homie_session_id, homie_session_id_spec,
    looks_like_json_spec, normalize_plain_spec, trim_end_char,
};
use crate::text::{
    chars_eq, chars_of, eq_lit, push_all, push_lit, slice_chars, string_of, take_chars, take_prefix,
    trim, trim_chars,
};

verus! {

/// A parsed JSON value.
pub enum JsonValue {
    Null,
    Bool(bool),
    /// A number, by its JSON rendering.
    Number(String),
    /// A string, with the value that its trimmed text parses to as JSON,
    /// where that text looks like JSON and parses.
    Str(String, Option<Box<JsonValue>>),
    Array(Vec<JsonValue>),
    /// An object's members, each key once.
    Object(Vec<(String, JsonValue)>),
}

/// The deepest nesting that is searched for text.
pub const MAX_REPLY_DEPTH: usize = 6;

/// Text with something other than white space in it.
pub open spec fn nonblank(t: Seq<char>) -> bool {
    trim(t).len() > 0
}

/// The member keys that may hold the answer, in the order they are tried.
pub open spec fn reply_keys() -> Seq<Seq<char>> {
    seq![
        "answer"@,
        "final"@,
        "message"@,
        "content"@,
        "text"@,
        "output"@,
        "response"@,
        "result"@,
    ]
}

/// The value of the first member named `key`.
pub open spec fn member(entries: Seq<(String, JsonValue)>, key: Seq<char>) -> Option<JsonValue>
    decreases entries.len(),
{
    if entries.len() == 0 {
        None
    } else if entries[0].0@ == key {
        Some(entries[0].1)
    } else {
        member(entries.drop_first(), key)
    }
}

/// A found text that is kept: present and not blank.
pub open spec fn kept(r: Option<Seq<char>>) -> bool {
    r is Some && nonblank(r->0)
}

/// The text of a reply value found at nesting `depth`: a string's own text
/// (or the text of the JSON it holds), the first item of an array with text,
/// the first answer member of an object with text, else its `choices`, a
/// number's rendering, `true` or `false`; nothing below the deepest level.
pub open spec fn reply_text(v: JsonValue, depth: nat) -> Option<Seq<char>>
    decreases 7 - depth, 1int, 0int,
{
    if depth > 6 {
        None
    } else {
        match v {
            JsonValue::Null => None,
            JsonValue::Bool(b) => Some(if b { "true"@ } else { "false"@ }),
            JsonValue::Number(n) => Some(n@),
            JsonValue::Str(s, parsed) => {
                if !nonblank(s@) {
                    None
                } else {
                    let inner = if looks_like_json_spec(s@) {
                        match parsed {
                            Some(p) => reply_text(*p, depth + 1),
                            None => None,
                        }
                    } else {
                        None
                    };
                    if kept(inner) {
                        inner
                    } else {
                        Some(normalize_plain_spec(s@))
                    }
                }
            },
            JsonValue::Array(items) => first_item_text(items@, depth, 0),
            JsonValue::Object(entries) => {
                let by_key = key_text(entries@, depth, 0);
                if by_key is Some {
                    by_key
                } else {
                    match member(entries@, "choices"@) {
                        Some(c) => {
                            let t = reply_text(c, depth + 1);
                            if kept(t) {
                                t
                            } else {
                                None
                            }
                        },
                        None => None,
                    }
                }
            },
        }
    }
}

/// The first kept text among `items[i..]`, each searched one level deeper.
pub open spec fn first_item_text(items: Seq<JsonValue>, depth: nat, i: int) -> Option<Seq<char>>
    decreases 7 - depth, 0int, items.len() - i,
{
    if depth > 6 || i < 0 || i >= items.len() {
        None
    } else {
        let t = reply_text(items[i], depth + 1);
        if kept(t) {
            t
        } else {
            first_item_text(items, depth, i + 1)
        }
    }
}

/// The first kept text among the answer members from the `k`-th key on.
pub open spec fn key_text(entries: Seq<(String, JsonValue)>, depth: nat, k: int) -> Option<Seq<char>>
    decreases 7 - depth, 0int, 8 - k,
{
    if depth > 6 || k < 0 || k >= 8 {
        None
    } else {
        let t = match member(entries, reply_keys()[k]) {
            Some(v) => reply_text(v, depth + 1),
            None => None,
        };
        if kept(t) {
            t
        } else {
            key_text(entries, depth, k + 1)
        }
    }
}

proof fn lemma_reply_keys_distinct()
    ensures
        reply_keys().len() == 8,
        reply_keys()[0] == "answer"@,
        reply_keys()[1] == "final"@,
        reply_keys()[2] == "message"@,
        reply_keys()[3] == "content"@,
        reply_keys()[4] == "text"@,
        reply_keys()[5] == "output"@,
        reply_keys()[6] == "response"@,
        reply_keys()[7] == "result"@,
        forall|i: int, j: int| 0 <= i < 8 && 0 <= j < 8 && i != j ==> reply_keys()[i] != reply_keys()[j],
{
    reveal_strlit("answer");
    reveal_strlit("final");
    reveal_strlit("message");
    reveal_strlit("content");
    reveal_strlit("text");
    reveal_strlit("output");
    reveal_strlit("response");
    reveal_strlit("result");
    let k = reply_keys();
    assert forall|i: int, j: int| 0 <= i < 8 && 0 <= j < 8 && i != j implies k[i] != k[j] by {
        if k[i].len() == k[j].len() && k[i].len() > 1 {
            if k[i][0] == k[j][0] {
                assert(k[i][1] != k[j][1]);
            } else {
                assert(k[i][0] != k[j][0]);
            }
        }
    }
}

proof fn lemma_single_member_key_text(entries: Seq<(String, JsonValue)>, idx: int, j: int)
    requires
        0 <= j <= idx < 8,
        entries.len() == 1,
        entries[0].0@ == reply_keys()[idx],
        forall|i: int| 0 <= i < 8 && i != idx ==> reply_keys()[i] != reply_keys()[idx],
        kept(reply_text(entries[0].1, 1)),
    ensures
        key_text(entries, 0, j) == reply_text(entries[0].1, 1),
    decreases idx - j,
{
    assert(entries.drop_first().len() == 0);
    if j < idx {
        lemma_single_member_key_text(entries, idx, j + 1);
        assert(reply_keys()[j] != reply_keys()[idx]);
        assert(entries[0].0@ != reply_keys()[j]);
        assert(member(entries.drop_first(), reply_keys()[j]) is None);
        assert(member(entries, reply_keys()[j]) is None);
    } else {
        assert(member(entries, reply_keys()[j]) == Some(entries[0].1));
    }
}

/// Each of the eight answer keys is read: an object whose one member has
/// one of them, `answer`, `final`, `message`, `content`, `text`, `output`,
/// `response` or `result`, gives the text of that member's value when it
/// has text to keep.
pub proof fn law_reply_from_any_answer_key(entries: Vec<(String, JsonValue)>)
    requires
        entries@.len() == 1,
        ({
            let k = entries@[0].0@;
            ||| k == "answer"@
            ||| k == "final"@
            ||| k == "message"@
            ||| k == "content"@
            ||| k == "text"@
            ||| k == "output"@
            ||| k == "response"@
            ||| k == "result"@
        }),
        kept(reply_text(entries@[0].1, 1)),
    ensures
        reply_text(JsonValue::Object(entries), 0) == reply_text(entries@[0].1, 1),
{
    lemma_reply_keys_distinct();
    let k = entries@[0].0@;
    let idx: int = choose|i: int| 0 <= i < 8 && reply_keys()[i] == k;
    lemma_single_member_key_text(entries@, idx, 0);
}

/// A plain string that is not blank and does not hold JSON gives its own
/// text, with its escaped line breaks and tabs read.
pub proof fn law_reply_plain_string(s: String, depth: nat)
    requires
        depth <= 6,
        nonblank(s@),
        !looks_like_json_spec(s@),
    ensures
        reply_text(JsonValue::Str(s, None), depth) == Some(normalize_plain_spec(s@)),
{
}

pub open spec fn opt_text(r: Option<String>) -> Option<Seq<char>> {
    match r {
        Some(s) => Some(s@),
        None => None,
    }
}

fn is_nonblank(t: &str) -> (r: bool)
    ensures
        r == nonblank(t@),
{
    let c = chars_of(t);
    trim_chars(c.as_slice()).len() > 0
}

fn keeps(r: &Option<String>) -> (b: bool)
    ensures
        b == kept(opt_text(*r)),
{
    match r {
        Some(t) => is_nonblank(t.as_str()),
        None => false,
    }
}

/// The value of the first member named `key`.
pub fn json_member<'a>(entries: &'a Vec<(String, JsonValue)>, key: &str) -> (r: Option<&'a JsonValue>)
    ensures
        match r {
            Some(v) => member(entries@, key@) == Some(*v),
            None => member(entries@, key@) is None,
        },
{
    let mut i: usize = 0;
    proof {
        assert(entries@.skip(0) =~= entries@);
    }
    while i < entries.len()
        invariant
            i <= entries@.len(),
            member(entries@, key@) == member(entries@.skip(i as int), key@),
        decreases entries@.len() - i,
    {
        proof {
            assert(entries@.skip(i as int).drop_first() =~= entries@.skip(i as int + 1));
        }
        let name = chars_of(entries[i].0.as_str());
        if eq_lit(name.as_slice(), key) {
            return Some(&entries[i].1);
        }
        i = i + 1;
    }
    None
}

fn reply_key(k: usize) -> (r: &'static str)
    requires
        k < 8,
    ensures
        r@ == reply_keys()[k as int],
{
    if k == 0 {
        "answer"
    } else if k == 1 {
        "final"
    } else if k == 2 {
        "message"
    } else if k == 3 {
        "content"
    } else if k == 4 {
        "text"
    } else if k == 5 {
        "output"
    } else if k == 6 {
        "response"
    } else {
        "result"
    }
}

/// The text to show of an assistant reply value, searched from nesting
/// level `depth`.
pub fn homie_text_from_value(value: &JsonValue, depth: usize) -> (r: Option<String>)
    ensures
        opt_text(r) == reply_text(*value, depth as nat),
    decreases 7 - depth,
{
    if depth > MAX_REPLY_DEPTH {
        return None;
    }
    match value {
        JsonValue::Null => None,
        JsonValue::Bool(b) => Some(if *b { String::from_str("true") } else { String::from_str("false") }),
        JsonValue::Number(n) => Some(n.clone()),
        JsonValue::Str(s, parsed) => {
            if !is_nonblank(s.as_str()) {
                return None;
            }
            if homie_looks_like_json_text(s.as_str()) {
                if let Some(p) = parsed {
                    let inner = homie_text_from_value(&**p, depth + 1);
                    if keeps(&inner) {
                        return inner;
                    }
                }
            }
            Some(homie_normalize_plain_text(s.as_str()))
        },
        JsonValue::Array(items) => {
            let mut i: usize = 0;
            while i < items.len()
                invariant
                    depth <= 6,
                    *value == JsonValue::Array(*items),
                    i <= items@.len(),
                    first_item_text(items@, depth as nat, 0) == first_item_text(items@, depth as nat, i as int),
                decreases items@.len() - i,
            {
                let t = homie_text_from_value(&items[i], depth + 1);
                if keeps(&t) {
                    proof {
                        assert(first_item_text(items@, depth as nat, i as int) == opt_text(t));
                    }
                    return t;
                }
                i = i + 1;
            }
            None
        },
        JsonValue::Object(entries) => {
            let mut k: usize = 0;
            while k < 8
                invariant
                    depth <= 6,
                    *value == JsonValue::Object(*entries),
                    k <= 8,
                    key_text(entries@, depth as nat, 0) == key_text(entries@, depth as nat, k as int),
                decreases 8 - k,
            {
                let key = reply_key(k);
                if let Some(v) = json_member(entries, key) {
                    let t = homie_text_from_value(v, depth + 1);
                    if keeps(&t) {
                        proof {
                            assert(key_text(entries@, depth as nat, k as int) == opt_text(t));
                        }
                        return t;
                    }
                }
                k = k + 1;
            }
            if let Some(c) = json_member(entries, "choices") {
                let t = homie_text_from_value(c, depth + 1);
                if keeps(&t) {
                    return t;
                }
            }
            None
        },
    }
}

/// The error text of a reply: the text of its `error` member, or empty.
pub open spec fn reply_error_spec(v: JsonValue) -> Seq<char> {
    match v {
        JsonValue::Object(entries) => match member(entries@, "error"@) {
            Some(e) => match reply_text(e, 0) {
                Some(t) => t,
                None => Seq::empty(),
            },
            None => Seq::empty(),
        },
        _ => Seq::empty(),
    }
}

pub fn homie_error_from_value(value: &JsonValue) -> (r: String)
    ensures
        r@ == reply_error_spec(*value),
{
    match value {
        JsonValue::Object(entries) => match json_member(entries, "error") {
            Some(e) => match homie_text_from_value(e, 0) {
                Some(t) => t,
                None => String::new(),
            },
            None => String::new(),
        },
        _ => String::new(),
    }
}

/// Whether a reply counts as successful: its `ok` member is `true`, or the
/// answer has text.
pub open spec fn reply_ok_spec(v: JsonValue, answer: Seq<char>) -> bool {
    let flag = match v {
        JsonValue::Object(entries) => match member(entries@, "ok"@) {
            Some(JsonValue::Bool(b)) => b,
            _ => false,
        },
        _ => false,
    };
    flag || nonblank(answer)
}

pub fn homie_ok_from_value(value: &JsonValue, answer: &str) -> (r: bool)
    ensures
        r == reply_ok_spec(*value, answer@),
{
    let flag = match value {
        JsonValue::Object(entries) => match json_member(entries, "ok") {
            Some(JsonValue::Bool(b)) => *b,
            _ => false,
        },
        _ => false,
    };
    flag || is_nonblank(answer)
}


// ---------------------------------------------------------------------------
// Talking to the service
// ---------------------------------------------------------------------------

/// What the admin centre answers about an assistant call.
#[derive(Debug)]
pub struct HomieReply {
    pub ok: bool,
    pub answer: String,
    pub error: String,
}

/// What is sent on to the assistant.
#[derive(Debug)]
pub struct HomieRequest {
    pub session_id: String,
    pub message: String,
}

/// A failed reply carrying `error`.
pub open spec fn failed_reply(r: HomieReply, error: Seq<char>) -> bool {
    !r.ok && r.answer@ == Seq::<char>::empty() && r.error@ == error
}

fn failure(error: Vec<char>) -> (r: HomieReply)
    ensures
        failed_reply(r, error@),
{
    HomieReply { ok: false, answer: String::new(), error: string_of(error.as_slice()) }
}

/// Checks a chat message for the assistant: the CSRF token first, then the
/// message, which must not be blank. On success, the session and the
/// trimmed message to send.
pub fn homie_chat_request(csrf: &str, session_csrf: &str, session_id: &str, message: &str) -> (r: Result<
    HomieRequest,
    HomieReply,
>)
    ensures
        r is Ok <==> csrf@ == session_csrf@ && trim(message@).len() > 0,
        r matches Ok(q) ==> q.session_id@ == homie_session_id_spec(session_id@) && q.message@ == trim(
            message@,
        ),
        r matches Err(e) ==> failed_reply(
            e,
            if csrf@ != session_csrf@ {
                "CSRF-токен не совпадает"@
            } else {
                "Пустое сообщение"@
            },
        ),
{
    if !chars_eq(chars_of(csrf).as_slice(), chars_of(session_csrf).as_slice()) {
        return Err(failure(chars_of("CSRF-токен не совпадает")));
    }
    let m = trim_chars(chars_of(message).as_slice());
    if m.len() == 0 {
        return Err(failure(chars_of("Пустое сообщение")));
    }
    Ok(HomieRequest { session_id: homie_session_id(session_id), message: string_of(m.as_slice()) })
}

/// Checks a request to reset the assistant's context: the CSRF token. On
/// success, the session to reset, with an empty message.
pub fn homie_reset_request(csrf: &str, session_csrf: &str, session_id: &str) -> (r: Result<
    HomieRequest,
    HomieReply,
>)
    ensures
        r is Ok <==> csrf@ == session_csrf@,
        r matches Ok(q) ==> q.session_id@ == homie_session_id_spec(session_id@) && q.message@
            == Seq::<char>::empty(),
        r matches Err(e) ==> failed_reply(e, "CSRF-токен не совпадает"@),
{
    if !chars_eq(chars_of(csrf).as_slice(), chars_of(session_csrf).as_slice()) {
        return Err(failure(chars_of("CSRF-токен не совпадает")));
    }
    Ok(HomieRequest { session_id: homie_session_id(session_id), message: String::new() })
}

/// The reply to a chat message from the assistant's JSON answer: its text,
/// its error text, and whether it counts as successful.
pub fn homie_reply_from_value(value: &JsonValue) -> (r: HomieReply)
    ensures
        r.answer@ == (match reply_text(*value, 0) {
            Some(t) => t,
            None => Seq::<char>::empty(),
        }),
        r.error@ == reply_error_spec(*value),
        r.ok == reply_ok_spec(*value, r.answer@),
{
    let answer = match homie_text_from_value(value, 0) {
        Some(t) => t,
        None => String::new(),
    };
    let error = homie_error_from_value(value);
    let ok = homie_ok_from_value(value, answer.as_str());
    HomieReply { ok, answer, error }
}

/// The error shown when the assistant answers with a failing HTTP status:
/// the status, and up to 500 characters of a body that is not blank.
pub open spec fn http_error_text(status: Seq<char>, body: Seq<char>) -> Seq<char> {
    "Homie API вернул HTTP "@ + status + if trim(body).len() == 0 {
        Seq::<char>::empty()
    } else {
        ": "@ + take_chars(body, 500)
    }
}

pub fn homie_http_error_reply(status: &str, body: &str) -> (r: HomieReply)
    ensures
        failed_reply(r, http_error_text(status@, body@)),
{
    let mut e = chars_of("Homie API вернул HTTP ");
    push_all(&mut e, chars_of(status).as_slice());
    let ghost head = e@;
    let b = chars_of(body);
    if trim_chars(b.as_slice()).len() > 0 {
        push_lit(&mut e, ": ");
        push_all(&mut e, take_prefix(b.as_slice(), 500).as_slice());
        proof {
            assert(e@ =~= head + (": "@ + take_chars(body@, 500)));
        }
    } else {
        proof {
            assert(e@ =~= head + Seq::<char>::empty());
        }
    }
    failure(e)
}

/// The reply when the assistant cannot be reached; `detail` says why.
pub fn homie_unreachable_reply(detail: &str) -> (r: HomieReply)
    ensures
        failed_reply(r, "Homie API недоступен: "@ + detail@),
{
    let mut e = chars_of("Homie API недоступен: ");
    push_all(&mut e, chars_of(detail).as_slice());
    failure(e)
}

/// The reply when the assistant's answer is not JSON; `detail` says why.
pub fn homie_unparsable_reply(detail: &str) -> (r: HomieReply)
    ensures
        failed_reply(r, "Не удалось разобрать ответ Homie API: "@ + detail@),
{
    let mut e = chars_of("Не удалось разобрать ответ Homie API: ");
    push_all(&mut e, chars_of(detail).as_slice());
    failure(e)
}

/// The reply to a reset: confirmed when the assistant answers with a
/// successful status, else the status is reported.
pub fn homie_reset_reply(status_ok: bool, status: &str) -> (r: HomieReply)
    ensures
        status_ok ==> r.ok && r.answer@ == "Контекст Homie сброшен"@ && r.error@ == Seq::<char>::empty(),
        !status_ok ==> failed_reply(r, "Homie API вернул HTTP "@ + status@),
{
    if status_ok {
        HomieReply { ok: true, answer: String::from_str("Контекст Homie сброшен"), error: String::new() }
    } else {
        let mut e = chars_of("Homie API вернул HTTP ");
        push_all(&mut e, chars_of(status).as_slice());
        failure(e)
    }
}

// ---------------------------------------------------------------------------
// Where the service is
// ---------------------------------------------------------------------------

/// The base URL of the assistant service: the configured one, else the
/// legacy setting, else the local default; trimmed and without trailing
/// slashes.
pub open spec fn homie_base_url_spec(configured: Option<Seq<char>>, legacy: Option<Seq<char>>) -> Seq<char> {
    let raw = match configured {
        Some(v) => v,
        None => match legacy {
            Some(v) => v,
            None => "http://127.0.0.1:8090"@,
        },
    };
    trim_end_char(trim(raw), '/')
}

pub open spec fn opt_str(o: Option<&str>) -> Option<Seq<char>> {
    match o {
        Some(v) => Some(v@),
        None => None,
    }
}

pub fn homie_base_url(configured: Option<&str>, legacy: Option<&str>) -> (r: String)
    ensures
        r@ == homie_base_url_spec(opt_str(configured), opt_str(legacy)),
{
    let raw = match configured {
        Some(v) => v,
        None => match legacy {
            Some(v) => v,
            None => "http://127.0.0.1:8090",
        },
    };
    let t = trim_chars(chars_of(raw).as_slice());
    let mut j: usize = t.len();
    proof {
        assert(t@.take(j as int) =~= t@);
    }
    while j > 0 && t[j - 1] == '/'
        invariant
            j <= t@.len(),
            trim_end_char(t@, '/') == trim_end_char(t@.take(j as int), '/'),
        decreases j,
    {
        proof {
            assert(t@.take(j as int).drop_last() =~= t@.take(j - 1));
            assert(t@.take(j as int).last() == t@[j - 1]);
        }
        j = j - 1;
    }
    proof {
        let u = t@.take(j as int);
        if j > 0 {
            assert(u.last() == t@[j - 1]);
        }
        assert(trim_end_char(u, '/') == u);
        assert(u =~= t@.subrange(0, j as int));
    }
    string_of(slice_chars(t.as_slice(), 0, j).as_slice())
}

/// The token the service is called with: the configured one, else the
/// legacy setting, trimmed; none when blank.
pub open spec fn homie_token_spec(configured: Option<Seq<char>>, legacy: Option<Seq<char>>) -> Option<Seq<char>> {
    let raw = match configured {
        Some(v) => Some(v),
        None => legacy,
    };
    match raw {
        Some(v) => if trim(v).len() > 0 {
            Some(trim(v))
        } else {
            None
        },
        None => None,
    }
}

pub fn homie_http_token(configured: Option<&str>, legacy: Option<&str>) -> (r: Option<String>)
    ensures
        opt_text(r) == homie_token_spec(opt_str(configured), opt_str(legacy)),
{
    let raw = match configured {
        Some(v) => Some(v),
        None => legacy,
    };
    match raw {
        Some(v) => {
            let t = trim_chars(chars_of(v).as_slice());
            if t.len() > 0 {
                Some(string_of(t.as_slice()))
            } else {
                None
            }
        },
        None => None,
    }
}

} // verus!
