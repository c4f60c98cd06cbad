//! Direct and group conversations: who may write to whom, how a group is
//! formed and titled, what a message must look like, and which uploaded
//! files a message refers to.

use vstd::prelude::*;
use crate::admin::{to_lowercase, unicode_lower};
use crate::homie::{json_member, member, JsonValue};
use crate::text::{
    all_digits, chars_of, contains, contains_lit, digits_value, eq_lit, is_ascii_digit, push_all,
    push_lit, starts_with, starts_with_lit, string_of, take_chars, take_prefix, trim, trim_chars,
};

verus! {

/// The most characters a message may have.
pub const MAX_MESSAGE_CHARS: usize = 65535;

/// The most other members a group may have.
pub const MAX_GROUP_OTHERS: usize = 24;

// ---------------------------------------------------------------------------
// Structures exchanged with clients
// ---------------------------------------------------------------------------

/// A conversation as the conversation list shows it.
pub struct DmChatView {
    pub chat_id: i64,
    pub other_user_id: i64,
    pub other_username: String,
    pub other_avatar_file_id: Option<i64>,
    pub title: String,
    pub is_group: bool,
    pub member_count: i64,
    pub member_names: Vec<String>,
    pub last_message_id: Option<i64>,
    pub last_message_at: Option<String>,
    pub last_message_preview: Option<String>,
}

/// A request to form a group.
pub struct CreateGroupBody {
    pub name: Option<String>,
    pub user_ids: Vec<i64>,
}

/// A member of a conversation as its participant list shows it.
pub struct DmParticipantView {
    pub id: i64,
    pub username: String,
    pub avatar_file_id: Option<i64>,
    pub public_encryption_key: Option<String>,
    pub is_me: bool,
    pub is_online: bool,
    pub status: String,
}

/// Paging of a list.
pub struct ListQuery {
    pub limit: Option<i64>,
    pub before_id: Option<i64>,
}

/// A message to send.
pub struct SendMessageBody {
    pub content: String,
    pub reply_to_id: Option<i64>,
}

/// The quoted start of the message a message replies to.
pub struct ReplyPreview {
    pub id: i64,
    pub sender_id: i64,
    pub sender_username: String,
    pub sender_avatar_file_id: Option<i64>,
    pub content: String,
}

/// A reaction and how many gave it.
pub struct ReactionItem {
    pub emoji: String,
    pub count: i64,
    pub me: bool,
}

/// A message as a conversation's history shows it.
pub struct MessageRow {
    pub id: i64,
    pub chat_id: i64,
    pub sender_id: i64,
    pub sender_username: String,
    pub sender_avatar_file_id: Option<i64>,
    pub content: String,
    pub timestamp: String,
    pub reply_to_id: Option<i64>,
    pub reply_preview: Option<ReplyPreview>,
    pub reactions: Option<Vec<ReactionItem>>,
}

// ---------------------------------------------------------------------------
// Message content
// ---------------------------------------------------------------------------

/// Content the server stores: an end-to-end encrypted envelope, or text that
/// carries a file marker.
pub open spec fn encrypted_or_file_reference_spec(content: Seq<char>) -> bool {
    ||| starts_with(content, "[[e2ee:v1|"@)
    ||| contains(content, "[[file:"@)
    ||| contains(content, "[[file="@)
}

pub fn encrypted_or_file_reference(content: &str) -> (r: bool)
    ensures
        r == encrypted_or_file_reference_spec(content@),
{
    let c = chars_of(content);
    let c = c.as_slice();
    starts_with_lit(c, "[[e2ee:v1|") || contains_lit(c, "[[file:") || contains_lit(c, "[[file=")
}

/// Why a message is refused.
#[derive(PartialEq, Eq, Structural, Debug)]
pub enum MessageError {
    /// Nothing but whitespace.
    Empty,
    /// More than `MAX_MESSAGE_CHARS` characters once trimmed.
    TooLong,
    /// Neither an encrypted envelope nor a file reference.
    EncryptionRequired,
}

/// What is stored of a message's content, or why it is refused.
pub open spec fn check_message_spec(content: Seq<char>) -> Result<Seq<char>, MessageError> {
    let t = trim(content);
    if t.len() == 0 {
        Err(MessageError::Empty)
    } else if t.len() > MAX_MESSAGE_CHARS {
        Err(MessageError::TooLong)
    } else if !encrypted_or_file_reference_spec(t) {
        Err(MessageError::EncryptionRequired)
    } else {
        Ok(t)
    }
}

/// Checks a message's content and gives what is stored of it.
pub fn check_message_content(content: &str) -> (r: Result<String, MessageError>)
    ensures
        match r {
            Ok(s) => check_message_spec(content@) == Ok::<Seq<char>, MessageError>(s@),
            Err(e) => check_message_spec(content@) == Err::<Seq<char>, MessageError>(e),
        },
{
    let t = trim_chars(chars_of(content).as_slice());
    if t.len() == 0 {
        return Err(MessageError::Empty);
    }
    if t.len() > MAX_MESSAGE_CHARS {
        return Err(MessageError::TooLong);
    }
    let s = string_of(t.as_slice());
    if !encrypted_or_file_reference(s.as_str()) {
        return Err(MessageError::EncryptionRequired);
    }
    Ok(s)
}

/// The text that stands in for a message whose sender the reader blocked.
pub open spec fn hidden_message_text() -> Seq<char> {
    "[сообщение скрыто — пользователь заблокирован]"@
}

/// The content a reader sees of a message.
pub fn visible_content(content: String, sender_blocked: bool) -> (r: String)
    ensures
        sender_blocked ==> r@ == hidden_message_text(),
        !sender_blocked ==> r@ == content@,
{
    if sender_blocked {
        String::from_str("[сообщение скрыто — пользователь заблокирован]")
    } else {
        content
    }
}

/// The first eighty characters of a replied-to message.
pub fn reply_excerpt(content: &str) -> (r: String)
    ensures
        r@ == take_chars(content@, 80),
{
    let c = chars_of(content);
    let p = take_prefix(c.as_slice(), 80);
    string_of(p.as_slice())
}

/// A page size: 50 by default, kept within 1..=200.
pub open spec fn page_limit_spec(limit: Option<i64>) -> i64 {
    match limit {
        None => 50,
        Some(l) => if l < 1 {
            1
        } else if l > 200 {
            200
        } else {
            l
        },
    }
}

pub fn page_limit(limit: Option<i64>) -> (r: i64)
    ensures
        r == page_limit_spec(limit),
        1 <= r <= 200,
{
    match limit {
        None => 50,
        Some(l) => if l < 1 {
            1
        } else if l > 200 {
            200
        } else {
            l
        },
    }
}

/// Why a message is not sent.
#[derive(PartialEq, Eq, Structural, Debug)]
pub enum SendRefusal {
    /// The conversation has nobody else in it.
    NoRecipients,
    /// The sender and a recipient have blocked one another.
    Blocked,
    /// The content is refused.
    Content(MessageError),
    /// The replied-to message is not in this conversation.
    ReplyNotInChat,
}

/// The checks before a message is stored, in the order they are made: a
/// recipient exists, nobody is blocked, the content is acceptable, and a
/// replied-to message belongs to the conversation. On success, the content
/// to store.
pub open spec fn send_check_spec(
    has_recipients: bool,
    blocked: bool,
    content: Seq<char>,
    reply_in_chat: Option<bool>,
) -> Result<Seq<char>, SendRefusal> {
    if !has_recipients {
        Err(SendRefusal::NoRecipients)
    } else if blocked {
        Err(SendRefusal::Blocked)
    } else {
        match check_message_spec(content) {
            Err(e) => Err(SendRefusal::Content(e)),
            Ok(t) => if reply_in_chat == Some(false) {
                Err(SendRefusal::ReplyNotInChat)
            } else {
                Ok(t)
            },
        }
    }
}

pub fn dm_send_check(has_recipients: bool, blocked: bool, content: &str, reply_in_chat: Option<bool>) -> (r: Result<String, SendRefusal>)
    ensures
        match r {
            Ok(t) => send_check_spec(has_recipients, blocked, content@, reply_in_chat) == Ok::<Seq<char>, SendRefusal>(t@),
            Err(e) => send_check_spec(has_recipients, blocked, content@, reply_in_chat) == Err::<Seq<char>, SendRefusal>(e),
        },
{
    if !has_recipients {
        return Err(SendRefusal::NoRecipients);
    }
    if blocked {
        return Err(SendRefusal::Blocked);
    }
    match check_message_content(content) {
        Err(e) => Err(SendRefusal::Content(e)),
        Ok(t) => match reply_in_chat {
            Some(false) => Err(SendRefusal::ReplyNotInChat),
            _ => Ok(t),
        },
    }
}

/// A number an answer adds under a name: present, with that name and value.
pub open spec fn extra_is(x: Option<(&'static str, i64)>, name: Seq<char>, value: int) -> bool {
    match x {
        Some((n, v)) => n@ == name && v == value,
        None => false,
    }
}

/// The answer to a message that is not sent: the HTTP status, the detail
/// text where the answer carries one, and the number the answer adds under
/// a name (the limit, for a message that is too long).
pub fn send_refusal_reply(e: &SendRefusal) -> (r: (u16, Option<&'static str>, Option<(&'static str, i64)>))
    ensures
        match e {
            SendRefusal::NoRecipients => r.0 == 400 && r.1 is None && r.2 is None,
            SendRefusal::Blocked => r.0 == 403 && r.1 is Some && r.1->0@ == "Blocked"@ && r.2 is None,
            SendRefusal::Content(MessageError::Empty) => r.0 == 400 && r.1 is None && r.2 is None,
            SendRefusal::Content(MessageError::TooLong) => r.0 == 413 && r.1 is Some && r.1->0@
                == "message_too_long"@ && extra_is(r.2, "max_chars"@, MAX_MESSAGE_CHARS as int),
            SendRefusal::Content(MessageError::EncryptionRequired) => r.0 == 400 && r.1 is Some
                && r.1->0@ == "encrypted_message_required"@ && r.2 is None,
            SendRefusal::ReplyNotInChat => r.0 == 400 && r.1 is Some && r.1->0@
                == "reply_to_message_not_in_chat"@ && r.2 is None,
        },
{
    match e {
        SendRefusal::NoRecipients => (400, None, None),
        SendRefusal::Blocked => (403, Some("Blocked"), None),
        SendRefusal::Content(MessageError::Empty) => (400, None, None),
        SendRefusal::Content(MessageError::TooLong) => (
            413,
            Some("message_too_long"),
            Some(("max_chars", 65535)),
        ),
        SendRefusal::Content(MessageError::EncryptionRequired) => (400, Some("encrypted_message_required"), None),
        SendRefusal::ReplyNotInChat => (400, Some("reply_to_message_not_in_chat"), None),
    }
}

/// The preview of a replied-to message, when the stored reply and its
/// sender are complete: its first eighty characters.
pub fn reply_preview_of(
    id: Option<i64>,
    sender_username: Option<String>,
    sender_id: Option<i64>,
    sender_avatar_file_id: Option<i64>,
    content: Option<String>,
) -> (r: Option<ReplyPreview>)
    ensures
        (id is Some && sender_username is Some && sender_id is Some && content is Some) <==> r is Some,
        r matches Some(p) ==> {
            &&& p.id == id->0
            &&& p.sender_username@ == sender_username->0@
            &&& p.sender_id == sender_id->0
            &&& p.sender_avatar_file_id == sender_avatar_file_id
            &&& p.content@ == take_chars(content->0@, 80)
        },
{
    match (id, sender_username, sender_id, content) {
        (Some(id), Some(su), Some(sid), Some(rc)) => Some(ReplyPreview {
            id,
            sender_id: sid,
            sender_username: su,
            sender_avatar_file_id,
            content: reply_excerpt(rc.as_str()),
        }),
        _ => None,
    }
}

/// Messages read newest first, put in the order they were sent.
pub fn oldest_first(rows: Vec<MessageRow>) -> (r: Vec<MessageRow>)
    ensures
        r@ == rows@.reverse(),
{
    let mut rows = rows;
    let ghost orig = rows@;
    let mut out: Vec<MessageRow> = Vec::new();
    while rows.len() > 0
        invariant
            rows@ == orig.take(rows@.len() as int),
            out@ == orig.skip(rows@.len() as int).reverse(),
            rows@.len() <= orig.len(),
        decreases rows@.len(),
    {
        let ghost n = rows@.len();
        let m = rows.pop().unwrap();
        out.push(m);
        proof {
            assert(rows@ =~= orig.take(n - 1));
            assert(orig.skip(n - 1) =~= seq![orig[n - 1]] + orig.skip(n as int));
            assert(out@ =~= orig.skip(n - 1).reverse());
        }
    }
    proof {
        assert(orig.skip(0) =~= orig);
    }
    out
}

// ---------------------------------------------------------------------------
// File markers
// ---------------------------------------------------------------------------

/// The position just past the run of ASCII digits that starts at `i`.
pub open spec fn digit_run_end(s: Seq<char>, i: int) -> int
    decreases s.len() - i,
{
    if 0 <= i < s.len() && is_ascii_digit(s[i]) {
        digit_run_end(s, i + 1)
    } else {
        i
    }
}

/// At `i` starts a file marker `[[file:` or `[[file=`, then one or more ASCII
/// digits and `|`, and the digits' value, which fits an `i64`, is `v`.
pub open spec fn file_marker_at(s: Seq<char>, i: int, v: int) -> bool {
    let d = i + 7;
    let e = digit_run_end(s, d);
    &&& 0 <= i
    &&& d <= s.len()
    &&& (s.subrange(i, d) == "[[file:"@ || s.subrange(i, d) == "[[file="@)
    &&& e > d
    &&& e < s.len()
    &&& s[e] == '|'
    &&& v == digits_value(s.subrange(d, e))
    &&& v <= i64::MAX
}

/// The ids of the files a message refers to.
pub open spec fn referenced_file_ids(s: Seq<char>) -> Set<int> {
    Set::new(|v: int| exists|i: int| file_marker_at(s, i, v))
}

pub open spec fn strictly_increasing(v: Seq<i64>) -> bool {
    forall|a: int, b: int| 0 <= a < b < v.len() ==> v[a] < v[b]
}

proof fn lemma_digit_run(s: Seq<char>, i: int)
    requires
        0 <= i <= s.len(),
    ensures
        i <= digit_run_end(s, i) <= s.len(),
        all_digits(s.subrange(i, digit_run_end(s, i))),
        digit_run_end(s, i) < s.len() ==> !is_ascii_digit(s[digit_run_end(s, i)]),
    decreases s.len() - i,
{
    if i < s.len() && is_ascii_digit(s[i]) {
        lemma_digit_run(s, i + 1);
        let e = digit_run_end(s, i);
        assert forall|k: int| 0 <= k < e - i implies is_ascii_digit(
            #[trigger] s.subrange(i, e)[k],
        ) by {
            if k > 0 {
                assert(s.subrange(i, e)[k] == s.subrange(i + 1, e)[k - 1]);
            }
        }
    }
}

/// Scans the digits at `i`: where they end and, when their value fits an
/// `i64`, that value.
fn scan_digits(s: &[char], i: usize) -> (r: (usize, Option<i64>))
    requires
        i <= s@.len(),
    ensures
        r.0 as int == digit_run_end(s@, i as int),
        match r.1 {
            Some(v) => v as int == digits_value(s@.subrange(i as int, r.0 as int)),
            None => digits_value(s@.subrange(i as int, r.0 as int)) > i64::MAX,
        },
{
    proof {
        lemma_digit_run(s@, i as int);
    }
    let mut j: usize = i;
    let mut acc: i64 = 0;
    let mut fits = true;
    proof {
        assert(s@.subrange(i as int, i as int) =~= Seq::<char>::empty());
    }
    while j < s.len() && '0' <= s[j] && s[j] <= '9'
        invariant
            i <= j <= s@.len(),
            digit_run_end(s@, i as int) == digit_run_end(s@, j as int),
            fits ==> acc as int == digits_value(s@.subrange(i as int, j as int)),
            fits ==> acc >= 0,
            !fits ==> digits_value(s@.subrange(i as int, j as int)) > i64::MAX,
            all_digits(s@.subrange(i as int, j as int)),
        decreases s.len() - j,
    {
        let d: i64 = ((s[j] as u32) - 48) as i64;
        let ghost prev = s@.subrange(i as int, j as int);
        let ghost next = s@.subrange(i as int, j + 1);
        proof {
            assert(next.drop_last() =~= prev);
            assert(all_digits(next));
            crate::text::lemma_digits_value_nonneg(prev);
            assert(digits_value(next) == digits_value(prev) * 10 + d);
        }
        if fits {
            if acc > (i64::MAX - d) / 10 {
                fits = false;
                proof {
                    assert(acc * 10 + d > i64::MAX) by (nonlinear_arith)
                        requires
                            acc > (i64::MAX - d) / 10,
                            0 <= d <= 9,
                    ;
                }
            } else {
                proof {
                    assert(acc * 10 + d <= i64::MAX) by (nonlinear_arith)
                        requires
                            acc <= (i64::MAX - d) / 10,
                            0 <= d <= 9,
                            acc >= 0,
                    ;
                }
                acc = acc * 10 + d;
            }
        } else {
            proof {
                assert(digits_value(prev) * 10 + d > i64::MAX) by (nonlinear_arith)
                    requires
                        digits_value(prev) > i64::MAX,
                        0 <= d,
                ;
            }
        }
        j = j + 1;
        proof {
            assert(s@.subrange(i as int, j as int) == next);
        }
    }
    if fits {
        (j, Some(acc))
    } else {
        (j, None)
    }
}

/// Inserts `x` into a strictly increasing vector unless it is there already.
fn insert_sorted_unique(v: &mut Vec<i64>, x: i64)
    requires
        strictly_increasing(old(v)@),
    ensures
        strictly_increasing(final(v)@),
        final(v)@.to_set() == old(v)@.to_set().insert(x),
{
    let mut i: usize = 0;
    while i < v.len() && v[i] < x
        invariant
            i <= v.len(),
            v@ == old(v)@,
            strictly_increasing(v@),
            forall|k: int| 0 <= k < i ==> v@[k] < x,
        decreases v.len() - i,
    {
        i = i + 1;
    }
    if i < v.len() && v[i] == x {
        proof {
            assert(v@.to_set() =~= old(v)@.to_set().insert(x)) by {
                assert(v@.contains(x)) by {
                    assert(v@[i as int] == x);
                }
            }
        }
        return;
    }
    let ghost before = v@;
    v.insert(i, x);
    proof {
        assert forall|a: int, b: int| 0 <= a < b < v@.len() implies v@[a] < v@[b] by {
            if a < i as int && b < i as int {
                assert(v@[a] == before[a] && v@[b] == before[b]);
            } else if a < i as int && b == i as int {
            } else if a < i as int {
                assert(v@[b] == before[b - 1]);
                assert(before[a] < before[b - 1] || a == b - 1);
            } else if a == i as int {
                assert(v@[b] == before[b - 1]);
                assert(before[i as int] >= x);
                assert(before[i as int] != x);
                assert(before[i as int] <= before[b - 1]);
            } else {
                assert(v@[a] == before[a - 1] && v@[b] == before[b - 1]);
            }
        }
        assert(v@.to_set() =~= before.to_set().insert(x)) by {
            assert forall|y: i64| v@.contains(y) <==> before.contains(y) || y == x by {
                if v@.contains(y) {
                    let k = choose|k: int| 0 <= k < v@.len() && v@[k] == y;
                    if k < i as int {
                        assert(before[k] == y);
                    } else if k > i as int {
                        assert(before[k - 1] == y);
                    }
                }
                if before.contains(y) {
                    let k = choose|k: int| 0 <= k < before.len() && before[k] == y;
                    if k < i as int {
                        assert(v@[k] == y);
                    } else {
                        assert(v@[k + 1] == y);
                    }
                }
                if y == x {
                    assert(v@[i as int] == x);
                }
            }
            assert forall|y: i64| #[trigger] v@.to_set().contains(y) == before.to_set().insert(
                x,
            ).contains(y) by {
                assert(v@.contains(y) <==> before.contains(y) || y == x);
            }
        }
    }
}

/// The ids of the files a message's content refers to, ascending and each
/// once.
pub fn file_marker_ids(content: &str) -> (r: Vec<i64>)
    ensures
        strictly_increasing(r@),
        r@.to_set().map(|x: i64| x as int) == referenced_file_ids(content@),
{
    let s = chars_of(content);
    let s = s.as_slice();
    let ghost cs = s@;
    let mut out: Vec<i64> = Vec::new();
    let mut i: usize = 0;
    while i < s.len()
        invariant
            i <= s.len(),
            cs == s@,
            strictly_increasing(out@),
            out@.to_set().map(|x: i64| x as int) == Set::new(
                |v: int| exists|k: int| 0 <= k < i && file_marker_at(cs, k, v),
            ),
        decreases s.len() - i,
    {
        let ghost before = out@;
        let mut hit: Option<i64> = None;
        if s.len() - i >= 7 {
            let head = crate::text::slice_chars(s, i, i + 7);
            if eq_lit(head.as_slice(), "[[file:") || eq_lit(head.as_slice(), "[[file=") {
                let (e, val) = scan_digits(s, i + 7);
                if e > i + 7 && e < s.len() && s[e] == '|' {
                    hit = val;
                }
            }
        }
        proof {
            if i + 7 <= cs.len() {
                lemma_digit_run(cs, (i + 7) as int);
            }
            assert forall|v: int| file_marker_at(cs, i as int, v) implies hit == Some(v as i64) by {
            }
            assert(hit matches Some(x) ==> file_marker_at(cs, i as int, x as int));
        }
        match hit {
            Some(x) => {
                insert_sorted_unique(&mut out, x);
            },
            None => {},
        }
        proof {
            let next = Set::new(
                |v: int| exists|k: int| 0 <= k < i + 1 && file_marker_at(cs, k, v),
            );
            assert(out@.to_set().map(|x: i64| x as int) =~= next) by {
                assert forall|v: int| #[trigger] next.contains(v) implies out@.to_set().map(
                    |x: i64| x as int,
                ).contains(v) by {
                    let k = choose|k: int| 0 <= k < i + 1 && file_marker_at(cs, k, v);
                    if k < i {
                        assert(before.to_set().map(|x: i64| x as int).contains(v));
                        let w = choose|w: i64| before.to_set().contains(w) && w as int == v;
                        assert(out@.to_set().contains(w));
                    } else {
                        assert(k == i);
                        assert(hit == Some(v as i64));
                        assert(out@.to_set().contains(v as i64));
                    }
                }
                assert forall|v: int| out@.to_set().map(|x: i64| x as int).contains(v)
                    implies #[trigger] next.contains(v) by {
                    let w = choose|w: i64| out@.to_set().contains(w) && w as int == v;
                    if before.to_set().contains(w) {
                        assert(before.to_set().map(|x: i64| x as int).contains(v));
                        let k = choose|k: int| 0 <= k < i && file_marker_at(cs, k, v);
                        assert(0 <= k < i + 1 && file_marker_at(cs, k, v));
                    } else {
                        assert(hit == Some(w));
                        assert(file_marker_at(cs, i as int, v));
                    }
                }
            }
        }
        i = i + 1;
    }
    proof {
        assert(out@.to_set().map(|x: i64| x as int) =~= referenced_file_ids(cs)) by {
            assert forall|v: int| #[trigger] referenced_file_ids(cs).contains(v) implies out@.to_set().map(
                |x: i64| x as int,
            ).contains(v) by {
                let k = choose|k: int| file_marker_at(cs, k, v);
                assert(0 <= k < s.len());
            }
        }
    }
    out
}

// ---------------------------------------------------------------------------
// Groups
// ---------------------------------------------------------------------------

/// The other members of a group asked for: ids other than the creator's and
/// above zero, each kept at its first occurrence.
pub open spec fn select_group_members_spec(me: i64, ids: Seq<i64>) -> Seq<i64>
    decreases ids.len(),
{
    if ids.len() == 0 {
        seq![]
    } else {
        let prev = select_group_members_spec(me, ids.drop_last());
        let id = ids.last();
        if id == me || id <= 0 || prev.contains(id) {
            prev
        } else {
            prev.push(id)
        }
    }
}

pub fn select_group_members(me: i64, ids: &[i64]) -> (r: Vec<i64>)
    ensures
        r@ == select_group_members_spec(me, ids@),
{
    let mut out: Vec<i64> = Vec::new();
    let mut i: usize = 0;
    while i < ids.len()
        invariant
            i <= ids.len(),
            out@ == select_group_members_spec(me, ids@.take(i as int)),
        decreases ids.len() - i,
    {
        let id = ids[i];
        let mut seen = false;
        let mut j: usize = 0;
        while j < out.len()
            invariant
                j <= out.len(),
                seen == exists|k: int| 0 <= k < j && out@[k] == id,
            decreases out.len() - j,
        {
            if out[j] == id {
                seen = true;
            }
            j = j + 1;
        }
        proof {
            let t = ids@.take(i + 1);
            assert(t.drop_last() =~= ids@.take(i as int));
            assert(t.last() == id);
            if out@.contains(id) {
                let k = choose|k: int| 0 <= k < out@.len() && out@[k] == id;
                assert(out@[k] == id);
            }
        }
        if !(id == me || id <= 0 || seen) {
            out.push(id);
        }
        i = i + 1;
    }
    proof {
        assert(ids@.take(ids@.len() as int) =~= ids@);
    }
    out
}

/// The members chosen for a group are ids that were asked for, never the
/// creator, all above zero, and none twice.
pub proof fn law_group_members_clean(me: i64, ids: Seq<i64>)
    ensures
        forall|i: int|
            0 <= i < select_group_members_spec(me, ids).len() ==> {
                let m = #[trigger] select_group_members_spec(me, ids)[i];
                m != me && m > 0 && ids.contains(m)
            },
        forall|i: int, j: int|
            0 <= i < j < select_group_members_spec(me, ids).len() ==> select_group_members_spec(
                me,
                ids,
            )[i] != select_group_members_spec(me, ids)[j],
    decreases ids.len(),
{
    if ids.len() > 0 {
        let prev_ids = ids.drop_last();
        law_group_members_clean(me, prev_ids);
        let prev = select_group_members_spec(me, prev_ids);
        let r = select_group_members_spec(me, ids);
        assert forall|i: int| 0 <= i < r.len() implies {
            let m = #[trigger] r[i];
            m != me && m > 0 && ids.contains(m)
        } by {
            if i < prev.len() {
                assert(r[i] == prev[i]);
                let k = choose|k: int| 0 <= k < prev_ids.len() && prev_ids[k] == prev[i];
                assert(ids[k] == prev_ids[k]);
            } else {
                assert(ids[ids.len() - 1] == ids.last());
            }
        }
        assert forall|i: int, j: int| 0 <= i < j < r.len() implies r[i] != r[j] by {
            if j >= prev.len() {
                assert(!prev.contains(ids.last()));
                assert(r[i] == prev[i]);
            }
        }
    }
}

/// Why a group cannot be formed from the members asked for.
#[derive(PartialEq, Eq, Structural, Debug)]
pub enum GroupSizeError {
    /// Fewer than two other members.
    TooFew,
    /// More than `MAX_GROUP_OTHERS` other members.
    TooMany,
}

pub fn check_group_size(others: usize) -> (r: Result<(), GroupSizeError>)
    ensures
        others < 2 <==> r == Err::<(), GroupSizeError>(GroupSizeError::TooFew),
        others > MAX_GROUP_OTHERS <==> r == Err::<(), GroupSizeError>(GroupSizeError::TooMany),
        r is Ok <==> 2 <= others <= MAX_GROUP_OTHERS,
{
    if others < 2 {
        Err(GroupSizeError::TooFew)
    } else if others > MAX_GROUP_OTHERS {
        Err(GroupSizeError::TooMany)
    } else {
        Ok(())
    }
}

/// The answer to a group of the wrong size: the HTTP status, its detail,
/// and for too many members the limit under `max_other_users`.
pub fn group_size_reply(e: GroupSizeError) -> (r: (u16, &'static str, Option<(&'static str, i64)>))
    ensures
        match e {
            GroupSizeError::TooFew => r.0 == 400 && r.1@ == "group_requires_at_least_two_other_users"@
                && r.2 is None,
            GroupSizeError::TooMany => r.0 == 413 && r.1@ == "too_many_group_members"@ && extra_is(
                r.2,
                "max_other_users"@,
                MAX_GROUP_OTHERS as int,
            ),
        },
{
    match e {
        GroupSizeError::TooFew => (400, "group_requires_at_least_two_other_users", None),
        GroupSizeError::TooMany => (413, "too_many_group_members", Some(("max_other_users", 24))),
    }
}

/// Why a user cannot be made a member of a new group.
#[derive(PartialEq, Eq, Structural, Clone, Copy, Debug)]
pub enum GroupMemberRefusal {
    Unknown,
    Banned,
    Blocked,
    Restricted,
}

/// The checks on each other member of a new group, in the order they are
/// made: the user exists, is not banned, is not blocked with the creator,
/// and lets the creator write to them.
pub fn group_member_check(exists: bool, banned: bool, blocked: bool, may_write: bool) -> (r: Result<
    (),
    GroupMemberRefusal,
>)
    ensures
        r == (if !exists {
            Err(GroupMemberRefusal::Unknown)
        } else if banned {
            Err(GroupMemberRefusal::Banned)
        } else if blocked {
            Err(GroupMemberRefusal::Blocked)
        } else if !may_write {
            Err(GroupMemberRefusal::Restricted)
        } else {
            Ok::<(), GroupMemberRefusal>(())
        }),
{
    if !exists {
        Err(GroupMemberRefusal::Unknown)
    } else if banned {
        Err(GroupMemberRefusal::Banned)
    } else if blocked {
        Err(GroupMemberRefusal::Blocked)
    } else if !may_write {
        Err(GroupMemberRefusal::Restricted)
    } else {
        Ok(())
    }
}

/// The answer to a refused group member: the HTTP status and the detail; the
/// answer also names the member under `user_id`.
pub fn group_member_reply(e: GroupMemberRefusal) -> (r: (u16, &'static str))
    ensures
        match e {
            GroupMemberRefusal::Unknown => r.0 == 400 && r.1@ == "unknown_group_member"@,
            GroupMemberRefusal::Banned => r.0 == 403 && r.1@ == "banned_group_member"@,
            GroupMemberRefusal::Blocked => r.0 == 403 && r.1@ == "blocked_group_member"@,
            GroupMemberRefusal::Restricted => r.0 == 403 && r.1@ == "dm_restricted_group_member"@,
        },
{
    match e {
        GroupMemberRefusal::Unknown => (400, "unknown_group_member"),
        GroupMemberRefusal::Banned => (403, "banned_group_member"),
        GroupMemberRefusal::Blocked => (403, "blocked_group_member"),
        GroupMemberRefusal::Restricted => (403, "dm_restricted_group_member"),
    }
}

/// Names joined with a separator.
pub open spec fn join_names(names: Seq<Seq<char>>, sep: Seq<char>) -> Seq<char>
    decreases names.len(),
{
    if names.len() == 0 {
        seq![]
    } else if names.len() == 1 {
        names[0]
    } else {
        join_names(names.drop_last(), sep) + sep + names.last()
    }
}

pub open spec fn string_views(v: Seq<String>) -> Seq<Seq<char>> {
    v.map_values(|s: String| s@)
}

/// Joins the first `n` names with `", "`.
pub fn join_first_names(names: &[String], n: usize) -> (r: Vec<char>)
    ensures
        r@ == join_names(
            string_views(names@).take(
                if names@.len() < n {
                    names@.len() as int
                } else {
                    n as int
                },
            ),
            ", "@,
        ),
{
    let m: usize = if names.len() < n {
        names.len()
    } else {
        n
    };
    let ghost all = string_views(names@);
    let mut out: Vec<char> = Vec::new();
    let mut i: usize = 0;
    while i < m
        invariant
            i <= m <= names@.len(),
            all == string_views(names@),
            out@ == join_names(all.take(i as int), ", "@),
        decreases m - i,
    {
        let ghost before = out@;
        if i > 0 {
            push_lit(&mut out, ", ");
        }
        let piece = chars_of(names[i].as_str());
        push_all(&mut out, piece.as_slice());
        proof {
            let t = all.take(i + 1);
            assert(t.drop_last() =~= all.take(i as int));
            assert(t.last() == names@[i as int]@);
            if i == 0 {
                assert(out@ =~= t[0]);
            } else {
                assert(out@ =~= before + ", "@ + t.last());
            }
        }
        i = i + 1;
    }
    out
}

/// The title of a new group: the name given, trimmed, when there is one;
/// else the first four member names; else a generic title; at most eighty
/// characters.
pub open spec fn group_title_spec(raw: Option<Seq<char>>, names: Seq<Seq<char>>) -> Seq<char> {
    let t = trim(
        match raw {
            Some(r) => r,
            None => seq![],
        },
    );
    if t.len() > 0 {
        take_chars(t, 80)
    } else {
        let joined = join_names(names.take(if names.len() < 4 { names.len() as int } else { 4 }), ", "@);
        if joined.len() == 0 {
            take_chars("Групповой чат"@, 80)
        } else {
            take_chars(joined, 80)
        }
    }
}

pub fn normalize_group_title(raw: Option<String>, fallback_names: &[String]) -> (r: String)
    ensures
        r@ == group_title_spec(
            match raw {
                Some(s) => Some(s@),
                None => None,
            },
            string_views(fallback_names@),
        ),
{
    let raw_chars: Vec<char> = match &raw {
        Some(s) => chars_of(s.as_str()),
        None => Vec::new(),
    };
    let t = trim_chars(raw_chars.as_slice());
    if t.len() > 0 {
        return string_of(take_prefix(t.as_slice(), 80).as_slice());
    }
    let joined = join_first_names(fallback_names, 4);
    if joined.len() == 0 {
        let g = chars_of("Групповой чат");
        string_of(take_prefix(g.as_slice(), 80).as_slice())
    } else {
        string_of(take_prefix(joined.as_slice(), 80).as_slice())
    }
}

/// `a` comes no later than `b` in the order of `str`'s comparison:
/// lexicographic by character code, a prefix first.
pub open spec fn chars_le(a: Seq<char>, b: Seq<char>) -> bool
    decreases a.len(),
{
    if a.len() == 0 {
        true
    } else if b.len() == 0 {
        false
    } else if a[0] != b[0] {
        (a[0] as u32) < (b[0] as u32)
    } else {
        chars_le(a.drop_first(), b.drop_first())
    }
}

pub fn chars_le_exec(a: &[char], b: &[char]) -> (r: bool)
    ensures
        r == chars_le(a@, b@),
{
    let mut i: usize = 0;
    proof {
        assert(a@.skip(0) =~= a@);
        assert(b@.skip(0) =~= b@);
        assert(a@.take(0) =~= b@.take(0));
    }
    while i < a.len()
        invariant
            i <= a.len(),
            i <= b.len(),
            a@.take(i as int) == b@.take(i as int),
            chars_le(a@, b@) == chars_le(a@.skip(i as int), b@.skip(i as int)),
        decreases a.len() - i,
    {
        if i >= b.len() {
            return false;
        }
        let x = a[i];
        let y = b[i];
        proof {
            assert(a@.skip(i as int)[0] == x);
            assert(b@.skip(i as int)[0] == y);
            assert(a@.skip(i as int).drop_first() =~= a@.skip(i + 1));
            assert(b@.skip(i as int).drop_first() =~= b@.skip(i + 1));
        }
        if x != y {
            return (x as u32) < (y as u32);
        }
        i = i + 1;
        proof {
            assert(a@.take(i as int) =~= a@.take(i - 1).push(x));
            assert(b@.take(i as int) =~= b@.take(i - 1).push(y));
        }
    }
    true
}

proof fn lemma_chars_le_total(a: Seq<char>, b: Seq<char>)
    ensures
        chars_le(a, b) || chars_le(b, a),
    decreases a.len(),
{
    if a.len() > 0 && b.len() > 0 {
        if a[0] == b[0] {
            lemma_chars_le_total(a.drop_first(), b.drop_first());
        } else {
            vstd::utf8::char_u32_cast(a[0], a[0] as u32);
            vstd::utf8::char_u32_cast(b[0], b[0] as u32);
        }
    }
}

proof fn lemma_chars_le_trans(a: Seq<char>, b: Seq<char>, c: Seq<char>)
    requires
        chars_le(a, b),
        chars_le(b, c),
    ensures
        chars_le(a, c),
    decreases a.len(),
{
    if a.len() > 0 && b.len() > 0 && c.len() > 0 && a[0] == b[0] && b[0] == c[0] {
        lemma_chars_le_trans(a.drop_first(), b.drop_first(), c.drop_first());
    }
}

/// A member of a new group.
#[derive(Debug)]
pub struct GroupMember {
    pub id: i64,
    pub username: String,
}

/// What members of a group are ordered by: the lower-case name.
pub open spec fn member_key(m: GroupMember) -> Seq<char> {
    unicode_lower(m.username@)
}

/// `x` placed into `sorted` after every member whose key is not above its
/// own.
pub open spec fn insert_by_key(sorted: Seq<GroupMember>, x: GroupMember) -> Seq<GroupMember>
    decreases sorted.len(),
{
    if sorted.len() == 0 {
        seq![x]
    } else if chars_le(member_key(sorted.last()), member_key(x)) {
        sorted.push(x)
    } else {
        insert_by_key(sorted.drop_last(), x).push(sorted.last())
    }
}

/// The members ordered by lower-case name; members with equal keys keep
/// their order (a stable sort, as `sort_by_key`).
pub open spec fn sort_members_spec(s: Seq<GroupMember>) -> Seq<GroupMember>
    decreases s.len(),
{
    if s.len() == 0 {
        seq![]
    } else {
        insert_by_key(sort_members_spec(s.drop_last()), s.last())
    }
}

proof fn lemma_insert_at(sorted: Seq<GroupMember>, x: GroupMember, j: int)
    requires
        0 <= j <= sorted.len(),
        j == 0 || chars_le(member_key(sorted[j - 1]), member_key(x)),
        forall|i: int| j <= i < sorted.len() ==> !chars_le(member_key(#[trigger] sorted[i]), member_key(x)),
    ensures
        insert_by_key(sorted, x) == sorted.take(j) + seq![x] + sorted.skip(j),
    decreases sorted.len(),
{
    if sorted.len() == j {
        assert(sorted.take(j) =~= sorted);
        assert(sorted.skip(j) =~= Seq::<GroupMember>::empty());
        if j > 0 {
            assert(sorted.last() == sorted[j - 1]);
        }
        assert(sorted + seq![x] =~= sorted.push(x));
    } else {
        let d = sorted.drop_last();
        assert(!chars_le(member_key(sorted[sorted.len() - 1]), member_key(x)));
        if j > 0 {
            assert(d[j - 1] == sorted[j - 1]);
        }
        assert forall|i: int| j <= i < d.len() implies !chars_le(member_key(#[trigger] d[i]), member_key(x)) by {
            assert(d[i] == sorted[i]);
        }
        lemma_insert_at(d, x, j);
        assert(d.take(j) =~= sorted.take(j));
        assert((d.take(j) + seq![x] + d.skip(j)).push(sorted.last()) =~= sorted.take(j) + seq![x]
            + sorted.skip(j));
    }
}

/// Each member's key is no greater than the keys of the members after it.
pub open spec fn sorted_by_key(s: Seq<GroupMember>) -> bool {
    forall|i: int, j: int|
        0 <= i < j < s.len() ==> chars_le(member_key(#[trigger] s[i]), member_key(#[trigger] s[j]))
}

proof fn lemma_insert_sorted(sorted: Seq<GroupMember>, x: GroupMember)
    requires
        sorted_by_key(sorted),
    ensures
        sorted_by_key(insert_by_key(sorted, x)),
        insert_by_key(sorted, x).to_multiset() == sorted.to_multiset().insert(x),
        forall|i: int|
            0 <= i < insert_by_key(sorted, x).len() ==> #[trigger] insert_by_key(sorted, x)[i] == x
                || sorted.contains(insert_by_key(sorted, x)[i]),
        insert_by_key(sorted, x).len() == sorted.len() + 1,
    decreases sorted.len(),
{
    broadcast use vstd::seq_lib::group_to_multiset_ensures;

    let r = insert_by_key(sorted, x);
    if sorted.len() == 0 {
        assert(r =~= Seq::<GroupMember>::empty().push(x));
    } else if chars_le(member_key(sorted.last()), member_key(x)) {
        assert forall|i: int, j: int| 0 <= i < j < r.len() implies chars_le(
            member_key(#[trigger] r[i]),
            member_key(#[trigger] r[j]),
        ) by {
            if j == sorted.len() {
                if i < sorted.len() - 1 {
                    lemma_chars_le_trans(
                        member_key(sorted[i]),
                        member_key(sorted.last()),
                        member_key(x),
                    );
                }
            }
        }
        assert forall|i: int| 0 <= i < r.len() implies #[trigger] r[i] == x || sorted.contains(r[i]) by {
            if i < sorted.len() {
                assert(r[i] == sorted[i]);
            }
        }
    } else {
        let d = sorted.drop_last();
        let last = sorted.last();
        assert(sorted_by_key(d)) by {
            assert forall|i: int, j: int| 0 <= i < j < d.len() implies chars_le(
                member_key(#[trigger] d[i]),
                member_key(#[trigger] d[j]),
            ) by {
                assert(d[i] == sorted[i]);
                assert(d[j] == sorted[j]);
            }
        }
        lemma_insert_sorted(d, x);
        let rp = insert_by_key(d, x);
        lemma_chars_le_total(member_key(last), member_key(x));
        assert(sorted =~= d.push(last));
        assert forall|i: int, j: int| 0 <= i < j < r.len() implies chars_le(
            member_key(#[trigger] r[i]),
            member_key(#[trigger] r[j]),
        ) by {
            if j == rp.len() {
                assert(r[i] == rp[i]);
                assert(r[j] == last);
                if rp[i] != x {
                    assert(d.contains(rp[i]));
                    let k = choose|k: int| 0 <= k < d.len() && d[k] == rp[i];
                    assert(sorted[k] == d[k]);
                    assert(sorted[sorted.len() - 1] == last);
                }
            } else {
                assert(r[i] == rp[i]);
                assert(r[j] == rp[j]);
            }
        }
        assert forall|i: int| 0 <= i < r.len() implies #[trigger] r[i] == x || sorted.contains(r[i]) by {
            if i < rp.len() {
                assert(r[i] == rp[i]);
                if rp[i] != x {
                    assert(d.contains(rp[i]));
                    let k = choose|k: int| 0 <= k < d.len() && d[k] == rp[i];
                    assert(sorted[k] == d[k]);
                }
            } else {
                assert(sorted[sorted.len() - 1] == last);
            }
        }
        assert(r.to_multiset() =~= sorted.to_multiset().insert(x));
    }
}

/// The members of a new group come out ordered by lower-case name, and they
/// are the members that went in, each as often as it went in.
pub proof fn law_group_members_sorted(members: Seq<GroupMember>)
    ensures
        sorted_by_key(sort_members_spec(members)),
        sort_members_spec(members).to_multiset() == members.to_multiset(),
        sort_members_spec(members).len() == members.len(),
    decreases members.len(),
{
    broadcast use vstd::seq_lib::group_to_multiset_ensures;

    if members.len() > 0 {
        let d = members.drop_last();
        law_group_members_sorted(d);
        lemma_insert_sorted(sort_members_spec(d), members.last());
        assert(members =~= d.push(members.last()));
    } else {
        assert(members.to_multiset() =~= sort_members_spec(members).to_multiset());
    }
}

/// Orders the members of a new group by their lower-case names, keeping
/// the order of members whose names compare equal.
pub fn sort_group_members(members: Vec<GroupMember>) -> (r: Vec<GroupMember>)
    ensures
        r@ == sort_members_spec(members@),
{
    let ghost input = members@;
    let mut rest = members;
    let n: usize = rest.len();
    let mut out: Vec<GroupMember> = Vec::new();
    let mut keys: Vec<Vec<char>> = Vec::new();
    let mut k: usize = 0;
    while rest.len() > 0
        invariant
            k + rest@.len() == input.len(),
            input.len() == n,
            rest@ == input.skip(k as int),
            out@ == sort_members_spec(input.take(k as int)),
            keys@.len() == out@.len(),
            forall|i: int| 0 <= i < out@.len() ==> #[trigger] keys@[i]@ == member_key(out@[i]),
        decreases rest@.len(),
    {
        let x = rest.remove(0);
        let lower = to_lowercase(x.username.as_str());
        let kx = chars_of(lower.as_str());
        let mut j: usize = out.len();
        while j > 0 && !chars_le_exec(keys[j - 1].as_slice(), kx.as_slice())
            invariant
                j <= out@.len(),
                keys@.len() == out@.len(),
                forall|i: int| 0 <= i < out@.len() ==> #[trigger] keys@[i]@ == member_key(out@[i]),
                kx@ == member_key(x),
                forall|i: int| j <= i < out@.len() ==> !chars_le(member_key(#[trigger] out@[i]), member_key(x)),
            decreases j,
        {
            j = j - 1;
        }
        proof {
            assert(input.skip(k as int)[0] == x);
            assert(input.take(k + 1).drop_last() =~= input.take(k as int));
            assert(input.take(k + 1).last() == x);
            assert(j == 0 || chars_le(member_key(out@[j - 1]), member_key(x)));
            lemma_insert_at(out@, x, j as int);
        }
        let ghost before = out@;
        let ghost keys_before = keys@;
        out.insert(j, x);
        keys.insert(j, kx);
        k = k + 1;
        proof {
            assert(out@ =~= before.take(j as int) + seq![x] + before.skip(j as int));
            assert(rest@ =~= input.skip(k as int));
            assert forall|i: int| 0 <= i < out@.len() implies #[trigger] keys@[i]@ == member_key(out@[i]) by {
                if i < j {
                    assert(keys@[i] == keys_before[i]);
                    assert(out@[i] == before[i]);
                } else if i > j {
                    assert(keys@[i] == keys_before[i - 1]);
                    assert(out@[i] == before[i - 1]);
                }
            }
        }
    }
    proof {
        assert(input.take(k as int) =~= input);
    }
    out
}

/// The ids of a new group's members: the creator first, then the others in
/// the order given.
pub fn group_participants(me: i64, others: &[GroupMember]) -> (r: Vec<i64>)
    ensures
        r@ == seq![me] + others@.map_values(|m: GroupMember| m.id),
{
    let mut r: Vec<i64> = Vec::new();
    r.push(me);
    let mut i: usize = 0;
    while i < others.len()
        invariant
            i <= others.len(),
            r@ == seq![me] + others@.take(i as int).map_values(|m: GroupMember| m.id),
        decreases others.len() - i,
    {
        r.push(others[i].id);
        i = i + 1;
        proof {
            assert(others@.take(i as int) =~= others@.take(i - 1).push(others@[i - 1]));
            assert(r@ =~= seq![me] + others@.take(i as int).map_values(|m: GroupMember| m.id));
        }
    }
    proof {
        assert(others@.take(others.len() as int) =~= others@);
    }
    r
}

/// The names of a new group's members: the creator's first, then the
/// others' in the order given.
pub fn group_member_names(me_name: &str, others: &[GroupMember]) -> (r: Vec<String>)
    ensures
        string_views(r@) == seq![me_name@] + others@.map_values(|m: GroupMember| m.username@),
{
    let mut r: Vec<String> = Vec::new();
    r.push(me_name.to_string());
    let mut i: usize = 0;
    while i < others.len()
        invariant
            i <= others.len(),
            string_views(r@) == seq![me_name@] + others@.take(i as int).map_values(
                |m: GroupMember| m.username@,
            ),
        decreases others.len() - i,
    {
        let ghost before = r@;
        r.push(others[i].username.clone());
        i = i + 1;
        proof {
            assert(string_views(r@) =~= string_views(before).push(others@[i - 1].username@));
            assert(others@.take(i as int) =~= others@.take(i - 1).push(others@[i - 1]));
            assert(string_views(r@) =~= seq![me_name@] + others@.take(i as int).map_values(
                |m: GroupMember| m.username@,
            ));
        }
    }
    proof {
        assert(others@.take(others.len() as int) =~= others@);
    }
    r
}

/// The participants of a new group are its creator and exactly the other
/// members given, whatever order the names put them in.
pub proof fn law_group_participants(me: i64, others: Seq<GroupMember>, id: i64)
    ensures
        (seq![me] + sort_members_spec(others).map_values(|m: GroupMember| m.id)).contains(id) <==> (
        id == me || exists|k: int| 0 <= k < others.len() && (#[trigger] others[k]).id == id),
{
    broadcast use vstd::seq_lib::group_to_multiset_ensures;

    let sorted = sort_members_spec(others);
    let ids = sorted.map_values(|m: GroupMember| m.id);
    let all = seq![me] + ids;
    law_group_members_sorted(others);
    if all.contains(id) && id != me {
        let j = choose|j: int| 0 <= j < all.len() && all[j] == id;
        assert(j >= 1);
        assert(all[j] == ids[j - 1]);
        let m = sorted[j - 1];
        assert(sorted.contains(m));
        assert(sorted.to_multiset().count(m) > 0);
        assert(others.to_multiset().count(m) > 0);
        assert(others.contains(m));
        let k = choose|k: int| 0 <= k < others.len() && others[k] == m;
        assert(others[k].id == id);
    }
    if id == me {
        assert(all[0] == me);
    } else if exists|k: int| 0 <= k < others.len() && (#[trigger] others[k]).id == id {
        let k = choose|k: int| 0 <= k < others.len() && (#[trigger] others[k]).id == id;
        let m = others[k];
        assert(others.contains(m));
        assert(others.to_multiset().count(m) > 0);
        assert(sorted.to_multiset().count(m) > 0);
        assert(sorted.contains(m));
        let j = choose|j: int| 0 <= j < sorted.len() && sorted[j] == m;
        assert(ids[j] == id);
        assert(all[j + 1] == id);
    }
}

/// A new group as it is created: its title, the names it lists (creator
/// first) and the ids of its participants (creator first).
pub struct GroupPlan {
    pub title: String,
    pub member_names: Vec<String>,
    pub participants: Vec<i64>,
}

/// Plans a new group from the checked other members: they are ordered by
/// lower-case name, the title falls back to their names in that order, and
/// the creator leads both the names and the participants.
pub fn plan_group(me: i64, me_name: &str, name: Option<String>, others: Vec<GroupMember>) -> (p: GroupPlan)
    ensures
        p.title@ == group_title_spec(
            match name {
                Some(s) => Some(s@),
                None => None,
            },
            sort_members_spec(others@).map_values(|m: GroupMember| m.username@),
        ),
        string_views(p.member_names@) == seq![me_name@] + sort_members_spec(others@).map_values(
            |m: GroupMember| m.username@,
        ),
        p.participants@ == seq![me] + sort_members_spec(others@).map_values(|m: GroupMember| m.id),
{
    let sorted = sort_group_members(others);
    let mut names: Vec<String> = Vec::new();
    let mut i: usize = 0;
    while i < sorted.len()
        invariant
            i <= sorted.len(),
            string_views(names@) == sorted@.take(i as int).map_values(|m: GroupMember| m.username@),
        decreases sorted.len() - i,
    {
        let ghost before = names@;
        names.push(sorted[i].username.clone());
        i = i + 1;
        proof {
            assert(string_views(names@) =~= string_views(before).push(sorted@[i - 1].username@));
            assert(sorted@.take(i as int) =~= sorted@.take(i - 1).push(sorted@[i - 1]));
            assert(string_views(names@) =~= sorted@.take(i as int).map_values(
                |m: GroupMember| m.username@,
            ));
        }
    }
    proof {
        assert(sorted@.take(sorted.len() as int) =~= sorted@);
    }
    let title = normalize_group_title(name, names.as_slice());
    let member_names = group_member_names(me_name, sorted.as_slice());
    let participants = group_participants(me, sorted.as_slice());
    GroupPlan { title, member_names, participants }
}

// ---------------------------------------------------------------------------
// Who may write to whom
// ---------------------------------------------------------------------------

/// Whether a user's direct-message setting lets someone write: `friends_only`
/// admits friends, `friends_and_server` (also the default when the setting is
/// missing) admits friends and those sharing a server, anything else admits
/// everyone.
pub open spec fn dm_allowed_spec(mode: Option<Seq<char>>, are_friends: bool, share_server: bool) -> bool {
    let m = match mode {
        Some(m) => m,
        None => "friends_and_server"@,
    };
    if m == "friends_only"@ {
        are_friends
    } else if m == "friends_and_server"@ {
        are_friends || share_server
    } else {
        true
    }
}

pub fn dm_allowed(mode: Option<&str>, are_friends: bool, share_server: bool) -> (r: bool)
    ensures
        r == dm_allowed_spec(
            match mode {
                Some(m) => Some(m@),
                None => None,
            },
            are_friends,
            share_server,
        ),
{
    let m = match mode {
        Some(m) => chars_of(m),
        None => chars_of("friends_and_server"),
    };
    if eq_lit(m.as_slice(), "friends_only") {
        are_friends
    } else if eq_lit(m.as_slice(), "friends_and_server") {
        are_friends || share_server
    } else {
        true
    }
}

/// The direct-message setting stored in a user's settings: the `dms`
/// member when it is a string.
pub open spec fn settings_dm_mode_spec(settings: JsonValue) -> Option<Seq<char>> {
    match settings {
        JsonValue::Object(entries) => match member(entries@, "dms"@) {
            Some(JsonValue::Str(m, _)) => Some(m@),
            _ => None,
        },
        _ => None,
    }
}

pub fn settings_dm_mode(settings: &JsonValue) -> (r: Option<String>)
    ensures
        match r {
            Some(m) => settings_dm_mode_spec(*settings) == Some(m@),
            None => settings_dm_mode_spec(*settings) is None,
        },
{
    match settings {
        JsonValue::Object(entries) => match json_member(entries, "dms") {
            Some(JsonValue::Str(m, _)) => Some(m.clone()),
            _ => None,
        },
        _ => None,
    }
}

/// A pair of users in the order conversations between two are keyed by.
pub fn canonical_pair(a: i64, b: i64) -> (r: (i64, i64))
    ensures
        r.0 <= r.1,
        r == (if a < b {
            (a, b)
        } else {
            (b, a)
        }),
{
    if a < b {
        (a, b)
    } else {
        (b, a)
    }
}

/// A stored direct conversation: its chat and its two users, lower id first.
#[derive(PartialEq, Eq, Structural, Clone, Copy, Debug)]
pub struct DmRow {
    pub chat_id: i64,
    pub user_a: i64,
    pub user_b: i64,
}

/// The stored direct conversations, in the order they were made.
#[derive(Debug)]
pub struct DmIndex {
    pub rows: Vec<DmRow>,
}

/// The chat of the first stored conversation of the pair `(a, b)`.
pub open spec fn find_dm_spec(rows: Seq<DmRow>, a: i64, b: i64) -> Option<i64>
    decreases rows.len(),
{
    if rows.len() == 0 {
        None
    } else if rows[0].user_a == a && rows[0].user_b == b {
        Some(rows[0].chat_id)
    } else {
        find_dm_spec(rows.drop_first(), a, b)
    }
}

/// Opening the conversation of `me` and `other`: the stored one of their
/// pair, else a new one under `fresh_chat_id`; the rows after, and the chat.
pub open spec fn open_dm_spec(rows: Seq<DmRow>, me: i64, other: i64, fresh_chat_id: i64) -> (
    Seq<DmRow>,
    i64,
) {
    let (a, b) = if me < other {
        (me, other)
    } else {
        (other, me)
    };
    match find_dm_spec(rows, a, b) {
        Some(c) => (rows, c),
        None => (rows.push(DmRow { chat_id: fresh_chat_id, user_a: a, user_b: b }), fresh_chat_id),
    }
}

impl DmIndex {
    /// The chat of the stored conversation of the pair `(a, b)`.
    pub fn find_dm(&self, a: i64, b: i64) -> (r: Option<i64>)
        ensures
            r == find_dm_spec(self.rows@, a, b),
    {
        let mut i: usize = 0;
        proof {
            assert(self.rows@.skip(0) =~= self.rows@);
        }
        while i < self.rows.len()
            invariant
                i <= self.rows.len(),
                find_dm_spec(self.rows@, a, b) == find_dm_spec(self.rows@.skip(i as int), a, b),
            decreases self.rows.len() - i,
        {
            let row = self.rows[i];
            proof {
                assert(self.rows@.skip(i as int)[0] == self.rows@[i as int]);
                assert(self.rows@.skip(i as int).drop_first() =~= self.rows@.skip(i + 1));
            }
            if row.user_a == a && row.user_b == b {
                return Some(row.chat_id);
            }
            i = i + 1;
        }
        None
    }

    /// Opens the conversation of `me` and `other`, storing a new one under
    /// `fresh_chat_id` when their pair has none; returns its chat.
    pub fn open_dm(&mut self, me: i64, other: i64, fresh_chat_id: i64) -> (r: i64)
        ensures
            (final(self).rows@, r) == open_dm_spec(old(self).rows@, me, other, fresh_chat_id),
    {
        let (a, b) = canonical_pair(me, other);
        match self.find_dm(a, b) {
            Some(c) => c,
            None => {
                self.rows.push(DmRow { chat_id: fresh_chat_id, user_a: a, user_b: b });
                fresh_chat_id
            },
        }
    }
}

proof fn lemma_find_dm_pushed(rows: Seq<DmRow>, row: DmRow)
    requires
        find_dm_spec(rows, row.user_a, row.user_b) is None,
    ensures
        find_dm_spec(rows.push(row), row.user_a, row.user_b) == Some(row.chat_id),
    decreases rows.len(),
{
    if rows.len() > 0 {
        lemma_find_dm_pushed(rows.drop_first(), row);
        assert(rows.push(row).drop_first() =~= rows.drop_first().push(row));
    }
}

/// Opening a direct conversation again, by either of its two users, gives
/// the same chat and stores nothing new.
pub proof fn law_dm_open_same_conversation(
    rows: Seq<DmRow>,
    me: i64,
    other: i64,
    fresh_chat_id: i64,
    later_fresh_chat_id: i64,
)
    ensures
        ({
            let (after, chat) = open_dm_spec(rows, me, other, fresh_chat_id);
            &&& open_dm_spec(after, me, other, later_fresh_chat_id) == (after, chat)
            &&& open_dm_spec(after, other, me, later_fresh_chat_id) == (after, chat)
        }),
{
    let (a, b) = if me < other {
        (me, other)
    } else {
        (other, me)
    };
    if find_dm_spec(rows, a, b) is None {
        lemma_find_dm_pushed(rows, DmRow { chat_id: fresh_chat_id, user_a: a, user_b: b });
    }
}

/// Why a direct conversation cannot be opened.
#[derive(PartialEq, Eq, Structural, Debug)]
pub enum DmOpenError {
    SelfConversation,
    UnknownUser,
    Banned,
    Blocked,
    Restricted,
}

/// What is known of the other user when a conversation is asked for.
#[derive(Clone, Copy, Debug)]
pub struct DmTarget {
    pub exists: bool,
    pub is_banned: bool,
    pub blocked: bool,
    pub may_write: bool,
}

/// Whether a direct conversation may be opened, and under which key.
pub open spec fn dm_open_spec(me: i64, other: i64, t: DmTarget) -> Result<(i64, i64), DmOpenError> {
    if other == me {
        Err(DmOpenError::SelfConversation)
    } else if !t.exists {
        Err(DmOpenError::UnknownUser)
    } else if t.is_banned {
        Err(DmOpenError::Banned)
    } else if t.blocked {
        Err(DmOpenError::Blocked)
    } else if !t.may_write {
        Err(DmOpenError::Restricted)
    } else if me < other {
        Ok((me, other))
    } else {
        Ok((other, me))
    }
}

pub fn dm_open_decision(me: i64, other: i64, t: DmTarget) -> (r: Result<(i64, i64), DmOpenError>)
    ensures
        r == dm_open_spec(me, other, t),
{
    if other == me {
        return Err(DmOpenError::SelfConversation);
    }
    if !t.exists {
        return Err(DmOpenError::UnknownUser);
    }
    if t.is_banned {
        return Err(DmOpenError::Banned);
    }
    if t.blocked {
        return Err(DmOpenError::Blocked);
    }
    if !t.may_write {
        return Err(DmOpenError::Restricted);
    }
    Ok(canonical_pair(me, other))
}

/// The answer to a refused conversation: the HTTP status and the detail
/// text, where the answer carries one.
pub fn dm_open_reply(e: DmOpenError) -> (r: (u16, Option<&'static str>))
    ensures
        match e {
            DmOpenError::SelfConversation => r.0 == 400 && r.1 is Some && r.1->0@
                == "Cannot DM yourself"@,
            DmOpenError::UnknownUser => r.0 == 404 && r.1 is None,
            DmOpenError::Banned => r.0 == 403 && r.1 is None,
            DmOpenError::Blocked => r.0 == 403 && r.1 is Some && r.1->0@ == "Blocked"@,
            DmOpenError::Restricted => r.0 == 403 && r.1 is Some && r.1->0@
                == "DMs are restricted by user settings"@,
        },
{
    match e {
        DmOpenError::SelfConversation => (400, Some("Cannot DM yourself")),
        DmOpenError::UnknownUser => (404, None),
        DmOpenError::Banned => (403, None),
        DmOpenError::Blocked => (403, Some("Blocked")),
        DmOpenError::Restricted => (403, Some("DMs are restricted by user settings")),
    }
}

// ---------------------------------------------------------------------------
// The conversation list
// ---------------------------------------------------------------------------

/// A member of a conversation other than the reader.
pub struct MemberInfo {
    pub id: i64,
    pub username: String,
    pub avatar_file_id: Option<i64>,
}

/// How a conversation is headed in the list: its title and the user it is
/// with (none for a group).
pub struct DmHeading {
    pub title: String,
    pub other_user_id: i64,
    pub other_username: String,
    pub other_avatar_file_id: Option<i64>,
    pub is_group: bool,
}

pub open spec fn member_names(others: Seq<MemberInfo>) -> Seq<Seq<char>> {
    others.map_values(|m: MemberInfo| m.username@)
}

/// A conversation with more than two members is a group, titled by its
/// trimmed name, else by up to four other members, else generically; a
/// two-person conversation is titled by the other member.
pub open spec fn dm_title_spec(member_count: i64, chat_name: Seq<char>, others: Seq<MemberInfo>) -> Seq<char> {
    if member_count > 2 {
        let n = trim(chat_name);
        if n.len() > 0 {
            n
        } else {
            let j = join_names(
                member_names(others).take(if others.len() < 4 { others.len() as int } else { 4 }),
                ", "@,
            );
            if j.len() == 0 {
                "Групповой чат"@
            } else {
                j
            }
        }
    } else if others.len() > 0 {
        others[0].username@
    } else {
        "Личный чат"@
    }
}

pub fn dm_heading(member_count: i64, chat_name: &str, others: &[MemberInfo]) -> (h: DmHeading)
    ensures
        h.is_group == (member_count > 2),
        h.title@ == dm_title_spec(member_count, chat_name@, others@),
        (h.is_group || others@.len() == 0) ==> (h.other_user_id == 0 && h.other_username@
            == h.title@ && h.other_avatar_file_id is None),
        (!h.is_group && others@.len() > 0) ==> (h.other_user_id == others@[0].id
            && h.other_username@ == others@[0].username@ && h.other_avatar_file_id
            == others@[0].avatar_file_id),
{
    let is_group = member_count > 2;
    let title: Vec<char> = if is_group {
        let n = trim_chars(chars_of(chat_name).as_slice());
        if n.len() > 0 {
            n
        } else {
            let mut names: Vec<String> = Vec::new();
            let mut i: usize = 0;
            while i < others.len()
                invariant
                    i <= others.len(),
                    string_views(names@) == member_names(others@.take(i as int)),
                decreases others.len() - i,
            {
                let ghost prev = names@;
                let nm = String::from_str(others[i].username.as_str());
                names.push(nm);
                proof {
                    assert(names@ == prev.push(nm));
                    assert(string_views(names@) =~= string_views(prev).push(nm@));
                    assert(others@.take(i + 1) =~= others@.take(i as int).push(others@[i as int]));
                    assert(member_names(others@.take(i + 1)) =~= member_names(
                        others@.take(i as int),
                    ).push(others@[i as int].username@));
                }
                i = i + 1;
            }
            proof {
                assert(others@.take(others@.len() as int) =~= others@);
            }
            let j = join_first_names(names.as_slice(), 4);
            if j.len() == 0 {
                chars_of("Групповой чат")
            } else {
                j
            }
        }
    } else if others.len() > 0 {
        chars_of(others[0].username.as_str())
    } else {
        chars_of("Личный чат")
    };
    let title_s = string_of(title.as_slice());
    if is_group || others.len() == 0 {
        DmHeading {
            other_username: string_of(title.as_slice()),
            title: title_s,
            other_user_id: 0,
            other_avatar_file_id: None,
            is_group,
        }
    } else {
        DmHeading {
            title: title_s,
            other_user_id: others[0].id,
            other_username: String::from_str(others[0].username.as_str()),
            other_avatar_file_id: others[0].avatar_file_id,
            is_group,
        }
    }
}

} // verus!
