//! The administration panel: its session cookie, its small normalisers and
//! labels, and the HTML it renders.

use vstd::prelude::*;
use vstd::utf8::encode_utf8;
use crate::html::{escape_chars, escape_html_spec, law_escape_html_inert};
use crate::text::{
    ascii_lower, chars_of, contains, contains_lit, copy_chars, ends_with, eq_lit, has_char,
    has_char_exec, is_alnum, is_ascii_alnum, push_all, push_lit, replace_all, replace_all_exec,
    starts_with, starts_with_lit, string_of, take_chars, take_prefix, to_ascii_lower, trim,
    trim_chars, nat_text, u64_text, i64_text, int_text, parse_i64, parse_i64_spec,
};
use crate::filetype::{sanitize_filename, sanitize_filename_spec, trim_start_char};
use crate::paths::{path_extension, path_extension_exec, path_join, thumb_path_for, thumb_stem, thumbs_dir};

verus! {

/// A signed-in administrator's session.
pub struct AdminSession {
    pub expires_at: i64,
    pub csrf: String,
}

/// A user as the panel lists it.
pub struct UserRow {
    pub id: i64,
    pub username: String,
    pub email: String,
    pub is_banned: bool,
    pub created_at: String,
    pub is_online: bool,
    pub presence_status: String,
    pub presence_updated_at: String,
    pub avatar_file_id: Option<i64>,
    pub ban_reason: String,
    pub ban_at: String,
    pub cookie_consent_status: String,
    pub cookie_consent_at: String,
    pub trust_factor: i64,
    pub trust_review_status: String,
    pub trust_review_reason: String,
    pub trust_review_at: String,
}

/// A report filed against a user.
pub struct UserReportRow {
    pub id: i64,
    pub reporter_id: i64,
    pub reporter_username: String,
    pub target_user_id: i64,
    pub message_id: Option<i64>,
    pub reason: String,
    pub message: String,
    pub status: String,
    pub created_at: String,
}

/// A suggestion sent by a user.
pub struct UserSuggestionRow {
    pub id: i64,
    pub user_id: i64,
    pub username: String,
    pub title: String,
    pub message: String,
    pub status: String,
    pub created_at: String,
    pub reviewed_at: Option<String>,
    pub admin_note: String,
}

// ---------------------------------------------------------------------------
// Configuration
// ---------------------------------------------------------------------------

/// An environment flag: `1`, `true`, `yes` or `on` (trimmed, either case)
/// turn it on; any other value turns it off; an unset variable keeps the
/// default.
pub open spec fn env_flag_spec(raw: Option<Seq<char>>, default: bool) -> bool {
    match raw {
        None => default,
        Some(v) => {
            let t = ascii_lower(trim(v));
            t == "1"@ || t == "true"@ || t == "yes"@ || t == "on"@
        },
    }
}

pub fn env_flag(raw: Option<&str>, default: bool) -> (r: bool)
    ensures
        r == env_flag_spec(
            match raw {
                Some(v) => Some(v@),
                None => None,
            },
            default,
        ),
{
    match raw {
        None => default,
        Some(v) => {
            let t = to_ascii_lower(trim_chars(chars_of(v).as_slice()).as_slice());
            let t = t.as_slice();
            eq_lit(t, "1") || eq_lit(t, "true") || eq_lit(t, "yes") || eq_lit(t, "on")
        },
    }
}

/// `s` without its trailing `c` characters.
pub open spec fn trim_end_char(s: Seq<char>, c: char) -> Seq<char>
    decreases s.len(),
{
    if s.len() > 0 && s.last() == c {
        trim_end_char(s.drop_last(), c)
    } else {
        s
    }
}

/// `str::trim_matches(c)`.
pub open spec fn trim_both_char(s: Seq<char>, c: char) -> Seq<char> {
    trim_end_char(trim_start_char(s, c), c)
}

fn trim_both_char_exec(s: &[char], c: char) -> (r: Vec<char>)
    ensures
        r@ == trim_both_char(s@, c),
{
    let mut i: usize = 0;
    proof {
        assert(s@.skip(0) =~= s@);
    }
    while i < s.len() && s[i] == c
        invariant
            i <= s.len(),
            trim_start_char(s@, c) == trim_start_char(s@.skip(i as int), c),
        decreases s.len() - i,
    {
        proof {
            assert(s@.skip(i as int).drop_first() =~= s@.skip(i + 1));
        }
        i = i + 1;
    }
    let ghost t = s@.skip(i as int);
    proof {
        if i < s.len() {
            assert(t[0] == s@[i as int]);
        }
        assert(trim_start_char(t, c) == t);
    }
    let mut j: usize = s.len();
    proof {
        assert(t.take(j - i) =~= t);
    }
    while j > i && s[j - 1] == c
        invariant
            i <= j <= s.len(),
            t == s@.skip(i as int),
            trim_end_char(t, c) == trim_end_char(t.take(j - i), c),
        decreases j,
    {
        proof {
            assert(t.take(j - i).drop_last() =~= t.take(j - i - 1));
            assert(t.take(j - i).last() == s@[j - 1]);
        }
        j = j - 1;
    }
    proof {
        let u = t.take(j - i);
        if j > i {
            assert(u.last() == s@[j - 1]);
        }
        assert(trim_end_char(u, c) == u);
        assert(u =~= s@.subrange(i as int, j as int));
    }
    crate::text::slice_chars(s, i, j)
}

/// A secret from the environment: trimmed, then stripped of surrounding
/// double and single quotes; absent when nothing is left.
pub open spec fn clean_secret_spec(raw: Option<Seq<char>>) -> Option<Seq<char>> {
    match raw {
        None => None,
        Some(v) => {
            let t = trim_both_char(trim_both_char(trim(v), '"'), '\'');
            if t.len() > 0 {
                Some(t)
            } else {
                None
            }
        },
    }
}

pub fn admin_env_trim(raw: Option<&str>) -> (r: Option<String>)
    ensures
        match r {
            Some(s) => clean_secret_spec(
                match raw {
                    Some(v) => Some(v@),
                    None => None,
                },
            ) == Some(s@),
            None => clean_secret_spec(
                match raw {
                    Some(v) => Some(v@),
                    None => None,
                },
            ) is None,
        },
{
    match raw {
        None => None,
        Some(v) => {
            let t = trim_chars(chars_of(v).as_slice());
            let t = trim_both_char_exec(t.as_slice(), '"');
            let t = trim_both_char_exec(t.as_slice(), '\'');
            if t.len() > 0 {
                Some(string_of(t.as_slice()))
            } else {
                None
            }
        },
    }
}

pub open spec fn opt_view(raw: Option<&str>) -> Option<Seq<char>> {
    match raw {
        Some(v) => Some(v@),
        None => None,
    }
}

/// Whether an administrator password is configured, as a hash or in plain.
pub fn admin_password_configured(hash_env: Option<&str>, plain_env: Option<&str>) -> (r: bool)
    ensures
        r == (clean_secret_spec(opt_view(hash_env)) is Some || clean_secret_spec(opt_view(plain_env)) is Some),
{
    admin_env_trim(hash_env).is_some() || admin_env_trim(plain_env).is_some()
}

/// The same question, as the rest of the server asks it.
pub fn admin_password_is_configured(hash_env: Option<&str>, plain_env: Option<&str>) -> (r: bool)
    ensures
        r == (clean_secret_spec(opt_view(hash_env)) is Some || clean_secret_spec(opt_view(plain_env)) is Some),
{
    admin_password_configured(hash_env, plain_env)
}

/// The panel is on when its flag is set or a password is configured.
pub fn admin_enabled(flag_env: Option<&str>, hash_env: Option<&str>, plain_env: Option<&str>) -> (r: bool)
    ensures
        r == (env_flag_spec(opt_view(flag_env), false) || clean_secret_spec(opt_view(hash_env)) is Some
            || clean_secret_spec(opt_view(plain_env)) is Some),
{
    env_flag(flag_env, false) || admin_password_configured(hash_env, plain_env)
}

// ---------------------------------------------------------------------------
// Sign-in
// ---------------------------------------------------------------------------

/// Compares two secrets byte for byte, touching every byte whatever the
/// result.
pub fn constant_time_eq(a: &str, b: &str) -> (r: bool)
    ensures
        r == (a@ == b@),
{
    let ab = a.as_bytes();
    let bb = b.as_bytes();
    proof {
        vstd::utf8::encode_utf8_decode_utf8(a@);
        vstd::utf8::encode_utf8_decode_utf8(b@);
    }
    if ab.len() != bb.len() {
        return false;
    }
    let mut acc: u8 = 0;
    let mut i: usize = 0;
    while i < ab.len()
        invariant
            i <= ab.len() == bb.len(),
            (acc == 0) == (forall|k: int| 0 <= k < i ==> ab@[k] == bb@[k]),
        decreases ab.len() - i,
    {
        let x = ab[i];
        let y = bb[i];
        let next = acc | (x ^ y);
        assert(next == 0 <==> (acc == 0 && x == y)) by (bit_vector)
            requires
                next == acc | (x ^ y),
        ;
        acc = next;
        i = i + 1;
    }
    proof {
        if acc == 0 {
            assert(ab@ =~= bb@);
        }
    }
    acc == 0
}

/// The session cookie: eight hours, HTTP only; cross-site (`SameSite=None`)
/// and `Secure` only over a secure connection.
pub open spec fn session_cookie_spec(sid: Seq<char>, secure: bool) -> Seq<char> {
    "lb_admin_sid="@ + sid + "; Path=/; Max-Age=28800; HttpOnly; SameSite="@ + (if secure {
        "None"@
    } else {
        "Lax"@
    }) + (if secure {
        "; Secure"@
    } else {
        seq![]
    })
}

pub fn cookie_for_session(sid: &str, secure: bool) -> (r: String)
    ensures
        r@ == session_cookie_spec(sid@, secure),
{
    let mut c = chars_of("lb_admin_sid=");
    push_all(&mut c, chars_of(sid).as_slice());
    push_lit(&mut c, "; Path=/; Max-Age=28800; HttpOnly; SameSite=");
    if secure {
        push_lit(&mut c, "None");
        push_lit(&mut c, "; Secure");
    } else {
        push_lit(&mut c, "Lax");
        proof {
            assert(c@ =~= c@ + Seq::<char>::empty());
        }
    }
    string_of(c.as_slice())
}

/// The cookie that ends the session.
pub open spec fn clear_cookie_spec(secure: bool) -> Seq<char> {
    "lb_admin_sid=deleted; Path=/; Max-Age=0; HttpOnly; SameSite="@ + (if secure {
        "None"@
    } else {
        "Lax"@
    }) + (if secure {
        "; Secure"@
    } else {
        seq![]
    })
}

pub fn cookie_clear(secure: bool) -> (r: String)
    ensures
        r@ == clear_cookie_spec(secure),
{
    let mut c = chars_of("lb_admin_sid=deleted; Path=/; Max-Age=0; HttpOnly; SameSite=");
    if secure {
        push_lit(&mut c, "None");
        push_lit(&mut c, "; Secure");
    } else {
        push_lit(&mut c, "Lax");
        proof {
            assert(c@ =~= c@ + Seq::<char>::empty());
        }
    }
    string_of(c.as_slice())
}

/// Whether a session is still valid at `now` (seconds).
pub fn session_alive(expires_at: i64, now: i64) -> (r: bool)
    ensures
        r == (expires_at >= now),
{
    expires_at >= now
}

/// Where to return after an action: the given path, trimmed, when it stays
/// within the panel and is a single line; the fallback otherwise.
pub open spec fn return_to_spec(input: Seq<char>, fallback: Seq<char>) -> Seq<char> {
    let s = trim(input);
    if starts_with(s, "/admin/"@) && !contains(s, "\n"@) && !contains(s, "\r"@) {
        s
    } else {
        fallback
    }
}

pub fn safe_admin_return_to(input: &str, fallback: &str) -> (r: String)
    ensures
        r@ == return_to_spec(input@, fallback@),
{
    let s = trim_chars(chars_of(input).as_slice());
    if starts_with_lit(s.as_slice(), "/admin/") && !contains_lit(s.as_slice(), "\n") && !contains_lit(
        s.as_slice(),
        "\r",
    ) {
        string_of(s.as_slice())
    } else {
        String::from_str(fallback)
    }
}

/// A return path always stays within the panel unless it is the fallback.
pub proof fn law_return_to_stays_in_panel(input: Seq<char>, fallback: Seq<char>)
    ensures
        return_to_spec(input, fallback) == fallback || starts_with(
            return_to_spec(input, fallback),
            "/admin/"@,
        ),
{
}


// ---------------------------------------------------------------------------
// Password, session and cookies
// ---------------------------------------------------------------------------

/// What `argon2` answers for a password against a stored PHC hash string:
/// `None` when the string is not a valid hash, else whether it matches.
pub uninterp spec fn argon2_verdict(password: Seq<char>, hash: Seq<char>) -> Option<bool>;

/// `PasswordHash::new(hash)` and, when it parses, `Argon2::default()`'s
/// `verify_password` of the password's bytes against it. The verdict is left
/// to the name `argon2_verdict`.
#[verifier::external_body]
fn argon2_check(password: &str, hash: &str) -> (r: Option<bool>)
    ensures
        r == argon2_verdict(password@, hash@),
{
    match argon2::PasswordHash::new(hash) {
        Ok(parsed) => Some(
            argon2::PasswordVerifier::verify_password(
                &argon2::Argon2::default(),
                password.as_bytes(),
                &parsed,
            ).is_ok(),
        ),
        Err(_) => None,
    }
}

/// Why an administrator password is refused.
#[derive(PartialEq, Eq, Structural, Clone, Copy, Debug)]
pub enum AdminPasswordError {
    /// It does not match.
    Wrong,
    /// The configured hash is not a valid hash string.
    InvalidHash,
    /// No password is configured.
    NotConfigured,
}

/// Checks an administrator password: against the plain password when one is
/// configured, else against the configured hash.
pub open spec fn admin_password_spec(pw: Seq<char>, plain: Option<Seq<char>>, hash: Option<Seq<char>>) -> Result<(), AdminPasswordError> {
    match clean_secret_spec(plain) {
        Some(p) => if pw == p {
            Ok(())
        } else {
            Err(AdminPasswordError::Wrong)
        },
        None => match clean_secret_spec(hash) {
            Some(h) => match argon2_verdict(pw, h) {
                None => Err(AdminPasswordError::InvalidHash),
                Some(true) => Ok(()),
                Some(false) => Err(AdminPasswordError::Wrong),
            },
            None => Err(AdminPasswordError::NotConfigured),
        },
    }
}

pub fn verify_admin_password(pw: &str, plain_env: Option<&str>, hash_env: Option<&str>) -> (r: Result<(), AdminPasswordError>)
    ensures
        r == admin_password_spec(pw@, opt_view(plain_env), opt_view(hash_env)),
{
    if let Some(plain) = admin_env_trim(plain_env) {
        if constant_time_eq(pw, plain.as_str()) {
            return Ok(());
        }
        return Err(AdminPasswordError::Wrong);
    }
    if let Some(hash) = admin_env_trim(hash_env) {
        return match argon2_check(pw, hash.as_str()) {
            None => Err(AdminPasswordError::InvalidHash),
            Some(true) => Ok(()),
            Some(false) => Err(AdminPasswordError::Wrong),
        };
    }
    Err(AdminPasswordError::NotConfigured)
}

/// The URL-safe Base64 alphabet.
pub open spec fn b64_char(v: int) -> char {
    if v < 26 {
        ((65 + v) as u32) as char
    } else if v < 52 {
        ((71 + v) as u32) as char
    } else if v < 62 {
        ((v - 4) as u32) as char
    } else if v == 62 {
        '-'
    } else {
        '_'
    }
}

/// URL-safe Base64 without padding (RFC 4648, section 5).
pub open spec fn b64_url_nopad(b: Seq<u8>) -> Seq<char>
    decreases b.len(),
{
    if b.len() == 0 {
        seq![]
    } else if b.len() == 1 {
        seq![b64_char((b[0] / 4) as int), b64_char((b[0] % 4) * 16)]
    } else if b.len() == 2 {
        seq![b64_char((b[0] / 4) as int), b64_char((b[0] % 4) * 16 + b[1] / 16), b64_char((b[1] % 16) * 4)]
    } else {
        seq![
            b64_char((b[0] / 4) as int),
            b64_char((b[0] % 4) * 16 + b[1] / 16),
            b64_char((b[1] % 16) * 4 + b[2] / 64),
            b64_char((b[2] % 64) as int),
        ] + b64_url_nopad(b.skip(3))
    }
}

/// `URL_SAFE_NO_PAD.encode(bytes)` of the `base64` crate.
#[verifier::external_body]
fn base64_url_nopad(bytes: &[u8]) -> (r: String)
    ensures
        r@ == b64_url_nopad(bytes@),
{
    base64::Engine::encode(&base64::engine::general_purpose::URL_SAFE_NO_PAD, bytes)
}

/// `n` bytes from `rand::rng()`. Nothing is stated of the bytes but their
/// number.
#[verifier::external_body]
fn random_bytes(n: usize) -> (r: Vec<u8>)
    ensures
        r@.len() == n,
{
    let mut buf = vec![0u8; n];
    rand::RngCore::fill_bytes(&mut rand::rng(), &mut buf);
    buf
}

/// Seconds an administrator session lasts.
pub const ADMIN_SESSION_SECS: i64 = 28800;

/// A session made from its random bytes: the id and the CSRF token are their
/// URL-safe Base64 text; it lasts eight hours from `now`.
pub fn admin_session_from(sid_bytes: &[u8], csrf_bytes: &[u8], now: i64) -> (r: (String, AdminSession))
    requires
        now <= i64::MAX - ADMIN_SESSION_SECS,
    ensures
        r.0@ == b64_url_nopad(sid_bytes@),
        r.1.csrf@ == b64_url_nopad(csrf_bytes@),
        r.1.expires_at == now + ADMIN_SESSION_SECS,
{
    let sid = base64_url_nopad(sid_bytes);
    let csrf = base64_url_nopad(csrf_bytes);
    (sid, AdminSession { expires_at: now + ADMIN_SESSION_SECS, csrf })
}

/// A new session: 32 random bytes for its id and 16 for its CSRF token.
pub fn new_admin_session(now: i64) -> (r: (String, AdminSession))
    requires
        now <= i64::MAX - ADMIN_SESSION_SECS,
    ensures
        exists|sid: Seq<u8>, csrf: Seq<u8>|
            sid.len() == 32 && csrf.len() == 16 && r.0@ == b64_url_nopad(sid) && r.1.csrf@
                == b64_url_nopad(csrf),
        r.1.expires_at == now + ADMIN_SESSION_SECS,
{
    let sid_bytes = random_bytes(32);
    let csrf_bytes = random_bytes(16);
    admin_session_from(sid_bytes.as_slice(), csrf_bytes.as_slice(), now)
}

/// The pieces of a text split at each `c` (`str::split`).
pub open spec fn split_pieces(s: Seq<char>, c: char) -> Seq<Seq<char>>
    decreases s.len(),
{
    if has_char(s, c) {
        proof {
            crate::text::lemma_first_at_exists(s, c);
        }
        seq![crate::text::before_char(s, c)] + split_pieces(crate::text::after_char(s, c), c)
    } else {
        seq![s]
    }
}

/// The value of the first cookie named `name` in a `Cookie` header, both
/// sides trimmed.
pub open spec fn cookie_in(pieces: Seq<Seq<char>>, name: Seq<char>) -> Option<Seq<char>>
    decreases pieces.len(),
{
    if pieces.len() == 0 {
        None
    } else {
        let p = trim(pieces[0]);
        if has_char(p, '=') && trim(crate::text::before_char(p, '=')) == name {
            Some(trim(crate::text::after_char(p, '=')))
        } else {
            cookie_in(pieces.drop_first(), name)
        }
    }
}

pub fn cookie_value(header: &str, name: &str) -> (r: Option<String>)
    ensures
        match r {
            Some(v) => cookie_in(split_pieces(header@, ';'), name@) == Some(v@),
            None => cookie_in(split_pieces(header@, ';'), name@) is None,
        },
{
    let all = chars_of(header);
    let mut rest = copy_chars(all.as_slice());
    let n = chars_of(name);
    loop
        invariant
            cookie_in(split_pieces(all@, ';'), name@) == cookie_in(split_pieces(rest@, ';'), name@),
            all@ == header@,
            n@ == name@,
        decreases rest@.len(),
    {
        let ghost r0 = rest@;
        let (piece, next, more) = match crate::text::split_once_char(rest.as_slice(), ';') {
            Some((a, b)) => (a, b, true),
            None => (copy_chars(rest.as_slice()), Vec::new(), false),
        };
        proof {
            let ps = split_pieces(r0, ';');
            if more {
                assert(ps == seq![piece@] + split_pieces(next@, ';'));
                assert(ps[0] == piece@);
                assert(ps.drop_first() =~= split_pieces(next@, ';'));
            } else {
                assert(ps == seq![r0]);
                assert(ps[0] == piece@);
                assert(ps.drop_first() =~= Seq::<Seq<char>>::empty());
            }
        }
        let p = trim_chars(piece.as_slice());
        if let Some((k, v)) = crate::text::split_once_char(p.as_slice(), '=') {
            let kt = trim_chars(k.as_slice());
            if crate::text::chars_eq(kt.as_slice(), n.as_slice()) {
                proof {
                    let ps = split_pieces(r0, ';');
                    assert(trim(ps[0]) == p@);
                    assert(cookie_in(ps, name@) == Some(trim(v@)));
                }
                return Some(string_of(trim_chars(v.as_slice()).as_slice()));
            }
        }
        if !more {
            proof {
                let ps = split_pieces(r0, ';');
                assert(cookie_in(ps.drop_first(), name@) is None);
                assert(cookie_in(ps, name@) is None);
            }
            return None;
        }
        proof {
            crate::text::lemma_first_at_exists(r0, ';');
        }
        rest = next;
    }
}

/// Whether the session cookie is marked secure: an explicit opt-out wins,
/// then an explicit opt-in; local hosts are never secure; otherwise it
/// follows the forwarded protocol.
pub open spec fn cookie_secure_spec(insecure_flag: bool, secure_flag: bool, host: Option<Seq<char>>, forwarded_proto: Option<Seq<char>>) -> bool {
    if insecure_flag {
        false
    } else if secure_flag {
        true
    } else if host matches Some(h) && (starts_with(ascii_lower(h), "127.0.0.1"@) || starts_with(
        ascii_lower(h),
        "localhost"@,
    )) {
        false
    } else {
        match forwarded_proto {
            Some(p) => ascii_lower(p) == "https"@,
            None => false,
        }
    }
}

pub fn admin_cookie_secure(insecure_flag: bool, secure_flag: bool, host: Option<&str>, forwarded_proto: Option<&str>) -> (r: bool)
    ensures
        r == cookie_secure_spec(insecure_flag, secure_flag, opt_view(host), opt_view(forwarded_proto)),
{
    if insecure_flag {
        return false;
    }
    if secure_flag {
        return true;
    }
    if let Some(h) = host {
        let hl = to_ascii_lower(chars_of(h).as_slice());
        if starts_with_lit(hl.as_slice(), "127.0.0.1") || starts_with_lit(hl.as_slice(), "localhost") {
            return false;
        }
    }
    match forwarded_proto {
        Some(p) => eq_lit(to_ascii_lower(chars_of(p).as_slice()).as_slice(), "https"),
        None => false,
    }
}

// ---------------------------------------------------------------------------
// Labels and normalisers
// ---------------------------------------------------------------------------

/// The user list's filter: `active`, `banned`, `review` or `all` (also for
/// anything else).
pub open spec fn user_mode_spec(input: Option<Seq<char>>) -> Seq<char> {
    let m = ascii_lower(
        trim(
            match input {
                Some(v) => v,
                None => "all"@,
            },
        ),
    );
    if m == "active"@ {
        "active"@
    } else if m == "banned"@ {
        "banned"@
    } else if m == "review"@ {
        "review"@
    } else {
        "all"@
    }
}

pub fn normalized_user_mode(input: Option<&str>) -> (r: &'static str)
    ensures
        r@ == user_mode_spec(opt_view(input)),
{
    let raw = match input {
        Some(v) => chars_of(v),
        None => chars_of("all"),
    };
    let m = to_ascii_lower(trim_chars(raw.as_slice()).as_slice());
    let m = m.as_slice();
    if eq_lit(m, "active") {
        "active"
    } else if eq_lit(m, "banned") {
        "banned"
    } else if eq_lit(m, "review") {
        "review"
    } else {
        "all"
    }
}

/// A user needs a trust review when flagged for one or scored below 60.
pub open spec fn needs_review(trust_review_status: Seq<char>, trust_factor: i64) -> bool {
    trust_review_status == "review"@ || trust_factor < 60
}

pub open spec fn user_mode_matches_spec(is_banned: bool, review_status: Seq<char>, trust_factor: i64, mode: Seq<char>) -> bool {
    if mode == "active"@ {
        !is_banned
    } else if mode == "banned"@ {
        is_banned
    } else if mode == "review"@ {
        needs_review(review_status, trust_factor)
    } else {
        true
    }
}

pub fn user_mode_matches(user: &UserRow, mode: &str) -> (r: bool)
    ensures
        r == user_mode_matches_spec(user.is_banned, user.trust_review_status@, user.trust_factor, mode@),
{
    let m = chars_of(mode);
    let m = m.as_slice();
    if eq_lit(m, "active") {
        !user.is_banned
    } else if eq_lit(m, "banned") {
        user.is_banned
    } else if eq_lit(m, "review") {
        eq_lit(chars_of(user.trust_review_status.as_str()).as_slice(), "review")
            || user.trust_factor < 60
    } else {
        true
    }
}

pub open spec fn reason_label_spec(reason: Seq<char>) -> Seq<char> {
    if reason == "spam"@ {
        "Спам"@
    } else if reason == "abuse"@ {
        "Оскорбления"@
    } else if reason == "avatar"@ {
        "Аватар"@
    } else if reason == "username"@ {
        "Ник"@
    } else if reason == "ads"@ {
        "Реклама"@
    } else if reason == "scam"@ {
        "Скам"@
    } else {
        "Другое"@
    }
}

pub fn reason_label(reason: &str) -> (r: &'static str)
    ensures
        r@ == reason_label_spec(reason@),
{
    let s = chars_of(reason);
    let s = s.as_slice();
    if eq_lit(s, "spam") {
        "Спам"
    } else if eq_lit(s, "abuse") {
        "Оскорбления"
    } else if eq_lit(s, "avatar") {
        "Аватар"
    } else if eq_lit(s, "username") {
        "Ник"
    } else if eq_lit(s, "ads") {
        "Реклама"
    } else if eq_lit(s, "scam") {
        "Скам"
    } else {
        "Другое"
    }
}

pub open spec fn report_status_label_spec(status: Seq<char>) -> Seq<char> {
    if status == "reviewed"@ {
        "Просмотрено"@
    } else if status == "rejected"@ {
        "Отклонено"@
    } else {
        "Новая"@
    }
}

pub fn report_status_label(status: &str) -> (r: &'static str)
    ensures
        r@ == report_status_label_spec(status@),
{
    let s = chars_of(status);
    if eq_lit(s.as_slice(), "reviewed") {
        "Просмотрено"
    } else if eq_lit(s.as_slice(), "rejected") {
        "Отклонено"
    } else {
        "Новая"
    }
}

pub open spec fn cookie_consent_label_spec(status: Seq<char>) -> Seq<char> {
    if status == "accepted"@ {
        "Принято"@
    } else if status == "declined"@ {
        "Отказ"@
    } else {
        "Не выбрано"@
    }
}

pub fn cookie_consent_label(status: &str) -> (r: &'static str)
    ensures
        r@ == cookie_consent_label_spec(status@),
{
    let s = chars_of(status);
    if eq_lit(s.as_slice(), "accepted") {
        "Принято"
    } else if eq_lit(s.as_slice(), "declined") {
        "Отказ"
    } else {
        "Не выбрано"
    }
}

pub open spec fn trust_review_label_spec(status: Seq<char>) -> Seq<char> {
    if status == "review"@ {
        "На проверке"@
    } else {
        "Чисто"@
    }
}

pub fn trust_review_label(status: &str) -> (r: &'static str)
    ensures
        r@ == trust_review_label_spec(status@),
{
    if eq_lit(chars_of(status).as_slice(), "review") {
        "На проверке"
    } else {
        "Чисто"
    }
}

/// The suggestion list's filter: `all`, `reviewed`, `rejected` or `open`
/// (also for anything else).
pub open spec fn suggestion_status_spec(input: Option<Seq<char>>) -> Seq<char> {
    let m = ascii_lower(
        trim(
            match input {
                Some(v) => v,
                None => "open"@,
            },
        ),
    );
    if m == "all"@ {
        "all"@
    } else if m == "reviewed"@ {
        "reviewed"@
    } else if m == "rejected"@ {
        "rejected"@
    } else {
        "open"@
    }
}

pub fn normalized_suggestion_status(input: Option<&str>) -> (r: &'static str)
    ensures
        r@ == suggestion_status_spec(opt_view(input)),
{
    let raw = match input {
        Some(v) => chars_of(v),
        None => chars_of("open"),
    };
    let m = to_ascii_lower(trim_chars(raw.as_slice()).as_slice());
    let m = m.as_slice();
    if eq_lit(m, "all") {
        "all"
    } else if eq_lit(m, "reviewed") {
        "reviewed"
    } else if eq_lit(m, "rejected") {
        "rejected"
    } else {
        "open"
    }
}

pub open spec fn suggestion_status_label_spec(status: Seq<char>) -> Seq<char> {
    if status == "reviewed"@ {
        "Просмотрено"@
    } else if status == "rejected"@ {
        "Отклонено"@
    } else {
        "Новое"@
    }
}

pub fn suggestion_status_label(status: &str) -> (r: &'static str)
    ensures
        r@ == suggestion_status_label_spec(status@),
{
    let s = chars_of(status);
    if eq_lit(s.as_slice(), "reviewed") {
        "Просмотрено"
    } else if eq_lit(s.as_slice(), "rejected") {
        "Отклонено"
    } else {
        "Новое"
    }
}

pub open spec fn suggestion_status_class_spec(status: Seq<char>) -> Seq<char> {
    if status == "reviewed"@ || status == "rejected"@ {
        "done"@
    } else {
        "open"@
    }
}

pub fn suggestion_status_class(status: &str) -> (r: &'static str)
    ensures
        r@ == suggestion_status_class_spec(status@),
{
    let s = chars_of(status);
    if eq_lit(s.as_slice(), "reviewed") || eq_lit(s.as_slice(), "rejected") {
        "done"
    } else {
        "open"
    }
}

/// A moderation reason as recorded: trimmed, at most 180 characters, with a
/// stock text when empty.
pub open spec fn clean_reason_spec(raw: Seq<char>) -> Seq<char> {
    let t = take_chars(trim(raw), 180);
    if t.len() == 0 {
        "Без указанной причины"@
    } else {
        t
    }
}

pub fn clean_admin_reason(raw: &str) -> (r: String)
    ensures
        r@ == clean_reason_spec(raw@),
{
    let t = take_prefix(trim_chars(chars_of(raw).as_slice()).as_slice(), 180);
    if t.len() == 0 {
        String::from_str("Без указанной причины")
    } else {
        string_of(t.as_slice())
    }
}

/// The status a report or suggestion is set to: `open`, `reviewed` or
/// `rejected` as asked (trimmed); anything else counts as `reviewed`.
pub open spec fn moderation_status_spec(raw: Seq<char>) -> Seq<char> {
    let t = trim(raw);
    if t == "open"@ {
        "open"@
    } else if t == "rejected"@ {
        "rejected"@
    } else {
        "reviewed"@
    }
}

pub fn moderation_status(raw: &str) -> (r: &'static str)
    ensures
        r@ == moderation_status_spec(raw@),
{
    let t = trim_chars(chars_of(raw).as_slice());
    if eq_lit(t.as_slice(), "open") {
        "open"
    } else if eq_lit(t.as_slice(), "rejected") {
        "rejected"
    } else {
        "reviewed"
    }
}

/// An administrator's note on a suggestion: trimmed, at most 800 characters.
pub fn clean_admin_note(raw: &str) -> (r: String)
    ensures
        r@ == take_chars(trim(raw@), 800),
{
    let t = trim_chars(chars_of(raw).as_slice());
    string_of(take_prefix(t.as_slice(), 800).as_slice())
}

/// File names in the panel are sanitised as downloads are.
pub fn admin_sanitize_filename(input: &str) -> (r: String)
    ensures
        r@ == sanitize_filename_spec(input@),
{
    sanitize_filename(input)
}

/// Where the PNG thumbnail of a stored file lives.
pub fn admin_thumb_path_for(stored_filename: &str) -> (r: String)
    ensures
        r@ == path_join(thumbs_dir(), thumb_stem(stored_filename@) + ".png"@),
{
    thumb_path_for(stored_filename)
}

// ---------------------------------------------------------------------------
// Client downloads
// ---------------------------------------------------------------------------

pub fn admin_download_platform(raw: &str) -> (r: Option<&'static str>)
    ensures
        match r {
            Some(p) => crate::downloads::normalize_platform_spec(raw@) == Some(p@),
            None => crate::downloads::normalize_platform_spec(raw@) is None,
        },
{
    crate::downloads::normalize_platform(raw)
}

pub open spec fn download_platform_label_spec(platform: Seq<char>) -> Seq<char> {
    if platform == "android"@ {
        "Android APK"@
    } else if platform == "pc"@ {
        "ПК клиент"@
    } else {
        "Клиент"@
    }
}

pub fn admin_download_platform_label(platform: &str) -> (r: &'static str)
    ensures
        r@ == download_platform_label_spec(platform@),
{
    let p = chars_of(platform);
    if eq_lit(p.as_slice(), "android") {
        "Android APK"
    } else if eq_lit(p.as_slice(), "pc") {
        "ПК клиент"
    } else {
        "Клиент"
    }
}

/// The extension an uploaded client build is stored with, when it suits the
/// platform: `apk` for Android; `exe`, `msi`, `zip`, `7z` or `rar` for PC.
pub open spec fn download_ext_spec(original_name: Seq<char>, platform: Seq<char>) -> Option<Seq<char>> {
    let ext = ascii_lower(
        trim(
            match path_extension(sanitize_filename_spec(original_name)) {
                Some(e) => e,
                None => seq![],
            },
        ),
    );
    if platform == "android"@ && ext == "apk"@ {
        Some(ext)
    } else if platform == "pc"@ && (ext == "exe"@ || ext == "msi"@ || ext == "zip"@ || ext
        == "7z"@ || ext == "rar"@) {
        Some(ext)
    } else {
        None
    }
}

pub fn admin_download_ext(original_name: &str, platform: &str) -> (r: Option<String>)
    ensures
        match r {
            Some(e) => download_ext_spec(original_name@, platform@) == Some(e@),
            None => download_ext_spec(original_name@, platform@) is None,
        },
{
    let sanitized = admin_sanitize_filename(original_name);
    let raw = match path_extension_exec(chars_of(sanitized.as_str()).as_slice()) {
        Some(e) => e,
        None => Vec::new(),
    };
    let ext = to_ascii_lower(trim_chars(raw.as_slice()).as_slice());
    let e = ext.as_slice();
    let p = chars_of(platform);
    if eq_lit(p.as_slice(), "android") && eq_lit(e, "apk") {
        Some(string_of(e))
    } else if eq_lit(p.as_slice(), "pc") && (eq_lit(e, "exe") || eq_lit(e, "msi") || eq_lit(e, "zip")
        || eq_lit(e, "7z") || eq_lit(e, "rar")) {
        Some(string_of(e))
    } else {
        None
    }
}

pub open spec fn download_mime_spec(ext: Seq<char>) -> Seq<char> {
    if ext == "apk"@ {
        "application/vnd.android.package-archive"@
    } else if ext == "exe"@ {
        "application/vnd.microsoft.portable-executable"@
    } else if ext == "msi"@ {
        "application/x-msi"@
    } else if ext == "zip"@ {
        "application/zip"@
    } else if ext == "7z"@ {
        "application/x-7z-compressed"@
    } else if ext == "rar"@ {
        "application/vnd.rar"@
    } else {
        "application/octet-stream"@
    }
}

pub fn admin_download_mime(ext: &str) -> (r: &'static str)
    ensures
        r@ == download_mime_spec(ext@),
{
    let e = chars_of(ext);
    let e = e.as_slice();
    if eq_lit(e, "apk") {
        "application/vnd.android.package-archive"
    } else if eq_lit(e, "exe") {
        "application/vnd.microsoft.portable-executable"
    } else if eq_lit(e, "msi") {
        "application/x-msi"
    } else if eq_lit(e, "zip") {
        "application/zip"
    } else if eq_lit(e, "7z") {
        "application/x-7z-compressed"
    } else if eq_lit(e, "rar") {
        "application/vnd.rar"
    } else {
        "application/octet-stream"
    }
}

/// The largest client build the panel accepts.
pub const MAX_DOWNLOAD_BYTES: usize = 536870912;

/// The version label of an uploaded build: trimmed, at most 64 characters.
pub fn clean_download_version(raw: &str) -> (r: String)
    ensures
        r@ == take_chars(trim(raw@), 64),
{
    let t = trim_chars(chars_of(raw).as_slice());
    string_of(take_prefix(t.as_slice(), 64).as_slice())
}

/// Why an uploaded client build is refused.
#[derive(PartialEq, Eq, Structural, Clone, Copy, Debug)]
pub enum DownloadUploadError {
    CsrfMismatch,
    UnknownPlatform,
    NoFile,
    EmptyFile,
    TooLarge,
    /// The file's extension does not suit the platform.
    BadExtension,
}

/// The checks of an uploaded client build, in the order they are made; on
/// success, its platform and file extension.
pub open spec fn download_upload_spec(
    csrf: Seq<char>,
    session_csrf: Seq<char>,
    platform_raw: Seq<char>,
    file_len: Option<usize>,
    original_name: Seq<char>,
) -> Result<(Seq<char>, Seq<char>), DownloadUploadError> {
    if csrf != session_csrf {
        Err(DownloadUploadError::CsrfMismatch)
    } else {
        match crate::downloads::normalize_platform_spec(platform_raw) {
            None => Err(DownloadUploadError::UnknownPlatform),
            Some(p) => match file_len {
                None => Err(DownloadUploadError::NoFile),
                Some(n) => if n == 0 {
                    Err(DownloadUploadError::EmptyFile)
                } else if n > MAX_DOWNLOAD_BYTES {
                    Err(DownloadUploadError::TooLarge)
                } else {
                    match download_ext_spec(original_name, p) {
                        None => Err(DownloadUploadError::BadExtension),
                        Some(e) => Ok((p, e)),
                    }
                },
            },
        }
    }
}

pub fn download_upload_check(
    csrf: &str,
    session_csrf: &str,
    platform_raw: &str,
    file_len: Option<usize>,
    original_name: &str,
) -> (r: Result<(&'static str, String), DownloadUploadError>)
    ensures
        match r {
            Ok((p, e)) => download_upload_spec(csrf@, session_csrf@, platform_raw@, file_len, original_name@)
                == Ok::<(Seq<char>, Seq<char>), DownloadUploadError>((p@, e@)),
            Err(err) => download_upload_spec(csrf@, session_csrf@, platform_raw@, file_len, original_name@)
                == Err::<(Seq<char>, Seq<char>), DownloadUploadError>(err),
        },
{
    if !crate::text::chars_eq(chars_of(csrf).as_slice(), chars_of(session_csrf).as_slice()) {
        return Err(DownloadUploadError::CsrfMismatch);
    }
    let platform = match admin_download_platform(platform_raw) {
        Some(p) => p,
        None => {
            return Err(DownloadUploadError::UnknownPlatform);
        },
    };
    let n = match file_len {
        Some(n) => n,
        None => {
            return Err(DownloadUploadError::NoFile);
        },
    };
    if n == 0 {
        return Err(DownloadUploadError::EmptyFile);
    }
    if n > MAX_DOWNLOAD_BYTES {
        return Err(DownloadUploadError::TooLarge);
    }
    match admin_download_ext(original_name, platform) {
        Some(e) => Ok((platform, e)),
        None => Err(DownloadUploadError::BadExtension),
    }
}

/// The notice the panel shows for a refused build.
pub fn download_upload_message(e: DownloadUploadError) -> (r: &'static str)
    ensures
        r@ == match e {
            DownloadUploadError::CsrfMismatch => "CSRF-токен не совпадает"@,
            DownloadUploadError::UnknownPlatform => "Неизвестная платформа"@,
            DownloadUploadError::NoFile => "Файл не выбран"@,
            DownloadUploadError::EmptyFile => "Файл пустой"@,
            DownloadUploadError::TooLarge => "Файл слишком большой (максимум 512 МБ)"@,
            DownloadUploadError::BadExtension => "Для Android нужен .apk, для ПК: .exe, .msi, .zip, .7z или .rar"@,
        },
{
    match e {
        DownloadUploadError::CsrfMismatch => "CSRF-токен не совпадает",
        DownloadUploadError::UnknownPlatform => "Неизвестная платформа",
        DownloadUploadError::NoFile => "Файл не выбран",
        DownloadUploadError::EmptyFile => "Файл пустой",
        DownloadUploadError::TooLarge => "Файл слишком большой (максимум 512 МБ)",
        DownloadUploadError::BadExtension => "Для Android нужен .apk, для ПК: .exe, .msi, .zip, .7z или .rar",
    }
}


// ---------------------------------------------------------------------------
// Sizes
// ---------------------------------------------------------------------------

/// `n / d` rounded to the nearest integer, ties to even.
pub open spec fn round_div_even(n: int, d: int) -> int {
    let q = n / d;
    let r = n % d;
    if 2 * r > d || (2 * r == d && q % 2 == 1) {
        q + 1
    } else {
        q
    }
}

fn round_div_even_exec(n: u128, d: u128) -> (r: u128)
    requires
        0 < d <= 0x10000000000,
        n < 0x100000000000000000000,
    ensures
        r as int == round_div_even(n as int, d as int),
{
    let q = n / d;
    let rem = n % d;
    if 2 * rem > d || (2 * rem == d && q % 2 == 1) {
        q + 1
    } else {
        q
    }
}

/// The integer nearest to `n` that a 64-bit float holds (53 significant
/// bits, ties to even), for `0 <= n < 2^63`.
pub open spec fn nearest_double(n: int) -> int {
    if n < 0x20000000000000 {
        n
    } else if n < 0x40000000000000 {
        round_div_even(n, 2) * 2
    } else if n < 0x80000000000000 {
        round_div_even(n, 4) * 4
    } else if n < 0x100000000000000 {
        round_div_even(n, 8) * 8
    } else if n < 0x200000000000000 {
        round_div_even(n, 16) * 16
    } else if n < 0x400000000000000 {
        round_div_even(n, 32) * 32
    } else if n < 0x800000000000000 {
        round_div_even(n, 64) * 64
    } else if n < 0x1000000000000000 {
        round_div_even(n, 128) * 128
    } else if n < 0x2000000000000000 {
        round_div_even(n, 256) * 256
    } else if n < 0x4000000000000000 {
        round_div_even(n, 512) * 512
    } else if n < 0x8000000000000000 {
        round_div_even(n, 1024) * 1024
    } else {
        n
    }
}

fn nearest_double_exec(n: u64) -> (r: u64)
    requires
        n < 0x8000000000000000,
    ensures
        r as int == nearest_double(n as int),
{
    if n < 0x20000000000000 {
        n
    } else if n < 0x40000000000000u64 {
        round_div_even_exec(n as u128, 2) as u64 * 2
    } else if n < 0x80000000000000u64 {
        round_div_even_exec(n as u128, 4) as u64 * 4
    } else if n < 0x100000000000000u64 {
        round_div_even_exec(n as u128, 8) as u64 * 8
    } else if n < 0x200000000000000u64 {
        round_div_even_exec(n as u128, 16) as u64 * 16
    } else if n < 0x400000000000000u64 {
        round_div_even_exec(n as u128, 32) as u64 * 32
    } else if n < 0x800000000000000u64 {
        round_div_even_exec(n as u128, 64) as u64 * 64
    } else if n < 0x1000000000000000u64 {
        round_div_even_exec(n as u128, 128) as u64 * 128
    } else if n < 0x2000000000000000u64 {
        round_div_even_exec(n as u128, 256) as u64 * 256
    } else if n < 0x4000000000000000u64 {
        round_div_even_exec(n as u128, 512) as u64 * 512
    } else if n < 0x8000000000000000u64 {
        round_div_even_exec(n as u128, 1024) as u64 * 1024
    } else {
        n
    }
}

/// The unit a size is shown in: bytes below 1024, then KB, MB, GB.
pub open spec fn size_unit_index(m: int) -> int {
    if m < 1024 {
        0
    } else if m < 1048576 {
        1
    } else if m < 1073741824 {
        2
    } else {
        3
    }
}

pub open spec fn unit_divisor(idx: int) -> int {
    if idx == 1 {
        1024
    } else if idx == 2 {
        1048576
    } else {
        1073741824
    }
}

pub open spec fn unit_name(idx: int) -> Seq<char> {
    if idx == 0 {
        "Б"@
    } else if idx == 1 {
        "КБ"@
    } else if idx == 2 {
        "МБ"@
    } else {
        "ГБ"@
    }
}

/// A size for people: unknown when not positive; whole bytes below 1024;
/// otherwise the size, as a 64-bit float holds it, in the largest unit up to
/// GB it reaches, with one decimal rounded half to even.
pub open spec fn format_bytes_spec(size: i64) -> Seq<char> {
    if size <= 0 {
        "размер неизвестен"@
    } else {
        let m = nearest_double(size as int);
        let idx = size_unit_index(m);
        if idx == 0 {
            nat_text(size as nat) + " "@ + unit_name(0)
        } else {
            let t = round_div_even(m * 10, unit_divisor(idx));
            nat_text((t / 10) as nat) + "."@ + nat_text((t % 10) as nat) + " "@ + unit_name(idx)
        }
    }
}

pub fn admin_format_bytes(size: i64) -> (r: String)
    ensures
        r@ == format_bytes_spec(size),
{
    if size <= 0 {
        return String::from_str("размер неизвестен");
    }
    let m = nearest_double_exec(size as u64);
    let (idx, d, unit): (u32, u128, &str) = if m < 1024 {
        (0, 1, "Б")
    } else if m < 1048576 {
        (1, 1024, "КБ")
    } else if m < 1073741824 {
        (2, 1048576, "МБ")
    } else {
        (3, 1073741824, "ГБ")
    };
    let mut out: Vec<char>;
    if idx == 0 {
        out = u64_text(size as u64);
    } else {
        let t = round_div_even_exec(m as u128 * 10, d);
        let whole = (t / 10) as u64;
        let frac = (t % 10) as u64;
        out = u64_text(whole);
        push_lit(&mut out, ".");
        push_all(&mut out, u64_text(frac).as_slice());
    }
    push_lit(&mut out, " ");
    push_lit(&mut out, unit);
    string_of(out.as_slice())
}


// ---------------------------------------------------------------------------
// Dates, case mapping and form encoding
// ---------------------------------------------------------------------------

/// The text `%Y-%m-%d %H:%M:%S UTC` of a Unix timestamp in seconds, when
/// `chrono` can represent it.
pub uninterp spec fn utc_text_of_unix(ts: i64) -> Option<Seq<char>>;

/// The text `%Y-%m-%d %H:%M:%S UTC` of an RFC 3339 date-time converted to
/// UTC, when the text parses as one.
pub uninterp spec fn utc_text_of_rfc3339(s: Seq<char>) -> Option<Seq<char>>;

/// The text `%Y-%m-%d %H:%M:%S UTC` of a `%Y-%m-%d %H:%M:%S` date-time taken
/// as UTC, when the text parses as one.
pub uninterp spec fn utc_text_of_naive(s: Seq<char>) -> Option<Seq<char>>;

/// `Utc.timestamp_opt(ts, 0).single()` formatted as `%Y-%m-%d %H:%M:%S UTC`.
/// What it yields is left to the name `utc_text_of_unix`.
#[verifier::external_body]
fn format_unix_utc(ts: i64) -> (r: Option<String>)
    ensures
        match r {
            Some(t) => utc_text_of_unix(ts) == Some(t@),
            None => utc_text_of_unix(ts) is None,
        },
{
    chrono::TimeZone::timestamp_opt(&chrono::Utc, ts, 0).single().map(
        |dt| dt.format("%Y-%m-%d %H:%M:%S UTC").to_string(),
    )
}

/// `DateTime::parse_from_rfc3339(s)` converted to UTC and formatted as
/// `%Y-%m-%d %H:%M:%S UTC`. What it yields is left to the name
/// `utc_text_of_rfc3339`.
#[verifier::external_body]
fn format_rfc3339_utc(s: &str) -> (r: Option<String>)
    ensures
        match r {
            Some(t) => utc_text_of_rfc3339(s@) == Some(t@),
            None => utc_text_of_rfc3339(s@) is None,
        },
{
    chrono::DateTime::parse_from_rfc3339(s).ok().map(
        |dt| dt.with_timezone(&chrono::Utc).format("%Y-%m-%d %H:%M:%S UTC").to_string(),
    )
}

/// `NaiveDateTime::parse_from_str(s, "%Y-%m-%d %H:%M:%S")` taken as UTC and
/// formatted as `%Y-%m-%d %H:%M:%S UTC`. What it yields is left to the name
/// `utc_text_of_naive`.
#[verifier::external_body]
fn format_naive_utc(s: &str) -> (r: Option<String>)
    ensures
        match r {
            Some(t) => utc_text_of_naive(s@) == Some(t@),
            None => utc_text_of_naive(s@) is None,
        },
{
    chrono::NaiveDateTime::parse_from_str(s, "%Y-%m-%d %H:%M:%S").ok().map(
        |dt| chrono::DateTime::<chrono::Utc>::from_naive_utc_and_offset(dt, chrono::Utc).format(
            "%Y-%m-%d %H:%M:%S UTC",
        ).to_string(),
    )
}

/// A stored date as the panel shows it: a dash when blank; a Unix timestamp,
/// an RFC 3339 date-time or a plain `%Y-%m-%d %H:%M:%S` one in UTC; else the
/// trimmed text as it is.
pub open spec fn admin_dt_spec(raw: Seq<char>) -> Seq<char> {
    let s = trim(raw);
    if s.len() == 0 {
        "—"@
    } else if parse_i64_spec(s) is Some && utc_text_of_unix(parse_i64_spec(s)->0 as i64) is Some {
        utc_text_of_unix(parse_i64_spec(s)->0 as i64)->0
    } else if utc_text_of_rfc3339(s) is Some {
        utc_text_of_rfc3339(s)->0
    } else if utc_text_of_naive(s) is Some {
        utc_text_of_naive(s)->0
    } else {
        s
    }
}

pub fn fmt_admin_dt(raw: &str) -> (r: String)
    ensures
        r@ == admin_dt_spec(raw@),
{
    let t = trim_chars(chars_of(raw).as_slice());
    if t.len() == 0 {
        return String::from_str("—");
    }
    let s = string_of(t.as_slice());
    if let Some(ts) = parse_i64(t.as_slice()) {
        if let Some(v) = format_unix_utc(ts) {
            return v;
        }
    }
    if let Some(v) = format_rfc3339_utc(s.as_str()) {
        return v;
    }
    if let Some(v) = format_naive_utc(s.as_str()) {
        return v;
    }
    s
}

/// `str::to_lowercase`: the Unicode lower-case mapping of a text.
pub uninterp spec fn unicode_lower(s: Seq<char>) -> Seq<char>;

/// `char::to_uppercase`: the Unicode upper-case mapping of a character.
pub uninterp spec fn unicode_upper(c: char) -> Seq<char>;

/// `str::to_lowercase`. The mapping itself is left to the name
/// `unicode_lower`.
#[verifier::external_body]
pub(crate) fn to_lowercase(s: &str) -> (r: String)
    ensures
        r@ == unicode_lower(s@),
{
    s.to_lowercase()
}

/// `char::to_uppercase`, collected. The mapping itself is left to the name
/// `unicode_upper`.
#[verifier::external_body]
fn char_to_uppercase(c: char) -> (r: String)
    ensures
        r@ == unicode_upper(c),
{
    c.to_uppercase().collect()
}

/// The initial a user without an avatar is shown by: the upper-case form of
/// the first character of the name, or `?`.
pub open spec fn initial_spec(username: Seq<char>) -> Seq<char> {
    if username.len() > 0 {
        unicode_upper(username[0])
    } else {
        "?"@
    }
}

pub fn user_initial(username: &str) -> (r: String)
    ensures
        r@ == initial_spec(username@),
{
    let c = chars_of(username);
    if c.len() > 0 {
        char_to_uppercase(c[0])
    } else {
        String::from_str("?")
    }
}

/// Bytes `application/x-www-form-urlencoded` keeps as they are: ASCII
/// letters and digits, `*`, `-`, `.` and `_`.
pub open spec fn form_unchanged(b: u8) -> bool {
    b == 0x2a || b == 0x2d || b == 0x2e || (0x30 <= b && b <= 0x39) || (0x41 <= b && b <= 0x5a) || b
        == 0x5f || (0x61 <= b && b <= 0x7a)
}

/// How `form_urlencoded::byte_serialize` writes one byte: unchanged, `+` for
/// a space, else `%` and two upper-case hexadecimal digits.
pub open spec fn form_byte(b: u8) -> Seq<char> {
    if form_unchanged(b) {
        seq![(b as u32) as char]
    } else if b == 0x20 {
        seq!['+']
    } else {
        seq!['%', crate::encoding::hex_upper(b / 16), crate::encoding::hex_upper(b % 16)]
    }
}

pub open spec fn form_encode(b: Seq<u8>) -> Seq<char>
    decreases b.len(),
{
    if b.len() == 0 {
        seq![]
    } else {
        form_byte(b[0]) + form_encode(b.drop_first())
    }
}

/// The `name=value` pairs of a form, each side form-encoded, joined by `&`.
pub open spec fn form_pairs(pairs: Seq<(Seq<char>, Seq<char>)>) -> Seq<char>
    decreases pairs.len(),
{
    if pairs.len() == 0 {
        seq![]
    } else {
        let prev = form_pairs(pairs.drop_last());
        let p = pairs.last();
        let item = form_encode(encode_utf8(p.0)) + "="@ + form_encode(encode_utf8(p.1));
        if pairs.len() == 1 {
            item
        } else {
            prev + "&"@ + item
        }
    }
}

pub open spec fn pair_views(v: Seq<(String, String)>) -> Seq<(Seq<char>, Seq<char>)> {
    v.map_values(|p: (String, String)| (p.0@, p.1@))
}

/// `form_urlencoded::Serializer` given the pairs in order with
/// `extend_pairs`: each name and value form-encoded, joined as `name=value`
/// by `&`.
#[verifier::external_body]
fn form_serialize_pairs(pairs: &[(String, String)]) -> (r: String)
    ensures
        r@ == form_pairs(pair_views(pairs@)),
{
    url::form_urlencoded::Serializer::new(String::new()).extend_pairs(pairs).finish()
}

/// `form_urlencoded::byte_serialize` of a text's UTF-8 bytes, collected.
#[verifier::external_body]
fn form_byte_serialize(s: &str) -> (r: String)
    ensures
        r@ == form_encode(encode_utf8(s@)),
{
    url::form_urlencoded::byte_serialize(s.as_bytes()).collect()
}

/// `base` with a form query, when there is one.
pub open spec fn with_query(base: Seq<char>, query: Seq<char>) -> Seq<char> {
    if query.len() == 0 {
        base
    } else {
        base + "?"@ + query
    }
}

fn with_query_exec(base: &str, query: String) -> (r: String)
    ensures
        r@ == with_query(base@, query@),
{
    let q = chars_of(query.as_str());
    if q.len() == 0 {
        String::from_str(base)
    } else {
        let mut out = chars_of(base);
        push_lit(&mut out, "?");
        push_all(&mut out, q.as_slice());
        string_of(out.as_slice())
    }
}

fn pair(k: &str, v: &str) -> (r: (String, String))
    ensures
        r.0@ == k@,
        r.1@ == v@,
{
    (String::from_str(k), String::from_str(v))
}

/// The query of a user list link: the embedded view, the trimmed search, the
/// filter unless `all`, and the selected user, each only when present.
pub open spec fn user_page_pairs(embedded: bool, q: Seq<char>, mode: Seq<char>, user_id: Option<i64>) -> Seq<(Seq<char>, Seq<char>)> {
    let a: Seq<(Seq<char>, Seq<char>)> = if embedded {
        seq![("view"@, "users"@)]
    } else {
        seq![]
    };
    let b = if trim(q).len() > 0 {
        a.push(("q"@, trim(q)))
    } else {
        a
    };
    let c = if mode != "all"@ {
        b.push(("mode"@, mode))
    } else {
        b
    };
    match user_id {
        Some(id) => c.push(("user_id"@, int_text(id as int))),
        None => c,
    }
}

pub fn user_page_url(base_path: &str, embedded: bool, q: &str, mode: &str, user_id: Option<i64>) -> (r: String)
    ensures
        r@ == with_query(base_path@, form_pairs(user_page_pairs(embedded, q@, mode@, user_id))),
{
    let mut pairs: Vec<(String, String)> = Vec::new();
    if embedded {
        pairs.push(pair("view", "users"));
    }
    let t = trim_chars(chars_of(q).as_slice());
    if t.len() > 0 {
        pairs.push((String::from_str("q"), string_of(t.as_slice())));
    }
    if !eq_lit(chars_of(mode).as_slice(), "all") {
        pairs.push(pair("mode", mode));
    }
    if let Some(id) = user_id {
        pairs.push((String::from_str("user_id"), string_of(i64_text(id).as_slice())));
    }
    proof {
        assert(pair_views(pairs@) =~= user_page_pairs(embedded, q@, mode@, user_id));
    }
    with_query_exec(base_path, form_serialize_pairs(pairs.as_slice()))
}

/// The query of a suggestion list link: the embedded view and the status
/// unless `open`.
pub open spec fn suggestions_pairs(embedded: bool, status: Seq<char>) -> Seq<(Seq<char>, Seq<char>)> {
    let a: Seq<(Seq<char>, Seq<char>)> = if embedded {
        seq![("view"@, "suggestions"@)]
    } else {
        seq![]
    };
    if status != "open"@ {
        a.push(("status"@, status))
    } else {
        a
    }
}

pub fn suggestions_page_url(base_path: &str, embedded: bool, status: &str) -> (r: String)
    ensures
        r@ == with_query(base_path@, form_pairs(suggestions_pairs(embedded, status@))),
{
    let mut pairs: Vec<(String, String)> = Vec::new();
    if embedded {
        pairs.push(pair("view", "suggestions"));
    }
    if !eq_lit(chars_of(status).as_slice(), "open") {
        pairs.push(pair("status", status));
    }
    proof {
        assert(pair_views(pairs@) =~= suggestions_pairs(embedded, status@));
    }
    with_query_exec(base_path, form_serialize_pairs(pairs.as_slice()))
}

/// The URL of a user's card, carrying where to return.
pub open spec fn card_url_spec(user_id: i64, return_to: Seq<char>) -> Seq<char> {
    "/admin/users/"@ + int_text(user_id as int) + "/card?return_to="@ + form_encode(encode_utf8(return_to))
}

pub fn user_card_url(user_id: i64, return_to: &str) -> (r: String)
    ensures
        r@ == card_url_spec(user_id, return_to@),
{
    let mut out = chars_of("/admin/users/");
    push_all(&mut out, i64_text(user_id).as_slice());
    push_lit(&mut out, "/card?return_to=");
    push_all(&mut out, chars_of(form_byte_serialize(return_to).as_str()).as_slice());
    string_of(out.as_slice())
}

/// Where the panel redirects after an action: the path with `msg=` and the
/// encoded message appended after `?`, or after `&` when the path already
/// has a query that does not end in a separator.
pub open spec fn redirect_with_msg_spec(path: Seq<char>, msg: Seq<char>) -> Seq<char> {
    let sep = if has_char(path, '?') {
        if ends_with(path, "?"@) || ends_with(path, "&"@) {
            seq![]
        } else {
            "&"@
        }
    } else {
        "?"@
    };
    path + sep + "msg="@ + crate::encoding::percent_encode(encode_utf8(msg))
}

pub fn admin_redirect_target(path: &str, msg: &str) -> (r: String)
    ensures
        r@ == redirect_with_msg_spec(path@, msg@),
{
    let p = chars_of(path);
    let mut out = copy_chars(p.as_slice());
    if has_char_exec(p.as_slice(), '?') {
        if crate::text::ends_with_lit(p.as_slice(), "?") || crate::text::ends_with_lit(p.as_slice(), "&") {
            proof {
                assert(out@ =~= out@ + Seq::<char>::empty());
            }
        } else {
            push_lit(&mut out, "&");
        }
    } else {
        push_lit(&mut out, "?");
    }
    push_lit(&mut out, "msg=");
    let enc = crate::encoding::url_encode_component(msg);
    push_all(&mut out, chars_of(enc.as_str()).as_slice());
    string_of(out.as_slice())
}

// ---------------------------------------------------------------------------
// The Homie assistant
// ---------------------------------------------------------------------------

/// A session id kept for the assistant: the first eighty characters of the
/// trimmed input, with anything but ASCII letters, digits, `_`, `-`, `.` and
/// `:` replaced by `_`; `admin-center` when empty.
pub open spec fn homie_id_char(c: char) -> char {
    if is_ascii_alnum(c) || c == '_' || c == '-' || c == '.' || c == ':' {
        c
    } else {
        '_'
    }
}

pub open spec fn homie_session_id_spec(raw: Seq<char>) -> Seq<char> {
    let t = take_chars(trim(raw), 80);
    if t.len() == 0 {
        "admin-center"@
    } else {
        t.map_values(|c: char| homie_id_char(c))
    }
}

pub fn homie_session_id(raw: &str) -> (r: String)
    ensures
        r@ == homie_session_id_spec(raw@),
{
    let t = take_prefix(trim_chars(chars_of(raw).as_slice()).as_slice(), 80);
    let mut out: Vec<char> = Vec::new();
    let mut i: usize = 0;
    while i < t.len()
        invariant
            i <= t.len(),
            out@ == t@.take(i as int).map_values(|c: char| homie_id_char(c)),
        decreases t.len() - i,
    {
        let ch = t[i];
        if is_alnum(ch) || ch == '_' || ch == '-' || ch == '.' || ch == ':' {
            out.push(ch);
        } else {
            out.push('_');
        }
        i = i + 1;
        proof {
            assert(out@ =~= t@.take(i as int).map_values(|c: char| homie_id_char(c)));
        }
    }
    proof {
        assert(t@.take(t@.len() as int) =~= t@);
    }
    if out.len() == 0 {
        String::from_str("admin-center")
    } else {
        string_of(out.as_slice())
    }
}

/// Text that may hold a JSON object, array or string: trimmed, at least two
/// characters, bracketed or quoted at both ends.
pub open spec fn looks_like_json_spec(s: Seq<char>) -> bool {
    let t = trim(s);
    t.len() >= 2 && ((t[0] == '{' && t.last() == '}') || (t[0] == '[' && t.last() == ']') || (t[0]
        == '"' && t.last() == '"'))
}

pub fn homie_looks_like_json_text(s: &str) -> (r: bool)
    ensures
        r == looks_like_json_spec(s@),
{
    let t = trim_chars(chars_of(s).as_slice());
    let n = t.len();
    if n < 2 {
        return false;
    }
    let first = t[0];
    let last = t[n - 1];
    (first == '{' && last == '}') || (first == '[' && last == ']') || (first == '"' && last == '"')
}

/// Assistant text with its escaped line breaks and tabs made real: text that
/// already has a line break, or has no escaped one, stays as it is.
pub open spec fn normalize_plain_spec(s: Seq<char>) -> Seq<char> {
    if has_char(s, '\n') {
        s
    } else if !contains(s, "\\n"@) && !contains(s, "\\r\\n"@) {
        s
    } else {
        replace_all(replace_all(replace_all(s, "\\r\\n"@, "\n"@), "\\n"@, "\n"@), "\\t"@, "  "@)
    }
}

pub fn homie_normalize_plain_text(s: &str) -> (r: String)
    ensures
        r@ == normalize_plain_spec(s@),
{
    let c = chars_of(s);
    let c = c.as_slice();
    if has_char_exec(c, '\n') {
        return String::from_str(s);
    }
    if !contains_lit(c, "\\n") && !contains_lit(c, "\\r\\n") {
        return String::from_str(s);
    }
    let a = replace_all_exec(c, chars_of("\\r\\n").as_slice(), chars_of("\n").as_slice());
    let b = replace_all_exec(a.as_slice(), chars_of("\\n").as_slice(), chars_of("\n").as_slice());
    let d = replace_all_exec(b.as_slice(), chars_of("\\t").as_slice(), chars_of("  ").as_slice());
    string_of(d.as_slice())
}

/// The Homie panel up to the opening quote of its CSRF field's value.
pub open spec fn homie_panel_head() -> Seq<char> {
    "<div class='card homie-chat-card' id='homie-center-root'>\n  <input type='hidden' id='homie-center-csrf' value='"@
}

/// The Homie panel from the closing quote of its CSRF field's value on.
pub open spec fn homie_panel_tail() -> Seq<char> {
    "' />\n  <input type='hidden' id='homie-center-session' value='admin-center' />\n\n  <div class='homie-chat-topbar'>\n    <div class='homie-chat-titlebox'>\n      <div class='homie-chat-avatar'>H</div>\n      <div class='homie-chat-title-main'>\n        <div class='homie-chat-name'>Homie AI</div>\n        <div class='homie-chat-sub'>Локальный агент админ-панели</div>\n      </div>\n    </div>\n    <div class='homie-chat-actions'>\n      <span class='pill homie-status-pill' id='homie-center-status'>Проверка...</span>\n      <button type='button' class='btn-soft homie-top-btn' id='homie-center-check'>Статус</button>\n      <button type='button' class='btn-soft homie-top-btn' id='homie-center-tools'>Инструменты</button>\n    </div>\n  </div>\n\n  <div id='homie-center-feed' class='homie-chat-feed'></div>\n\n  <div class='homie-composer'>\n    <textarea id='homie-center-input' class='homie-input' rows='1' autocomplete='off' spellcheck='true' placeholder='Напиши задачу для Homie...'></textarea>\n    <div class='homie-composer-row'>\n      <span class='homie-composer-hint'>Enter — отправить · Shift/Ctrl + Enter — новая строка</span>\n      <span class='homie-chat-actions'>\n        <button type='button' class='btn-soft homie-reset-btn' id='homie-center-reset'>Сбросить контекст</button>\n        <button type='button' class='btn-soft homie-send-btn' id='homie-center-send'>Отправить</button>\n      </span>\n    </div>\n  </div>\n</div>\n"@
}

/// The text that opens the value of the panel's CSRF field.
pub open spec fn homie_csrf_marker() -> Seq<char> {
    "id='homie-center-csrf' value='"@
}

/// `m` stands in `t` from position `i` on.
pub open spec fn occurs_at(t: Seq<char>, m: Seq<char>, i: int) -> bool {
    0 <= i && i + m.len() <= t.len() && t.subrange(i, i + m.len()) == m
}

/// The Homie assistant panel of the admin centre, carrying the session's
/// CSRF token.
pub open spec fn homie_panel_spec(csrf: Seq<char>) -> Seq<char> {
    homie_panel_head() + escape_html_spec(csrf) + homie_panel_tail()
}

proof fn lemma_homie_panel_pieces()
    ensures
        occurs_at(
            homie_panel_head(),
            homie_csrf_marker(),
            homie_panel_head().len() - homie_csrf_marker().len(),
        ),
        forall|i: int|
            0 <= i < homie_panel_head().len() - homie_csrf_marker().len() ==> !#[trigger] occurs_at(
                homie_panel_head(),
                homie_csrf_marker(),
                i,
            ),
        forall|i: int|
            0 <= i <= homie_panel_tail().len() - homie_csrf_marker().len() ==> !#[trigger] occurs_at(
                homie_panel_tail(),
                homie_csrf_marker(),
                i,
            ),
        homie_panel_tail().len() > 1,
        homie_panel_tail()[0] == '\'',
        homie_panel_tail()[1] == ' ',
        homie_csrf_marker().len() == 30,
        homie_csrf_marker()[3] == '\'',
        forall|k: int|
            1 <= k < 29 ==> !(#[trigger] homie_csrf_marker()[k] == 'i' && homie_csrf_marker()[k + 1]
                == 'd'),
        homie_csrf_marker()[0] == 'i',
        homie_csrf_marker()[1] == 'd',
        homie_csrf_marker()[29] != 'i',
        forall|d: int|
            1 <= d <= 3 ==> !(#[trigger] homie_csrf_marker()[d] == '\'' && homie_csrf_marker()[d + 1]
                == ' '),
{
    reveal_strlit("<div class='card homie-chat-card' id='homie-center-root'>\n  <input type='hidden' id='homie-center-csrf' value='");
    reveal_strlit("' />\n  <input type='hidden' id='homie-center-session' value='admin-center' />\n\n  <div class='homie-chat-topbar'>\n    <div class='homie-chat-titlebox'>\n      <div class='homie-chat-avatar'>H</div>\n      <div class='homie-chat-title-main'>\n        <div class='homie-chat-name'>Homie AI</div>\n        <div class='homie-chat-sub'>Локальный агент админ-панели</div>\n      </div>\n    </div>\n    <div class='homie-chat-actions'>\n      <span class='pill homie-status-pill' id='homie-center-status'>Проверка...</span>\n      <button type='button' class='btn-soft homie-top-btn' id='homie-center-check'>Статус</button>\n      <button type='button' class='btn-soft homie-top-btn' id='homie-center-tools'>Инструменты</button>\n    </div>\n  </div>\n\n  <div id='homie-center-feed' class='homie-chat-feed'></div>\n\n  <div class='homie-composer'>\n    <textarea id='homie-center-input' class='homie-input' rows='1' autocomplete='off' spellcheck='true' placeholder='Напиши задачу для Homie...'></textarea>\n    <div class='homie-composer-row'>\n      <span class='homie-composer-hint'>Enter — отправить · Shift/Ctrl + Enter — новая строка</span>\n      <span class='homie-chat-actions'>\n        <button type='button' class='btn-soft homie-reset-btn' id='homie-center-reset'>Сбросить контекст</button>\n        <button type='button' class='btn-soft homie-send-btn' id='homie-center-send'>Отправить</button>\n      </span>\n    </div>\n  </div>\n</div>\n");
    reveal_strlit("id='homie-center-csrf' value='");
    assert(homie_panel_head().subrange(
        homie_panel_head().len() - homie_csrf_marker().len(),
        homie_panel_head().len() as int,
    ) =~= homie_csrf_marker());
    assert forall|i: int|
        0 <= i < homie_panel_head().len() - homie_csrf_marker().len() implies !#[trigger] occurs_at(
            homie_panel_head(),
            homie_csrf_marker(),
            i,
        ) by {
        let w = homie_panel_head().subrange(i, i + homie_csrf_marker().len());
        if w == homie_csrf_marker() {
            assert(w[17] == homie_panel_head()[i + 17]);
            assert(w[3] == homie_panel_head()[i + 3]);
            assert(w[0] == homie_panel_head()[i]);
        }
    }
    assert forall|i: int|
        0 <= i <= homie_panel_tail().len() - homie_csrf_marker().len() implies !#[trigger] occurs_at(
            homie_panel_tail(),
            homie_csrf_marker(),
            i,
        ) by {
        let w = homie_panel_tail().subrange(i, i + homie_csrf_marker().len());
        if w == homie_csrf_marker() {
            assert(w[0] == homie_panel_tail()[i]);
            assert(w[3] == homie_panel_tail()[i + 3]);
            assert(w[17] == homie_panel_tail()[i + 17]);
            assert(w[18] == homie_panel_tail()[i + 18]);
        }
    }
}

/// The panel names its CSRF field exactly once, and the field's value is the
/// escaped token followed by the closing quote; the panel depends on the
/// session's token alone.
pub proof fn law_homie_panel_csrf_once(csrf: Seq<char>, other: Seq<char>)
    ensures
        forall|j: int|
            #[trigger] occurs_at(homie_panel_spec(csrf), homie_csrf_marker(), j) <==> j
                == homie_panel_head().len() - homie_csrf_marker().len(),
        homie_panel_spec(csrf).subrange(
            homie_panel_head().len() as int,
            (homie_panel_head().len() + escape_html_spec(csrf).len() + 1) as int,
        ) == escape_html_spec(csrf) + seq!['\''],
        csrf == other ==> homie_panel_spec(csrf) == homie_panel_spec(other),
{
    lemma_homie_panel_pieces();
    law_escape_html_inert(csrf);
    let h = homie_panel_head();
    let e = escape_html_spec(csrf);
    let t = homie_panel_tail();
    let m = homie_csrf_marker();
    let whole = homie_panel_spec(csrf);
    let p = h.len() as int;
    let n = e.len() as int;
    assert(whole == h + e + t);
    assert(whole.len() == p + n + t.len());
    assert forall|x: int| 0 <= x < p implies #[trigger] whole[x] == h[x] by {}
    assert forall|x: int| p <= x < p + n implies #[trigger] whole[x] == e[x - p] by {}
    assert forall|x: int| p + n <= x < whole.len() implies #[trigger] whole[x] == t[x - p - n] by {}
    assert(whole.subrange(p - 30, p) =~= h.subrange(p - 30, p));
    assert forall|j: int| #[trigger] occurs_at(whole, m, j) implies j == p - 30 by {
        let w = whole.subrange(j, j + 30);
        assert(w == m);
        if j + 30 <= p {
            assert(w =~= h.subrange(j, j + 30));
            assert(occurs_at(h, m, j));
        } else if j >= p + n {
            assert(w =~= t.subrange(j - p - n, j - p - n + 30));
            assert(occurs_at(t, m, j - p - n));
        } else if j < p {
            let k = j - (p - 30);
            assert(h.subrange(p - 30, p)[k] == m[k]);
            assert(w[0] == whole[j]);
            assert(whole[j] == h[j]);
            assert(w[0] == m[k]);
            if k < 29 {
                assert(h.subrange(p - 30, p)[k + 1] == m[k + 1]);
                assert(w[1] == whole[j + 1]);
                assert(w[1] == m[k + 1]);
            }
        } else {
            let d = p + n - j;
            if d > 3 {
                assert(w[3] == whole[j + 3]);
                assert(whole[j + 3] == e[j + 3 - p]);
            } else {
                assert(w[d] == whole[j + d]);
                assert(whole[j + d] == t[0]);
                assert(w[d + 1] == whole[j + d + 1]);
                assert(whole[j + d + 1] == t[1]);
            }
        }
    }
    assert(whole.subrange(p - 30, p) =~= m);
    assert(occurs_at(whole, m, p - 30));
    assert(whole.subrange(p, p + n + 1) =~= e + seq!['\'']);
}

pub fn render_homie_center_panel(sess: &AdminSession) -> (r: String)
    ensures
        r@ == homie_panel_spec(sess.csrf@),
{
    let mut out = chars_of("<div class='card homie-chat-card' id='homie-center-root'>\n  <input type='hidden' id='homie-center-csrf' value='");
    push_all(&mut out, escape_chars(chars_of(sess.csrf.as_str()).as_slice()).as_slice());
    push_lit(&mut out, "' />\n  <input type='hidden' id='homie-center-session' value='admin-center' />\n\n  <div class='homie-chat-topbar'>\n    <div class='homie-chat-titlebox'>\n      <div class='homie-chat-avatar'>H</div>\n      <div class='homie-chat-title-main'>\n        <div class='homie-chat-name'>Homie AI</div>\n        <div class='homie-chat-sub'>Локальный агент админ-панели</div>\n      </div>\n    </div>\n    <div class='homie-chat-actions'>\n      <span class='pill homie-status-pill' id='homie-center-status'>Проверка...</span>\n      <button type='button' class='btn-soft homie-top-btn' id='homie-center-check'>Статус</button>\n      <button type='button' class='btn-soft homie-top-btn' id='homie-center-tools'>Инструменты</button>\n    </div>\n  </div>\n\n  <div id='homie-center-feed' class='homie-chat-feed'></div>\n\n  <div class='homie-composer'>\n    <textarea id='homie-center-input' class='homie-input' rows='1' autocomplete='off' spellcheck='true' placeholder='Напиши задачу для Homie...'></textarea>\n    <div class='homie-composer-row'>\n      <span class='homie-composer-hint'>Enter — отправить · Shift/Ctrl + Enter — новая строка</span>\n      <span class='homie-chat-actions'>\n        <button type='button' class='btn-soft homie-reset-btn' id='homie-center-reset'>Сбросить контекст</button>\n        <button type='button' class='btn-soft homie-send-btn' id='homie-center-send'>Отправить</button>\n      </span>\n    </div>\n  </div>\n</div>\n");
    string_of(out.as_slice())
}


/// The entries of the IP allow-list setting: the pieces of the trimmed
/// setting between commas, each trimmed, blank ones left out.
pub open spec fn allow_entries(pieces: Seq<Seq<char>>) -> Seq<Seq<char>>
    decreases pieces.len(),
{
    if pieces.len() == 0 {
        Seq::empty()
    } else {
        let t = trim(pieces[0]);
        (if t.len() > 0 {
            seq![t]
        } else {
            Seq::empty()
        }) + allow_entries(pieces.drop_first())
    }
}

pub fn allow_list_entries(allow: &str) -> (r: Vec<String>)
    ensures
        r@.map_values(|e: String| e@) == allow_entries(split_pieces(trim(allow@), ',')),
{
    let all = trim_chars(chars_of(allow).as_slice());
    let mut rest = copy_chars(all.as_slice());
    let mut out: Vec<String> = Vec::new();
    loop
        invariant
            out@.map_values(|e: String| e@) + allow_entries(split_pieces(rest@, ','))
                == allow_entries(split_pieces(all@, ',')),
            all@ == trim(allow@),
        decreases rest@.len(),
    {
        let ghost r0 = rest@;
        let ghost o0 = out@.map_values(|e: String| e@);
        let (piece, next, more) = match crate::text::split_once_char(rest.as_slice(), ',') {
            Some((a, b)) => (a, b, true),
            None => (copy_chars(rest.as_slice()), Vec::new(), false),
        };
        proof {
            let ps = split_pieces(r0, ',');
            if more {
                assert(ps == seq![piece@] + split_pieces(next@, ','));
                assert(ps.drop_first() =~= split_pieces(next@, ','));
            } else {
                assert(ps == seq![r0]);
                assert(ps.drop_first() =~= Seq::<Seq<char>>::empty());
            }
            assert(ps[0] == piece@);
        }
        let t = trim_chars(piece.as_slice());
        if t.len() > 0 {
            out.push(string_of(t.as_slice()));
        }
        proof {
            let ps = split_pieces(r0, ',');
            let head: Seq<Seq<char>> = if t@.len() > 0 { seq![t@] } else { Seq::empty() };
            assert(out@.map_values(|e: String| e@) =~= o0 + head);
            assert(allow_entries(ps) == head + allow_entries(ps.drop_first()));
            assert(o0 + (head + allow_entries(ps.drop_first())) =~= (o0 + head) + allow_entries(ps.drop_first()));
        }
        if !more {
            proof {
                assert(allow_entries(Seq::<Seq<char>>::empty()) =~= Seq::<Seq<char>>::empty());
                assert(out@.map_values(|e: String| e@) + Seq::<Seq<char>>::empty() =~= out@.map_values(|e: String| e@));
            }
            return out;
        }
        proof {
            crate::text::lemma_first_at_exists(r0, ',');
        }
        rest = next;
    }
}

/// Why a client is refused by the IP allow-list.
#[derive(PartialEq, Eq, Structural, Clone, Copy, Debug)]
pub enum AdminIpError {
    /// The list is set but the client's address is not known.
    NoClientIp,
    /// The client's address is not an IP address.
    BadClientIp,
    /// The client's address is not on the list.
    NotAllowed,
}

/// Whether the admin panel admits a client: always when the allow-list
/// setting is blank; else only a known, well-formed client address equal
/// to one of the listed addresses that parse. An address is given by its
/// octets (four for IPv4, sixteen for IPv6), the client's as `None` when it
/// is unknown and `Some(None)` when it does not parse.
pub open spec fn admin_ip_spec(
    allow: Seq<char>,
    client: Option<Option<Seq<u8>>>,
    listed: Seq<Option<Seq<u8>>>,
) -> Result<(), AdminIpError> {
    if trim(allow).len() == 0 {
        Ok(())
    } else {
        match client {
            None => Err(AdminIpError::NoClientIp),
            Some(None) => Err(AdminIpError::BadClientIp),
            Some(Some(ip)) => if exists|i: int| 0 <= i < listed.len() && #[trigger] listed[i] == Some(ip) {
                Ok(())
            } else {
                Err(AdminIpError::NotAllowed)
            },
        }
    }
}

pub open spec fn opt_octets(o: Option<Vec<u8>>) -> Option<Seq<u8>> {
    match o {
        Some(v) => Some(v@),
        None => None,
    }
}

fn octets_eq(a: &[u8], b: &[u8]) -> (r: bool)
    ensures
        r == (a@ == b@),
{
    if a.len() != b.len() {
        return false;
    }
    let mut i: usize = 0;
    while i < a.len()
        invariant
            i <= a@.len(),
            a@.len() == b@.len(),
            forall|j: int| 0 <= j < i ==> a@[j] == b@[j],
        decreases a@.len() - i,
    {
        if a[i] != b[i] {
            return false;
        }
        i = i + 1;
    }
    proof {
        assert(a@ =~= b@);
    }
    true
}

/// The allow-list check, with `listed` the addresses of the entries of
/// [`allow_list_entries`] as they parse, in order.
pub fn admin_ip_check(
    allow: &str,
    client: Option<Option<Vec<u8>>>,
    listed: &Vec<Option<Vec<u8>>>,
) -> (r: Result<(), AdminIpError>)
    ensures
        r == admin_ip_spec(allow@, opt_octets_client(client), listed@.map_values(|o: Option<Vec<u8>>| opt_octets(o))),
{
    let ghost lv = listed@.map_values(|o: Option<Vec<u8>>| opt_octets(o));
    let t = trim_chars(chars_of(allow).as_slice());
    if t.len() == 0 {
        return Ok(());
    }
    let ghost c0 = opt_octets_client(client);
    let ip = match &client {
        None => return Err(AdminIpError::NoClientIp),
        Some(None) => return Err(AdminIpError::BadClientIp),
        Some(Some(ip)) => ip,
    };
    let mut i: usize = 0;
    while i < listed.len()
        invariant
            i <= listed@.len(),
            lv == listed@.map_values(|o: Option<Vec<u8>>| opt_octets(o)),
            c0 == Some(Some(ip@)),
            c0 == opt_octets_client(client),
            t@.len() > 0,
            t@ == trim(allow@),
            forall|j: int| 0 <= j < i ==> lv[j] != Some(ip@),
        decreases listed@.len() - i,
    {
        if let Some(x) = &listed[i] {
            if octets_eq(x.as_slice(), ip.as_slice()) {
                proof {
                    assert(lv[i as int] == Some(ip@));
                    assert(admin_ip_spec(allow@, c0, lv) == Ok::<(), AdminIpError>(()));
                }
                return Ok(());
            }
        }
        proof {
            assert(lv[i as int] == opt_octets(listed@[i as int]));
        }
        i = i + 1;
    }
    Err(AdminIpError::NotAllowed)
}

pub open spec fn opt_octets_client(c: Option<Option<Vec<u8>>>) -> Option<Option<Seq<u8>>> {
    match c {
        Some(o) => Some(opt_octets(o)),
        None => None,
    }
}

} // verus!
