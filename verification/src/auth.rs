//! Sign-in decisions: registration checks, password sign-in, the
//! second-factor code with its attempt counter and lockout, token refresh and
//! sign-out.

use vstd::prelude::*;
use crate::text::{
    ascii_lower, chars_of, push_all, push_lit, slice_chars, starts_with, starts_with_lit,
    string_of, to_ascii_lower, trim, trim_chars,
};

verus! {

// ---------------------------------------------------------------------------
// Structures exchanged with clients
// ---------------------------------------------------------------------------

/// The signed-in user.
pub struct MeResponse {
    pub id: i64,
    pub username: String,
    pub role: String,
}

/// A registration request.
pub struct RegisterBody {
    pub username: String,
    pub password: String,
    pub email: Option<String>,
    pub accepted_terms: Option<bool>,
    pub agreement_version: Option<String>,
}

/// A password sign-in request.
pub struct LoginBody {
    pub username: String,
    pub password: String,
}

/// A second-factor code submitted for a user.
pub struct Verify2FaBody {
    pub user_id: i64,
    pub code: String,
}

/// A sign-out request, optionally naming the refresh token to revoke.
pub struct LogoutBody {
    pub refresh_token: Option<String>,
}

/// The answer to a sign-in step.
pub struct LoginResponse {
    pub access_token: Option<String>,
    pub refresh_token: Option<String>,
    pub token_type: Option<String>,
    pub user_id: Option<i64>,
    pub requires_2fa: bool,
}

/// The answer that asks for the second factor.
pub fn second_factor_required(user_id: i64) -> (r: LoginResponse)
    ensures
        r.access_token is None,
        r.refresh_token is None,
        r.token_type is None,
        r.user_id == Some(user_id),
        r.requires_2fa,
{
    LoginResponse {
        access_token: None,
        refresh_token: None,
        token_type: None,
        user_id: Some(user_id),
        requires_2fa: true,
    }
}

/// The answer that hands out a bearer token pair.
pub fn tokens_issued(access: String, refresh: String, user_id: i64) -> (r: LoginResponse)
    ensures
        r.access_token == Some(access),
        r.refresh_token == Some(refresh),
        r.token_type matches Some(t) && t@ == "bearer"@,
        r.user_id == Some(user_id),
        !r.requires_2fa,
{
    LoginResponse {
        access_token: Some(access),
        refresh_token: Some(refresh),
        token_type: Some(String::from_str("bearer")),
        user_id: Some(user_id),
        requires_2fa: false,
    }
}

// ---------------------------------------------------------------------------
// Registration
// ---------------------------------------------------------------------------

/// Why a registration is refused.
#[derive(PartialEq, Eq, Structural, Clone, Copy, Debug)]
pub enum RegisterError {
    InvalidUsername,
    TermsRequired,
    UsernameTaken,
    EmailTaken,
}

/// The registration checks, in the order they are made.
pub open spec fn register_check_spec(
    username_valid: bool,
    accepted_terms: Option<bool>,
    username_taken: bool,
    email_taken: bool,
) -> Result<(), RegisterError> {
    if !username_valid {
        Err(RegisterError::InvalidUsername)
    } else if accepted_terms != Some(true) {
        Err(RegisterError::TermsRequired)
    } else if username_taken {
        Err(RegisterError::UsernameTaken)
    } else if email_taken {
        Err(RegisterError::EmailTaken)
    } else {
        Ok(())
    }
}

pub fn register_check(
    username_valid: bool,
    accepted_terms: Option<bool>,
    username_taken: bool,
    email_taken: bool,
) -> (r: Result<(), RegisterError>)
    ensures
        r == register_check_spec(username_valid, accepted_terms, username_taken, email_taken),
{
    if !username_valid {
        return Err(RegisterError::InvalidUsername);
    }
    match accepted_terms {
        Some(true) => {},
        _ => {
            return Err(RegisterError::TermsRequired);
        },
    }
    if username_taken {
        return Err(RegisterError::UsernameTaken);
    }
    if email_taken {
        return Err(RegisterError::EmailTaken);
    }
    Ok(())
}

/// The version of the terms recorded for a new user: the one given, trimmed,
/// unless it is blank.
pub open spec fn agreement_version_spec(given: Option<Seq<char>>) -> Seq<char> {
    match given {
        Some(v) if trim(v).len() > 0 => trim(v),
        _ => "license-rules-2026-05-24"@,
    }
}

pub fn agreement_version(given: Option<&str>) -> (r: String)
    ensures
        r@ == agreement_version_spec(
            match given {
                Some(v) => Some(v@),
                None => None,
            },
        ),
{
    if let Some(v) = given {
        let t = trim_chars(chars_of(v).as_slice());
        if t.len() > 0 {
            return string_of(t.as_slice());
        }
    }
    String::from_str("license-rules-2026-05-24")
}

// ---------------------------------------------------------------------------
// Password sign-in
// ---------------------------------------------------------------------------

/// The rate-limit key of a sign-in attempt.
pub open spec fn login_rate_key_spec(ip: Seq<char>, username: Seq<char>) -> Seq<char> {
    "login:"@ + ip + ":"@ + ascii_lower(trim(username))
}

pub fn login_rate_key(ip: &str, username: &str) -> (r: String)
    ensures
        r@ == login_rate_key_spec(ip@, username@),
{
    let mut out = chars_of("login:");
    push_all(&mut out, chars_of(ip).as_slice());
    push_lit(&mut out, ":");
    let u = to_ascii_lower(trim_chars(chars_of(username).as_slice()).as_slice());
    push_all(&mut out, u.as_slice());
    string_of(out.as_slice())
}

/// The rate-limit key of a token refresh.
pub fn refresh_rate_key(ip: &str) -> (r: String)
    ensures
        r@ == "refresh:"@ + ip@,
{
    let mut out = chars_of("refresh:");
    push_all(&mut out, chars_of(ip).as_slice());
    string_of(out.as_slice())
}

/// The stored facts about the account a sign-in names.
#[derive(Clone, Copy, Debug)]
pub struct LoginUser {
    pub id: i64,
    pub is_banned: bool,
    pub two_factor: bool,
}

/// Where a password sign-in leads.
#[derive(PartialEq, Eq, Structural, Clone, Copy, Debug)]
pub enum LoginStep {
    /// Unknown user or wrong password: the same answer for both.
    InvalidCredentials,
    Banned,
    /// A code is sent and must be submitted for this user.
    SecondFactor { user_id: i64 },
    /// Tokens are issued for this user.
    Tokens { user_id: i64 },
}

pub open spec fn login_step_spec(user: Option<LoginUser>, password_ok: bool) -> LoginStep {
    if !password_ok {
        LoginStep::InvalidCredentials
    } else {
        match user {
            None => LoginStep::InvalidCredentials,
            Some(u) => if u.is_banned {
                LoginStep::Banned
            } else if u.two_factor {
                LoginStep::SecondFactor { user_id: u.id }
            } else {
                LoginStep::Tokens { user_id: u.id }
            },
        }
    }
}

pub fn login_step(user: Option<LoginUser>, password_ok: bool) -> (r: LoginStep)
    ensures
        r == login_step_spec(user, password_ok),
{
    if !password_ok {
        return LoginStep::InvalidCredentials;
    }
    match user {
        None => LoginStep::InvalidCredentials,
        Some(u) => if u.is_banned {
            LoginStep::Banned
        } else if u.two_factor {
            LoginStep::SecondFactor { user_id: u.id }
        } else {
            LoginStep::Tokens { user_id: u.id }
        },
    }
}

// ---------------------------------------------------------------------------
// The second factor
// ---------------------------------------------------------------------------

/// Microseconds a code stays valid.
pub const CODE_TTL_MICROS: i64 = 300000000;

/// Microseconds an account stays locked after too many wrong codes.
pub const LOCK_MICROS: i64 = 900000000;

/// Wrong codes that lock the account.
pub const MAX_CODE_ATTEMPTS: i64 = 3;

/// A user's second-factor state; times are microseconds since the epoch.
#[derive(PartialEq, Eq, Structural, Clone, Copy, Debug)]
pub struct TwoFactorState {
    /// A code has been issued and not used up.
    pub has_code: bool,
    pub expires_at: Option<i64>,
    pub attempts: i64,
    pub locked_until: Option<i64>,
}

/// The state a freshly sent code starts.
pub fn issue_code(now: i64) -> (s: TwoFactorState)
    requires
        now <= i64::MAX - CODE_TTL_MICROS,
    ensures
        s == (TwoFactorState {
            has_code: true,
            expires_at: Some((now + CODE_TTL_MICROS) as i64),
            attempts: 0,
            locked_until: None,
        }),
{
    TwoFactorState {
        has_code: true,
        expires_at: Some(now + CODE_TTL_MICROS),
        attempts: 0,
        locked_until: None,
    }
}

/// What a submitted code leads to.
#[derive(PartialEq, Eq, Structural, Clone, Copy, Debug)]
pub enum TwoFactorOutcome {
    /// No code is pending.
    NotActive,
    /// The account is locked.
    Locked,
    /// The pending code has expired.
    Expired,
    /// Wrong code; this many wrong codes so far.
    WrongCode { attempts: i64 },
    /// Wrong code once too often; locked until the given time.
    LockedNow { until: i64 },
    /// Right code: tokens are issued.
    Verified,
}

/// Judges a submitted code: no pending code, then an active lock, then
/// expiry are checked before the code itself; the third wrong code locks
/// the account.
pub open spec fn verify_code_spec(s: TwoFactorState, now: i64, code_matches: bool) -> TwoFactorOutcome {
    if !s.has_code {
        TwoFactorOutcome::NotActive
    } else if s.locked_until matches Some(l) && now < l {
        TwoFactorOutcome::Locked
    } else if s.expires_at matches Some(e) && now > e {
        TwoFactorOutcome::Expired
    } else if !code_matches {
        if s.attempts + 1 >= MAX_CODE_ATTEMPTS {
            TwoFactorOutcome::LockedNow { until: (now + LOCK_MICROS) as i64 }
        } else {
            TwoFactorOutcome::WrongCode { attempts: (s.attempts + 1) as i64 }
        }
    } else {
        TwoFactorOutcome::Verified
    }
}

pub fn verify_code(s: TwoFactorState, now: i64, code_matches: bool) -> (r: TwoFactorOutcome)
    requires
        !code_matches && s.attempts >= MAX_CODE_ATTEMPTS - 1 ==> now <= i64::MAX - LOCK_MICROS,
    ensures
        r == verify_code_spec(s, now, code_matches),
{
    if !s.has_code {
        return TwoFactorOutcome::NotActive;
    }
    if let Some(l) = s.locked_until {
        if now < l {
            return TwoFactorOutcome::Locked;
        }
    }
    if let Some(e) = s.expires_at {
        if now > e {
            return TwoFactorOutcome::Expired;
        }
    }
    if !code_matches {
        if s.attempts >= MAX_CODE_ATTEMPTS - 1 {
            return TwoFactorOutcome::LockedNow { until: now + LOCK_MICROS };
        }
        return TwoFactorOutcome::WrongCode { attempts: s.attempts + 1 };
    }
    TwoFactorOutcome::Verified
}

/// The state an outcome leaves behind: a lock clears the code and records
/// the lock; a wrong code counts; success clears the code, its expiry and
/// the count.
pub open spec fn after_outcome_spec(s: TwoFactorState, o: TwoFactorOutcome) -> TwoFactorState {
    match o {
        TwoFactorOutcome::LockedNow { until } => TwoFactorState {
            has_code: false,
            expires_at: s.expires_at,
            attempts: MAX_CODE_ATTEMPTS,
            locked_until: Some(until),
        },
        TwoFactorOutcome::WrongCode { attempts } => TwoFactorState { attempts, ..s },
        TwoFactorOutcome::Verified => TwoFactorState {
            has_code: false,
            expires_at: None,
            attempts: 0,
            locked_until: s.locked_until,
        },
        _ => s,
    }
}

pub fn after_outcome(s: TwoFactorState, o: TwoFactorOutcome) -> (r: TwoFactorState)
    ensures
        r == after_outcome_spec(s, o),
{
    match o {
        TwoFactorOutcome::LockedNow { until } => TwoFactorState {
            has_code: false,
            expires_at: s.expires_at,
            attempts: MAX_CODE_ATTEMPTS,
            locked_until: Some(until),
        },
        TwoFactorOutcome::WrongCode { attempts } => TwoFactorState {
            has_code: s.has_code,
            expires_at: s.expires_at,
            attempts,
            locked_until: s.locked_until,
        },
        TwoFactorOutcome::Verified => TwoFactorState {
            has_code: false,
            expires_at: None,
            attempts: 0,
            locked_until: s.locked_until,
        },
        _ => s,
    }
}

/// One submission of a code, and the state it leaves.
pub open spec fn submit_spec(s: TwoFactorState, now: i64, code_matches: bool) -> (TwoFactorOutcome, TwoFactorState) {
    let o = verify_code_spec(s, now, code_matches);
    (o, after_outcome_spec(s, o))
}

/// Three wrong codes in a row against a freshly sent code, within its
/// validity, lock the account on the third.
pub proof fn law_three_wrong_codes_lock(t0: i64, t1: i64, t2: i64, t3: i64)
    requires
        t0 <= t1 <= t2 <= t3,
        t3 <= t0 + CODE_TTL_MICROS,
        t0 <= i64::MAX - CODE_TTL_MICROS - LOCK_MICROS,
    ensures
        ({
            let s0 = TwoFactorState {
                has_code: true,
                expires_at: Some((t0 + CODE_TTL_MICROS) as i64),
                attempts: 0,
                locked_until: None,
            };
            let (o1, s1) = submit_spec(s0, t1, false);
            let (o2, s2) = submit_spec(s1, t2, false);
            let (o3, s3) = submit_spec(s2, t3, false);
            &&& o1 == TwoFactorOutcome::WrongCode { attempts: 1 }
            &&& o2 == TwoFactorOutcome::WrongCode { attempts: 2 }
            &&& o3 == TwoFactorOutcome::LockedNow { until: (t3 + LOCK_MICROS) as i64 }
            &&& s3.locked_until == Some((t3 + LOCK_MICROS) as i64)
            &&& !s3.has_code
        }),
{
}

/// While an account is locked no code, right or wrong, is accepted, and the
/// state does not change.
pub proof fn law_locked_refuses(s: TwoFactorState, now: i64, code_matches: bool)
    requires
        s.has_code,
        s.locked_until matches Some(l) && now < l,
    ensures
        verify_code_spec(s, now, code_matches) == TwoFactorOutcome::Locked,
        after_outcome_spec(s, TwoFactorOutcome::Locked) == s,
{
}

/// A lock uses up the pending code: after it, every submission finds no
/// code until a new one is sent.
pub proof fn law_lock_clears_code(s: TwoFactorState, until: i64, now: i64, code_matches: bool)
    ensures
        verify_code_spec(
            after_outcome_spec(s, TwoFactorOutcome::LockedNow { until }),
            now,
            code_matches,
        ) == TwoFactorOutcome::NotActive,
{
}

/// A right code is accepted once: the state it leaves has no code.
pub proof fn law_code_single_use(s: TwoFactorState, now: i64, later: i64, code_matches: bool)
    requires
        verify_code_spec(s, now, true) == TwoFactorOutcome::Verified,
    ensures
        verify_code_spec(
            after_outcome_spec(s, TwoFactorOutcome::Verified),
            later,
            code_matches,
        ) == TwoFactorOutcome::NotActive,
{
}

// ---------------------------------------------------------------------------
// Refresh and sign-out
// ---------------------------------------------------------------------------

/// The token of an `Authorization: Bearer` header.
pub open spec fn bearer_token_spec(header: Option<Seq<char>>) -> Option<Seq<char>> {
    match header {
        Some(h) if starts_with(h, "Bearer "@) => Some(h.skip(7)),
        _ => None,
    }
}

pub fn bearer_token(header: Option<&str>) -> (r: Option<String>)
    ensures
        match r {
            Some(t) => bearer_token_spec(
                match header {
                    Some(h) => Some(h@),
                    None => None,
                },
            ) == Some(t@),
            None => bearer_token_spec(
                match header {
                    Some(h) => Some(h@),
                    None => None,
                },
            ) is None,
        },
{
    match header {
        Some(h) => {
            let c = chars_of(h);
            if starts_with_lit(c.as_slice(), "Bearer ") {
                proof {
                    reveal_strlit("Bearer ");
                }
                let t = slice_chars(c.as_slice(), 7, c.len());
                proof {
                    assert(t@ =~= c@.skip(7));
                }
                Some(string_of(t.as_slice()))
            } else {
                None
            }
        },
        None => None,
    }
}

/// The stored account a refresh token names.
#[derive(Clone, Copy, Debug)]
pub struct RefreshUser {
    pub id: i64,
    pub is_banned: bool,
    pub token_version: i64,
}

/// The stored session of a refresh token; times are microseconds.
#[derive(Clone, Copy, Debug)]
pub struct RefreshSession {
    pub revoked: bool,
    pub expires_at: i64,
}

/// Why a refresh is refused.
#[derive(PartialEq, Eq, Structural, Clone, Copy, Debug)]
pub enum RefreshError {
    InvalidToken,
    Banned,
    Revoked,
    /// The session has expired; it is to be marked revoked.
    Expired,
}

/// Judges a refresh: the token's claims must decode, name an existing user
/// who is not banned and whose tokens were not revoked since, and match a
/// stored session that is neither revoked nor expired.
pub open spec fn refresh_check_spec(
    claims_version: Option<i64>,
    user: Option<RefreshUser>,
    session: Option<RefreshSession>,
    now: i64,
) -> Result<i64, RefreshError> {
    match claims_version {
        None => Err(RefreshError::InvalidToken),
        Some(v) => match user {
            None => Err(RefreshError::InvalidToken),
            Some(u) => if u.is_banned {
                Err(RefreshError::Banned)
            } else if u.token_version != v {
                Err(RefreshError::Revoked)
            } else {
                match session {
                    None => Err(RefreshError::InvalidToken),
                    Some(s) => if s.revoked {
                        Err(RefreshError::InvalidToken)
                    } else if s.expires_at <= now {
                        Err(RefreshError::Expired)
                    } else {
                        Ok(u.id)
                    },
                }
            },
        },
    }
}

pub fn refresh_check(
    claims_version: Option<i64>,
    user: Option<RefreshUser>,
    session: Option<RefreshSession>,
    now: i64,
) -> (r: Result<i64, RefreshError>)
    ensures
        r == refresh_check_spec(claims_version, user, session, now),
{
    let v = match claims_version {
        Some(v) => v,
        None => {
            return Err(RefreshError::InvalidToken);
        },
    };
    let u = match user {
        Some(u) => u,
        None => {
            return Err(RefreshError::InvalidToken);
        },
    };
    if u.is_banned {
        return Err(RefreshError::Banned);
    }
    if u.token_version != v {
        return Err(RefreshError::Revoked);
    }
    let s = match session {
        Some(s) => s,
        None => {
            return Err(RefreshError::InvalidToken);
        },
    };
    if s.revoked {
        return Err(RefreshError::InvalidToken);
    }
    if s.expires_at <= now {
        return Err(RefreshError::Expired);
    }
    Ok(u.id)
}

/// The answer to a refused registration: always 400, with its detail text.
pub fn register_refusal(e: RegisterError) -> (r: (u16, &'static str))
    ensures
        r.0 == 400,
        r.1@ == match e {
            RegisterError::InvalidUsername => "Invalid username"@,
            RegisterError::TermsRequired => "Terms agreement required"@,
            RegisterError::UsernameTaken => "Username already used"@,
            RegisterError::EmailTaken => "Email already used"@,
        },
{
    match e {
        RegisterError::InvalidUsername => (400, "Invalid username"),
        RegisterError::TermsRequired => (400, "Terms agreement required"),
        RegisterError::UsernameTaken => (400, "Username already used"),
        RegisterError::EmailTaken => (400, "Email already used"),
    }
}

/// The answer to a sign-in that issues nothing: the HTTP status and its
/// detail text; `None` where the sign-in goes on.
pub fn login_refusal(step: LoginStep) -> (r: Option<(u16, &'static str)>)
    ensures
        match step {
            LoginStep::InvalidCredentials => r matches Some(x) && x.0 == 401 && x.1@
                == "Invalid credentials"@,
            LoginStep::Banned => r matches Some(x) && x.0 == 403 && x.1@ == "User banned"@,
            _ => r is None,
        },
{
    match step {
        LoginStep::InvalidCredentials => Some((401, "Invalid credentials")),
        LoginStep::Banned => Some((403, "User banned")),
        _ => None,
    }
}

/// The answer to a refused code: the HTTP status and its detail text;
/// `None` for a verified code.
pub fn two_factor_refusal(o: TwoFactorOutcome) -> (r: Option<(u16, &'static str)>)
    ensures
        match o {
            TwoFactorOutcome::NotActive => r matches Some(x) && x.0 == 404 && x.1@ == "2FA not active"@,
            TwoFactorOutcome::Locked => r matches Some(x) && x.0 == 403 && x.1@
                == "Account locked. Try again in 15 minutes"@,
            TwoFactorOutcome::Expired => r matches Some(x) && x.0 == 401 && x.1@
                == "2FA code expired. Please request a new one"@,
            TwoFactorOutcome::WrongCode { .. } => r matches Some(x) && x.0 == 401 && x.1@
                == "Invalid 2FA code"@,
            TwoFactorOutcome::LockedNow { .. } => r matches Some(x) && x.0 == 403 && x.1@
                == "Too many failed attempts. Account locked for 15 minutes"@,
            TwoFactorOutcome::Verified => r is None,
        },
{
    match o {
        TwoFactorOutcome::NotActive => Some((404, "2FA not active")),
        TwoFactorOutcome::Locked => Some((403, "Account locked. Try again in 15 minutes")),
        TwoFactorOutcome::Expired => Some((401, "2FA code expired. Please request a new one")),
        TwoFactorOutcome::WrongCode { .. } => Some((401, "Invalid 2FA code")),
        TwoFactorOutcome::LockedNow { .. } => Some(
            (403, "Too many failed attempts. Account locked for 15 minutes"),
        ),
        TwoFactorOutcome::Verified => None,
    }
}

/// The answer to a refused refresh: the HTTP status and its detail text.
/// An expired session is answered as an invalid token.
pub fn refresh_refusal(e: RefreshError) -> (r: (u16, &'static str))
    ensures
        match e {
            RefreshError::Banned => r.0 == 403 && r.1@ == "User banned"@,
            RefreshError::Revoked => r.0 == 401 && r.1@ == "Token revoked"@,
            _ => r.0 == 401 && r.1@ == "Invalid token"@,
        },
{
    match e {
        RefreshError::Banned => (403, "User banned"),
        RefreshError::Revoked => (401, "Token revoked"),
        _ => (401, "Invalid token"),
    }
}

/// The refresh token a sign-out revokes: the one given, trimmed, unless blank.
pub open spec fn logout_refresh_token_spec(given: Option<Seq<char>>) -> Option<Seq<char>> {
    match given {
        Some(t) if trim(t).len() > 0 => Some(trim(t)),
        _ => None,
    }
}

pub fn logout_refresh_token(body: Option<LogoutBody>) -> (r: Option<String>)
    ensures
        match r {
            Some(t) => logout_refresh_token_spec(
                match body {
                    Some(b) => match b.refresh_token {
                        Some(x) => Some(x@),
                        None => None,
                    },
                    None => None,
                },
            ) == Some(t@),
            None => logout_refresh_token_spec(
                match body {
                    Some(b) => match b.refresh_token {
                        Some(x) => Some(x@),
                        None => None,
                    },
                    None => None,
                },
            ) is None,
        },
{
    match body {
        Some(b) => match b.refresh_token {
            Some(t) => {
                let tt = trim_chars(chars_of(t.as_str()).as_slice());
                if tt.len() > 0 {
                    Some(string_of(tt.as_slice()))
                } else {
                    None
                }
            },
            None => None,
        },
        None => None,
    }
}

} // verus!
