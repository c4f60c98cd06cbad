use laberry_core::auth::{
    after_outcome, agreement_version, bearer_token, issue_code, login_rate_key, login_step,
    logout_refresh_token, refresh_check, refresh_rate_key, register_check,
    second_factor_required, tokens_issued, verify_code, LoginStep, LoginUser, LogoutBody,
    RefreshError, RefreshSession, RefreshUser, RegisterError, TwoFactorOutcome, TwoFactorState,
    CODE_TTL_MICROS, LOCK_MICROS,
};

#[test]
fn login_responses() {
    let r = second_factor_required(9);
    assert!(r.requires_2fa);
    assert_eq!(r.user_id, Some(9));
    assert!(r.access_token.is_none() && r.refresh_token.is_none() && r.token_type.is_none());
    let r = tokens_issued("acc".to_string(), "ref".to_string(), 3);
    assert!(!r.requires_2fa);
    assert_eq!(r.access_token.as_deref(), Some("acc"));
    assert_eq!(r.refresh_token.as_deref(), Some("ref"));
    assert_eq!(r.token_type.as_deref(), Some("bearer"));
    assert_eq!(r.user_id, Some(3));
}

#[test]
fn registration_errors_in_order() {
    assert_eq!(register_check(true, Some(true), false, false), Ok(()));
    assert_eq!(register_check(false, None, true, true), Err(RegisterError::InvalidUsername));
    assert_eq!(register_check(true, None, true, true), Err(RegisterError::TermsRequired));
    assert_eq!(register_check(true, Some(false), false, false), Err(RegisterError::TermsRequired));
    assert_eq!(register_check(true, Some(true), true, true), Err(RegisterError::UsernameTaken));
    assert_eq!(register_check(true, Some(true), false, true), Err(RegisterError::EmailTaken));
}

#[test]
fn agreement_versions() {
    assert_eq!(agreement_version(Some(" v2 ")), "v2");
    assert_eq!(agreement_version(Some("   ")), "license-rules-2026-05-24");
    assert_eq!(agreement_version(None), "license-rules-2026-05-24");
}

#[test]
fn rate_limit_keys() {
    assert_eq!(login_rate_key("1.2.3.4", "  Alice "), "login:1.2.3.4:alice");
    assert_eq!(refresh_rate_key("::1"), "refresh:::1");
}

#[test]
fn password_sign_in_steps() {
    let u = LoginUser { id: 4, is_banned: false, two_factor: false };
    assert_eq!(login_step(Some(u), true), LoginStep::Tokens { user_id: 4 });
    assert_eq!(login_step(Some(u), false), LoginStep::InvalidCredentials);
    assert_eq!(login_step(None, true), LoginStep::InvalidCredentials);
    let b = LoginUser { id: 4, is_banned: true, two_factor: true };
    assert_eq!(login_step(Some(b), true), LoginStep::Banned);
    let t = LoginUser { id: 5, is_banned: false, two_factor: true };
    assert_eq!(login_step(Some(t), true), LoginStep::SecondFactor { user_id: 5 });
}

fn submit(s: TwoFactorState, now: i64, ok: bool) -> (TwoFactorOutcome, TwoFactorState) {
    let o = verify_code(s, now, ok);
    (o, after_outcome(s, o))
}

#[test]
fn fresh_code_state() {
    let s = issue_code(1_000);
    assert_eq!(
        s,
        TwoFactorState { has_code: true, expires_at: Some(1_000 + CODE_TTL_MICROS), attempts: 0, locked_until: None }
    );
}

#[test]
fn three_wrong_codes_lock_the_account() {
    let s0 = issue_code(0);
    let (o1, s1) = submit(s0, 10, false);
    assert_eq!(o1, TwoFactorOutcome::WrongCode { attempts: 1 });
    let (o2, s2) = submit(s1, 20, false);
    assert_eq!(o2, TwoFactorOutcome::WrongCode { attempts: 2 });
    let (o3, s3) = submit(s2, 30, false);
    assert_eq!(o3, TwoFactorOutcome::LockedNow { until: 30 + LOCK_MICROS });
    assert!(!s3.has_code);
    assert_eq!(s3.locked_until, Some(30 + LOCK_MICROS));
}

#[test]
fn a_locked_account_refuses_every_code() {
    let s = TwoFactorState { has_code: true, expires_at: Some(1_000_000), attempts: 0, locked_until: Some(500) };
    for ok in [true, false] {
        let (o, after) = submit(s, 100, ok);
        assert_eq!(o, TwoFactorOutcome::Locked);
        assert_eq!(after, s);
    }
}

#[test]
fn a_code_is_used_once() {
    let s = issue_code(0);
    let (o, after) = submit(s, 5, true);
    assert_eq!(o, TwoFactorOutcome::Verified);
    assert_eq!(after, TwoFactorState { has_code: false, expires_at: None, attempts: 0, locked_until: None });
    let (again, _) = submit(after, 6, true);
    assert_eq!(again, TwoFactorOutcome::NotActive);
}

#[test]
fn expired_code() {
    let s = issue_code(0);
    let (o, after) = submit(s, CODE_TTL_MICROS + 1, true);
    assert_eq!(o, TwoFactorOutcome::Expired);
    assert_eq!(after, s);
    let (o, _) = submit(s, CODE_TTL_MICROS, true);
    assert_eq!(o, TwoFactorOutcome::Verified);
}

#[test]
fn bearer_tokens() {
    assert_eq!(bearer_token(Some("Bearer abc.def")).as_deref(), Some("abc.def"));
    assert_eq!(bearer_token(Some("bearer abc")), None);
    assert_eq!(bearer_token(Some("Basic xyz")), None);
    assert_eq!(bearer_token(Some("Bearer ")).as_deref(), Some(""));
    assert_eq!(bearer_token(None), None);
}

#[test]
fn refresh_errors() {
    let u = RefreshUser { id: 8, is_banned: false, token_version: 2 };
    let live = RefreshSession { revoked: false, expires_at: 100 };
    assert_eq!(refresh_check(Some(2), Some(u), Some(live), 50), Ok(8));
    assert_eq!(refresh_check(None, Some(u), Some(live), 50), Err(RefreshError::InvalidToken));
    assert_eq!(refresh_check(Some(2), None, Some(live), 50), Err(RefreshError::InvalidToken));
    let banned = RefreshUser { is_banned: true, ..u };
    assert_eq!(refresh_check(Some(2), Some(banned), Some(live), 50), Err(RefreshError::Banned));
    assert_eq!(refresh_check(Some(1), Some(u), Some(live), 50), Err(RefreshError::Revoked));
    assert_eq!(refresh_check(Some(2), Some(u), None, 50), Err(RefreshError::InvalidToken));
    let revoked = RefreshSession { revoked: true, expires_at: 100 };
    assert_eq!(refresh_check(Some(2), Some(u), Some(revoked), 50), Err(RefreshError::InvalidToken));
    assert_eq!(refresh_check(Some(2), Some(u), Some(live), 100), Err(RefreshError::Expired));
}

#[test]
fn sign_out_tokens() {
    assert_eq!(logout_refresh_token(Some(LogoutBody { refresh_token: Some(" t ".to_string()) })).as_deref(), Some("t"));
    assert_eq!(logout_refresh_token(Some(LogoutBody { refresh_token: Some("  ".to_string()) })), None);
    assert_eq!(logout_refresh_token(Some(LogoutBody { refresh_token: None })), None);
    assert_eq!(logout_refresh_token(None), None);
}
