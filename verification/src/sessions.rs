//! The table of refresh sessions: lookup, rotation on refresh and revocation
//! on signing out everywhere, with the laws that tie them to the refresh and
//! file-token checks.

use vstd::prelude::*;
use crate::auth::{refresh_check_spec, RefreshError, RefreshSession, RefreshUser};
use crate::files::{file_user_spec, DownloadClaims, FileAuthError, TokenUser};
use crate::text::{chars_eq, chars_of};

verus! {

/// One stored refresh session.
#[derive(Debug)]
pub struct SessionRow {
    pub user_id: i64,
    /// Hex SHA-256 of the refresh token.
    pub token_hash: String,
    pub revoked: bool,
    /// Microseconds since the epoch.
    pub expires_at: i64,
}

/// The stored refresh sessions, in the order they were written.
#[derive(Debug)]
pub struct SessionTable {
    pub rows: Vec<SessionRow>,
}

/// The session a token hash and user name: the first matching row.
pub open spec fn find_session_spec(rows: Seq<SessionRow>, hash: Seq<char>, user_id: i64) -> Option<
    RefreshSession,
>
    decreases rows.len(),
{
    if rows.len() == 0 {
        None
    } else if rows[0].token_hash@ == hash && rows[0].user_id == user_id {
        Some(RefreshSession { revoked: rows[0].revoked, expires_at: rows[0].expires_at })
    } else {
        find_session_spec(rows.drop_first(), hash, user_id)
    }
}

/// A row with its session revoked.
pub open spec fn revoked_row(r: SessionRow) -> SessionRow {
    SessionRow { revoked: true, ..r }
}

/// The rows after a refresh: every session of the used token revoked, and
/// the new token's session added.
pub open spec fn rotate_spec(
    rows: Seq<SessionRow>,
    old_hash: Seq<char>,
    new_row: SessionRow,
) -> Seq<SessionRow> {
    rows.map_values(
        |r: SessionRow|
            if r.token_hash@ == old_hash {
                revoked_row(r)
            } else {
                r
            },
    ).push(new_row)
}

/// The rows after signing out everywhere: every session of the user revoked.
pub open spec fn revoke_user_spec(rows: Seq<SessionRow>, user_id: i64) -> Seq<SessionRow> {
    rows.map_values(
        |r: SessionRow|
            if r.user_id == user_id {
                revoked_row(r)
            } else {
                r
            },
    )
}

impl SessionTable {
    /// The stored session of a token hash for a user.
    pub fn find_session(&self, hash: &str, user_id: i64) -> (r: Option<RefreshSession>)
        ensures
            r == find_session_spec(self.rows@, hash@, user_id),
    {
        let h = chars_of(hash);
        let mut i: usize = 0;
        proof {
            assert(self.rows@.skip(0) =~= self.rows@);
        }
        while i < self.rows.len()
            invariant
                i <= self.rows.len(),
                h@ == hash@,
                find_session_spec(self.rows@, hash@, user_id) == find_session_spec(
                    self.rows@.skip(i as int),
                    hash@,
                    user_id,
                ),
            decreases self.rows.len() - i,
        {
            let row = &self.rows[i];
            let rh = chars_of(row.token_hash.as_str());
            proof {
                assert(self.rows@.skip(i as int)[0] == self.rows@[i as int]);
                assert(self.rows@.skip(i as int).drop_first() =~= self.rows@.skip(i + 1));
            }
            if chars_eq(rh.as_slice(), h.as_slice()) && row.user_id == user_id {
                return Some(RefreshSession { revoked: row.revoked, expires_at: row.expires_at });
            }
            i = i + 1;
        }
        None
    }

    /// A successful refresh: the used token's sessions are revoked and the
    /// new token's session is stored.
    pub fn rotate(&mut self, old_hash: &str, new_row: SessionRow)
        ensures
            final(self).rows@ == rotate_spec(old(self).rows@, old_hash@, new_row),
    {
        let h = chars_of(old_hash);
        let mut i: usize = 0;
        while i < self.rows.len()
            invariant
                i <= self.rows.len(),
                self.rows.len() == old(self).rows.len(),
                h@ == old_hash@,
                forall|j: int|
                    0 <= j < i ==> #[trigger] self.rows@[j] == (if old(self).rows@[j].token_hash@
                        == old_hash@ {
                        revoked_row(old(self).rows@[j])
                    } else {
                        old(self).rows@[j]
                    }),
                forall|j: int| i <= j < self.rows.len() ==> #[trigger] self.rows@[j] == old(self).rows@[j],
            decreases self.rows.len() - i,
        {
            let rh = chars_of(self.rows[i].token_hash.as_str());
            if chars_eq(rh.as_slice(), h.as_slice()) {
                self.rows[i].revoked = true;
            }
            i = i + 1;
        }
        self.rows.push(new_row);
        proof {
            assert(self.rows@ =~= rotate_spec(old(self).rows@, old_hash@, new_row));
        }
    }

    /// Signing out everywhere: every session of the user is revoked.
    pub fn revoke_user(&mut self, user_id: i64)
        ensures
            final(self).rows@ == revoke_user_spec(old(self).rows@, user_id),
    {
        let mut i: usize = 0;
        while i < self.rows.len()
            invariant
                i <= self.rows.len(),
                self.rows.len() == old(self).rows.len(),
                forall|j: int|
                    0 <= j < i ==> #[trigger] self.rows@[j] == (if old(self).rows@[j].user_id == user_id {
                        revoked_row(old(self).rows@[j])
                    } else {
                        old(self).rows@[j]
                    }),
                forall|j: int| i <= j < self.rows.len() ==> #[trigger] self.rows@[j] == old(self).rows@[j],
            decreases self.rows.len() - i,
        {
            if self.rows[i].user_id == user_id {
                self.rows[i].revoked = true;
            }
            i = i + 1;
        }
        proof {
            assert(self.rows@ =~= revoke_user_spec(old(self).rows@, user_id));
        }
    }
}

/// The token version after signing out everywhere: one more, or `None`
/// where the stored counter cannot grow.
pub fn next_token_version(v: i64) -> (r: Option<i64>)
    ensures
        r == (if v < i64::MAX {
            Some((v + 1) as i64)
        } else {
            None::<i64>
        }),
{
    if v < i64::MAX {
        Some(v + 1)
    } else {
        None
    }
}

proof fn lemma_find_after_rotate(rows: Seq<SessionRow>, hash: Seq<char>, user_id: i64, new_row: SessionRow)
    requires
        find_session_spec(rows, hash, user_id) is Some,
    ensures
        find_session_spec(rotate_spec(rows, hash, new_row), hash, user_id) == Some(
            RefreshSession { revoked: true, ..find_session_spec(rows, hash, user_id)->0 },
        ),
    decreases rows.len(),
{
    let f = |r: SessionRow|
        if r.token_hash@ == hash {
            revoked_row(r)
        } else {
            r
        };
    let rot = rotate_spec(rows, hash, new_row);
    assert(rot[0] == f(rows[0]));
    if !(rows[0].token_hash@ == hash && rows[0].user_id == user_id) {
        lemma_find_after_rotate(rows.drop_first(), hash, user_id, new_row);
        assert(rot.drop_first() =~= rotate_spec(rows.drop_first(), hash, new_row));
    }
}

proof fn lemma_find_after_revoke(rows: Seq<SessionRow>, hash: Seq<char>, user_id: i64)
    ensures
        find_session_spec(revoke_user_spec(rows, user_id), hash, user_id) matches Some(s) ==> s.revoked,
    decreases rows.len(),
{
    if rows.len() > 0 {
        let rev = revoke_user_spec(rows, user_id);
        lemma_find_after_revoke(rows.drop_first(), hash, user_id);
        assert(rev.drop_first() =~= revoke_user_spec(rows.drop_first(), user_id));
    }
}

/// A refresh token works once: after a refresh that succeeded with it, and
/// the rotation that follows, the same token is answered as invalid.
pub proof fn law_refresh_rotation_revokes(
    rows: Seq<SessionRow>,
    hash: Seq<char>,
    claims_version: i64,
    user: RefreshUser,
    now: i64,
    new_row: SessionRow,
    later: i64,
)
    requires
        refresh_check_spec(Some(claims_version), Some(user), find_session_spec(rows, hash, user.id), now) is Ok,
    ensures
        find_session_spec(rotate_spec(rows, hash, new_row), hash, user.id) matches Some(s) && s.revoked,
        refresh_check_spec(
            Some(claims_version),
            Some(user),
            find_session_spec(rotate_spec(rows, hash, new_row), hash, user.id),
            later,
        ) == Err::<i64, RefreshError>(RefreshError::InvalidToken),
{
    lemma_find_after_rotate(rows, hash, user.id, new_row);
}

/// Signing out everywhere stales every token issued before: the version
/// grows by one, every session of the user is revoked, a refresh token of
/// the old version is refused, and so is a file download token.
pub proof fn law_logout_all_stales_tokens(
    rows: Seq<SessionRow>,
    user: RefreshUser,
    hash: Seq<char>,
    now: i64,
    claims: DownloadClaims,
    file_id: i64,
)
    requires
        user.token_version < i64::MAX,
        claims.token_version == user.token_version,
    ensures
        forall|i: int|
            0 <= i < rows.len() && rows[i].user_id == user.id ==> (#[trigger] revoke_user_spec(
                rows,
                user.id,
            )[i]).revoked,
        find_session_spec(revoke_user_spec(rows, user.id), hash, user.id) matches Some(s) ==> s.revoked,
        refresh_check_spec(
            Some(user.token_version),
            Some(RefreshUser { token_version: (user.token_version + 1) as i64, ..user }),
            find_session_spec(revoke_user_spec(rows, user.id), hash, user.id),
            now,
        ) is Err,
        file_user_spec(
            None,
            true,
            Some(claims),
            file_id,
            Some(TokenUser { token_version: (user.token_version + 1) as i64, is_banned: user.is_banned }),
        ) is Err,
        !user.is_banned ==> refresh_check_spec(
            Some(user.token_version),
            Some(RefreshUser { token_version: (user.token_version + 1) as i64, ..user }),
            find_session_spec(revoke_user_spec(rows, user.id), hash, user.id),
            now,
        ) == Err::<i64, RefreshError>(RefreshError::Revoked),
        claims.file_id == file_id && !user.is_banned ==> file_user_spec(
            None,
            true,
            Some(claims),
            file_id,
            Some(TokenUser { token_version: (user.token_version + 1) as i64, is_banned: false }),
        ) == Err::<i64, FileAuthError>(FileAuthError::Unauthorized),
{
    lemma_find_after_revoke(rows, hash, user.id);
}

} // verus!
