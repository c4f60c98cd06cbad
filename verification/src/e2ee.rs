//! End-to-end encryption: the encrypted room keys each participant keeps on
//! the server, and the answers given when they are stored and fetched.

use vstd::prelude::*;

verus! {

/// A room key to store, encrypted on the client.
pub struct SaveRoomKeyBody {
    pub encrypted_key: String,
    pub nonce: String,
}

/// The caller's stored key of one chat.
pub struct GetRoomKeyResponse {
    pub encrypted_key: String,
    pub nonce: String,
}

/// The optional chat that a listing of keys is restricted to.
pub struct GetRoomKeysQuery {
    pub chat_id: Option<i64>,
}

/// One stored key in a listing.
pub struct RoomKeyResp {
    pub chat_id: i64,
    pub encrypted_key: String,
    pub nonce: String,
}

/// Why a room-key request is refused.
#[derive(PartialEq, Eq, Structural, Clone, Copy, Debug)]
pub enum RoomKeyError {
    /// The caller is not a participant of the chat.
    Forbidden,
    /// The caller has stored no key for the chat.
    NotFound,
}

/// A key is stored only for a participant of the chat; what is stored is
/// always filed under the caller's own user id.
pub fn room_key_save_check(is_participant: bool) -> (r: Result<(), RoomKeyError>)
    ensures
        r is Ok <==> is_participant,
        !is_participant ==> r == Err::<(), RoomKeyError>(RoomKeyError::Forbidden),
{
    if is_participant {
        Ok(())
    } else {
        Err(RoomKeyError::Forbidden)
    }
}

/// The answer to a fetch of one key, from the stored row (key, nonce) if any.
pub fn room_key_response(row: Option<(String, String)>) -> (r: Result<GetRoomKeyResponse, RoomKeyError>)
    ensures
        row is None <==> r == Err::<GetRoomKeyResponse, RoomKeyError>(RoomKeyError::NotFound),
        row is Some <==> r is Ok,
        r is Ok ==> r->Ok_0.encrypted_key@ == row->Some_0.0@ && r->Ok_0.nonce@ == row->Some_0.1@,
{
    match row {
        Some((encrypted_key, nonce)) => Ok(GetRoomKeyResponse { encrypted_key, nonce }),
        None => Err(RoomKeyError::NotFound),
    }
}

/// The chat a listing is restricted to: `None` lists every key of the caller.
pub fn room_keys_scope(q: &GetRoomKeysQuery) -> (r: Option<i64>)
    ensures
        r == q.chat_id,
{
    q.chat_id
}

/// The listing of stored keys, one entry per row (chat id, key, nonce), in
/// the order of the rows.
pub fn room_keys_response(rows: &Vec<(i64, String, String)>) -> (r: Vec<RoomKeyResp>)
    ensures
        r@.len() == rows@.len(),
        forall|i: int|
            0 <= i < rows@.len() ==> {
                &&& #[trigger] r@[i].chat_id == rows@[i].0
                &&& r@[i].encrypted_key@ == rows@[i].1@
                &&& r@[i].nonce@ == rows@[i].2@
            },
{
    let mut out: Vec<RoomKeyResp> = Vec::new();
    let mut i: usize = 0;
    while i < rows.len()
        invariant
            i <= rows@.len(),
            out@.len() == i,
            forall|j: int|
                0 <= j < i ==> {
                    &&& #[trigger] out@[j].chat_id == rows@[j].0
                    &&& out@[j].encrypted_key@ == rows@[j].1@
                    &&& out@[j].nonce@ == rows@[j].2@
                },
        decreases rows@.len() - i,
    {
        let row = &rows[i];
        out.push(RoomKeyResp { chat_id: row.0, encrypted_key: row.1.clone(), nonce: row.2.clone() });
        i = i + 1;
    }
    out
}

} // verus!
