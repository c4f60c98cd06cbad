//! Chats: creating and joining them, who may read one, and the read marker.

use vstd::prelude::*;
use crate::dm::{dm_allowed, dm_allowed_spec};
use crate::files::{chat_access_spec, ChatInfo, ChatMembership};
use crate::text::{chars_of, eq_lit};

verus! {

/// A request to create a chat.
pub struct CreateChatBody {
    pub name: Option<String>,
    pub server_id: Option<i64>,
    pub is_private: Option<bool>,
    pub participant_ids: Option<Vec<i64>>,
}

/// A chat as the chat list shows it.
pub struct ChatRow {
    pub id: i64,
    pub name: Option<String>,
    pub server_id: Option<i64>,
    pub is_private: i64,
    pub created_at: String,
    pub kind: String,
    pub unread_count: i64,
    pub has_unread: bool,
    pub last_message_id: Option<i64>,
    pub last_read_message_id: Option<i64>,
    pub last_message_preview: Option<String>,
}

/// A pinned message of a chat.
pub struct PinnedItem {
    pub message_id: i64,
    pub pinned_by: i64,
    pub pinned_by_username: String,
    pub pinned_at: String,
    pub message_exists: bool,
    pub sender_id: Option<i64>,
    pub sender_username: Option<String>,
    pub sender_avatar_file_id: Option<i64>,
    pub content: Option<String>,
}

/// A request to move the read marker.
pub struct MarkReadBody {
    pub last_read_message_id: Option<i64>,
}

/// Why a chat request is refused.
#[derive(PartialEq, Eq, Structural, Clone, Copy, Debug)]
pub enum ChatError {
    NotFound,
    Forbidden,
    /// The other user's settings do not admit direct messages from the caller.
    Restricted,
}

/// What is known of one participant a private chat is created with.
pub struct ParticipantCheck {
    pub user_id: i64,
    /// The user exists and is not banned.
    pub active: bool,
    /// The user's direct-message setting, when one is stored.
    pub dm_mode: Option<String>,
    pub are_friends: bool,
    pub share_server: bool,
}

pub open spec fn participant_refusal(me: i64, p: ParticipantCheck) -> Option<ChatError> {
    if p.user_id == me {
        None
    } else if !p.active {
        Some(ChatError::Forbidden)
    } else if !dm_allowed_spec(
        match p.dm_mode {
            Some(m) => Some(m@),
            None => None,
        },
        p.are_friends,
        p.share_server,
    ) {
        Some(ChatError::Restricted)
    } else {
        None
    }
}

/// The first refusal among the participants, in order.
pub open spec fn first_refusal(me: i64, ps: Seq<ParticipantCheck>) -> Option<ChatError>
    decreases ps.len(),
{
    if ps.len() == 0 {
        None
    } else {
        match participant_refusal(me, ps[0]) {
            Some(e) => Some(e),
            None => first_refusal(me, ps.drop_first()),
        }
    }
}

/// Whether a chat may be created: every participant of a private chat other
/// than the creator is active and admits the creator's messages, and the
/// creator of a server chat is a member of the server.
pub open spec fn create_chat_spec(
    me: i64,
    is_private: bool,
    participants: Seq<ParticipantCheck>,
    server_member: Option<bool>,
) -> Result<(), ChatError> {
    let first = if is_private {
        first_refusal(me, participants)
    } else {
        None
    };
    match first {
        Some(e) => Err(e),
        None => match server_member {
            Some(false) => Err(ChatError::Forbidden),
            _ => Ok(()),
        },
    }
}

pub fn create_chat_check(
    me: i64,
    is_private: bool,
    participants: &[ParticipantCheck],
    server_member: Option<bool>,
) -> (r: Result<(), ChatError>)
    ensures
        r == create_chat_spec(me, is_private, participants@, server_member),
{
    if is_private {
        let mut i: usize = 0;
        proof {
            assert(participants@.skip(0) =~= participants@);
        }
        while i < participants.len()
            invariant
                is_private,
                i <= participants.len(),
                first_refusal(me, participants@) == first_refusal(me, participants@.skip(i as int)),
            decreases participants.len() - i,
        {
            let p = &participants[i];
            proof {
                assert(participants@.skip(i as int)[0] == participants@[i as int]);
                assert(participants@.skip(i as int).drop_first() =~= participants@.skip(i + 1));
            }
            if p.user_id != me {
                if !p.active {
                    return Err(ChatError::Forbidden);
                }
                let mode: Option<&str> = match &p.dm_mode {
                    Some(m) => Some(m.as_str()),
                    None => None,
                };
                if !dm_allowed(mode, p.are_friends, p.share_server) {
                    return Err(ChatError::Restricted);
                }
            }
            i = i + 1;
        }
    }
    match server_member {
        Some(false) => Err(ChatError::Forbidden),
        _ => Ok(()),
    }
}

/// What is stored of a chat that access is decided on.
#[derive(Clone, Copy, Debug)]
pub struct ChatMeta {
    pub is_private: bool,
    pub server_id: Option<i64>,
}

/// Whether a user may join a chat: it must exist, be public, and, when it
/// belongs to a server, the user must be a member.
pub open spec fn join_spec(chat: Option<ChatMeta>, server_member: bool) -> Result<(), ChatError> {
    match chat {
        None => Err(ChatError::NotFound),
        Some(c) => if c.is_private {
            Err(ChatError::Forbidden)
        } else if c.server_id is Some && !server_member {
            Err(ChatError::Forbidden)
        } else {
            Ok(())
        },
    }
}

pub fn join_check(chat: Option<ChatMeta>, server_member: bool) -> (r: Result<(), ChatError>)
    ensures
        r == join_spec(chat, server_member),
{
    match chat {
        None => Err(ChatError::NotFound),
        Some(c) => if c.is_private {
            Err(ChatError::Forbidden)
        } else if c.server_id.is_some() && !server_member {
            Err(ChatError::Forbidden)
        } else {
            Ok(())
        },
    }
}

/// Whether a user may read a chat: participants read a private chat, server
/// members a public server chat, nobody a public chat without a server; a
/// voice chat only while the user is in it.
pub open spec fn read_access_spec(
    chat: ChatMeta,
    voice: bool,
    chat_id: i64,
    in_participants: bool,
    in_server: bool,
    voice_channel: Option<i64>,
) -> bool {
    let member = if chat.is_private {
        in_participants
    } else if chat.server_id is Some {
        in_server
    } else {
        false
    };
    member && (voice ==> voice_channel == Some(chat_id))
}

/// A voice chat's messages are readable only by a user who is in that voice
/// channel.
pub proof fn law_voice_reading_needs_presence(
    chat: ChatMeta,
    chat_id: i64,
    in_participants: bool,
    in_server: bool,
    voice_channel: Option<i64>,
)
    requires
        voice_channel != Some(chat_id),
    ensures
        !read_access_spec(chat, true, chat_id, in_participants, in_server, voice_channel),
{
}

pub fn read_access(
    chat: ChatMeta,
    kind: Option<&str>,
    chat_id: i64,
    in_participants: bool,
    in_server: bool,
    voice_channel: Option<i64>,
) -> (r: bool)
    ensures
        r == read_access_spec(
            chat,
            match kind {
                Some(k) => k@ == "voice"@,
                None => false,
            },
            chat_id,
            in_participants,
            in_server,
            voice_channel,
        ),
{
    let member = if chat.is_private {
        in_participants
    } else if chat.server_id.is_some() {
        in_server
    } else {
        false
    };
    if !member {
        return false;
    }
    let voice = match kind {
        Some(k) => eq_lit(chars_of(k).as_slice(), "voice"),
        None => false,
    };
    if voice {
        match voice_channel {
            Some(v) => v == chat_id,
            None => false,
        }
    } else {
        true
    }
}

/// Whether a user may see a chat's pins: server members for a server chat;
/// participants, or the two users of its direct conversation, otherwise.
pub open spec fn pins_access_spec(server_id: Option<i64>, in_server: bool, in_participants: bool, in_dm_pair: bool) -> bool {
    match server_id {
        Some(_) => in_server,
        None => in_participants || in_dm_pair,
    }
}

pub fn pins_access(server_id: Option<i64>, in_server: bool, in_participants: bool, in_dm_pair: bool) -> (r: bool)
    ensures
        r == pins_access_spec(server_id, in_server, in_participants, in_dm_pair),
{
    match server_id {
        Some(_) => in_server,
        None => in_participants || in_dm_pair,
    }
}

/// The three access rules agree on a public chat of a server: reading it,
/// seeing its pins and using its files are all for the server's members.
pub proof fn law_server_chat_access_agrees(
    server_id: i64,
    chat_id: i64,
    in_server: bool,
    in_participants: bool,
    in_dm_pair: bool,
)
    requires
        server_id > 0,
    ensures
        read_access_spec(
            ChatMeta { is_private: false, server_id: Some(server_id) },
            false,
            chat_id,
            in_participants,
            in_server,
            None,
        ) == in_server,
        pins_access_spec(Some(server_id), in_server, in_participants, in_dm_pair) == in_server,
        chat_access_spec(
            Some(ChatInfo { server_id: Some(server_id), is_private: false, kind: None }),
            chat_id,
            ChatMembership { in_server, in_participants, in_dm_pair, voice_channel: None },
        ) == in_server,
{
}

/// The position a read marker is asked to move to: the one requested (the
/// newest message by default) kept within `0..=max_id`.
pub open spec fn requested_read_spec(requested: Option<i64>, max_id: i64) -> i64 {
    let r = match requested {
        Some(v) => v,
        None => max_id,
    };
    let r0 = if r < 0 {
        0
    } else {
        r
    };
    if r0 > max_id {
        max_id
    } else {
        r0
    }
}

pub fn requested_read_position(requested: Option<i64>, max_id: i64) -> (r: i64)
    ensures
        r == requested_read_spec(requested, max_id),
        max_id >= 0 ==> 0 <= r <= max_id,
{
    let r = match requested {
        Some(v) => v,
        None => max_id,
    };
    let r0 = if r < 0 {
        0
    } else {
        r
    };
    if r0 > max_id {
        max_id
    } else {
        r0
    }
}

/// Moving the read marker to where it already is changes nothing.
pub proof fn law_read_position_idempotent(requested: Option<i64>, max_id: i64)
    requires
        max_id >= 0,
    ensures
        requested_read_spec(Some(requested_read_spec(requested, max_id)), max_id)
            == requested_read_spec(requested, max_id),
{
}

/// A chat list row.
pub fn chat_row(
    id: i64,
    name: Option<String>,
    server_id: Option<i64>,
    is_private: bool,
    created_at: String,
    kind: String,
    unread_count: i64,
    last_message_id: Option<i64>,
    last_read_message_id: Option<i64>,
    last_message_preview: Option<String>,
) -> (r: ChatRow)
    ensures
        r.id == id,
        r.name == name,
        r.server_id == server_id,
        r.is_private == (if is_private { 1i64 } else { 0i64 }),
        r.created_at == created_at,
        r.kind == kind,
        r.unread_count == unread_count,
        r.has_unread == (unread_count > 0),
        r.last_message_id == last_message_id,
        r.last_read_message_id == last_read_message_id,
        r.last_message_preview == last_message_preview,
{
    ChatRow {
        id,
        name,
        server_id,
        is_private: if is_private {
            1
        } else {
            0
        },
        created_at,
        kind,
        unread_count,
        has_unread: unread_count > 0,
        last_message_id,
        last_read_message_id,
        last_message_preview,
    }
}

} // verus!
