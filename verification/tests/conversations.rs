use laberry_core::chats::{
    chat_row, create_chat_check, join_check, pins_access, read_access, requested_read_position,
    ChatError, ChatMeta, ParticipantCheck,
};
use laberry_core::dm::{
    dm_send_check, oldest_first, reply_preview_of, MessageRow, SendRefusal,
    canonical_pair, check_group_size, check_message_content, dm_allowed, dm_heading,
    dm_open_decision, encrypted_or_file_reference, file_marker_ids, join_first_names,
    normalize_group_title, page_limit, reply_excerpt, select_group_members, visible_content,
    DmOpenError, DmTarget, GroupSizeError, MemberInfo, MessageError, MAX_MESSAGE_CHARS,
};
use laberry_core::e2ee::{
    room_key_response, room_key_save_check, room_keys_response, room_keys_scope,
    GetRoomKeysQuery, RoomKeyError,
};

fn participant(user_id: i64, active: bool, mode: Option<&str>, friends: bool, server: bool) -> ParticipantCheck {
    ParticipantCheck {
        user_id,
        active,
        dm_mode: mode.map(|m| m.to_string()),
        are_friends: friends,
        share_server: server,
    }
}

#[test]
fn creating_chats() {
    let ok = [participant(2, true, None, false, true)];
    assert_eq!(create_chat_check(1, true, &ok, None), Ok(()));
    let inactive = [participant(2, false, None, true, true)];
    assert_eq!(create_chat_check(1, true, &inactive, None), Err(ChatError::Forbidden));
    let strict = [participant(2, true, Some("friends_only"), false, true)];
    assert_eq!(create_chat_check(1, true, &strict, None), Err(ChatError::Restricted));
    // The creator's own entry is skipped; a public chat checks nobody.
    let me = [participant(1, false, Some("friends_only"), false, false)];
    assert_eq!(create_chat_check(1, true, &me, None), Ok(()));
    assert_eq!(create_chat_check(1, false, &inactive, None), Ok(()));
    assert_eq!(create_chat_check(1, false, &[], Some(false)), Err(ChatError::Forbidden));
    assert_eq!(create_chat_check(1, false, &[], Some(true)), Ok(()));
}

#[test]
fn joining_chats() {
    assert_eq!(join_check(None, true), Err(ChatError::NotFound));
    assert_eq!(join_check(Some(ChatMeta { is_private: true, server_id: Some(1) }), true), Err(ChatError::Forbidden));
    assert_eq!(join_check(Some(ChatMeta { is_private: false, server_id: Some(1) }), false), Err(ChatError::Forbidden));
    assert_eq!(join_check(Some(ChatMeta { is_private: false, server_id: Some(1) }), true), Ok(()));
    assert_eq!(join_check(Some(ChatMeta { is_private: false, server_id: None }), false), Ok(()));
}

#[test]
fn reading_and_pins() {
    let server_chat = ChatMeta { is_private: false, server_id: Some(3) };
    assert!(read_access(server_chat, None, 10, false, true, None));
    assert!(!read_access(server_chat, None, 10, false, false, None));
    let private = ChatMeta { is_private: true, server_id: None };
    assert!(read_access(private, None, 10, true, false, None));
    assert!(!read_access(private, None, 10, false, false, None));
    assert!(pins_access(None, false, true, false));
    assert!(pins_access(Some(1), true, false, false));
    assert!(!pins_access(Some(1), false, true, true));
}

#[test]
fn read_positions() {
    assert_eq!(requested_read_position(None, 40), 40);
    assert_eq!(requested_read_position(Some(10), 40), 10);
    assert_eq!(requested_read_position(Some(100), 40), 40);
    assert_eq!(requested_read_position(Some(-3), 40), 0);
    let once = requested_read_position(Some(25), 40);
    assert_eq!(requested_read_position(Some(once), 40), once);
}

#[test]
fn chat_rows() {
    let r = chat_row(1, None, None, true, "t".to_string(), "text".to_string(), 3, Some(9), Some(6), None);
    assert_eq!(r.is_private, 1);
    assert!(r.has_unread);
    let r = chat_row(1, None, None, false, "t".to_string(), "text".to_string(), 0, None, None, None);
    assert_eq!(r.is_private, 0);
    assert!(!r.has_unread);
}

#[test]
fn message_content_rules() {
    assert!(encrypted_or_file_reference("[[e2ee:v1|abc]]"));
    assert!(encrypted_or_file_reference("see [[file:3|a.txt]]"));
    assert!(encrypted_or_file_reference("[[file=3|a]]"));
    assert!(!encrypted_or_file_reference("hello"));
    assert!(!encrypted_or_file_reference(" [[e2ee:v1|x"));
    assert_eq!(check_message_content("   "), Err(MessageError::Empty));
    assert_eq!(check_message_content("hello"), Err(MessageError::EncryptionRequired));
    assert_eq!(check_message_content("  [[e2ee:v1|x]]  "), Ok("[[e2ee:v1|x]]".to_string()));
    let long = format!("[[e2ee:v1|{}", "a".repeat(MAX_MESSAGE_CHARS));
    assert_eq!(check_message_content(&long), Err(MessageError::TooLong));
}

#[test]
fn message_display() {
    assert_eq!(visible_content("x".to_string(), false), "x");
    assert_eq!(visible_content("x".to_string(), true), "[сообщение скрыто — пользователь заблокирован]");
    assert_eq!(reply_excerpt(&"ж".repeat(100)).chars().count(), 80);
    assert_eq!(reply_excerpt("short"), "short");
    assert_eq!(page_limit(None), 50);
    assert_eq!(page_limit(Some(0)), 1);
    assert_eq!(page_limit(Some(500)), 200);
    assert_eq!(page_limit(Some(77)), 77);
}

#[test]
fn file_ids_in_a_message() {
    assert_eq!(file_marker_ids("[[file:12|a]] and [[file=3|b]] and [[file:12|c]]"), vec![3, 12]);
    assert_eq!(file_marker_ids("[[file:|a]] [[file:7]] [[file:x|b]]"), Vec::<i64>::new());
    assert_eq!(file_marker_ids("[[file:99999999999999999999|big]]"), Vec::<i64>::new());
    assert_eq!(file_marker_ids(""), Vec::<i64>::new());
}

#[test]
fn group_members() {
    assert_eq!(select_group_members(1, &[2, 1, 0, -4, 3, 2, 5]), vec![2, 3, 5]);
    assert_eq!(check_group_size(1), Err(GroupSizeError::TooFew));
    assert_eq!(check_group_size(2), Ok(()));
    assert_eq!(check_group_size(24), Ok(()));
    assert_eq!(check_group_size(25), Err(GroupSizeError::TooMany));
}

#[test]
fn group_titles() {
    let names: Vec<String> = ["ann", "bob", "cid", "dan", "eve"].iter().map(|s| s.to_string()).collect();
    let j: String = join_first_names(&names, 2).into_iter().collect();
    assert_eq!(j, "ann, bob");
    assert_eq!(normalize_group_title(Some("  Team  ".to_string()), &names), "Team");
    assert_eq!(normalize_group_title(None, &names), "ann, bob, cid, dan");
    assert_eq!(normalize_group_title(Some(" ".to_string()), &[]), "Групповой чат");
    assert_eq!(normalize_group_title(Some("x".repeat(100)), &[]).len(), 80);
}

#[test]
fn direct_message_permissions() {
    assert!(dm_allowed(None, false, true));
    assert!(!dm_allowed(None, false, false));
    assert!(dm_allowed(Some("friends_only"), true, false));
    assert!(!dm_allowed(Some("friends_only"), false, true));
    assert!(dm_allowed(Some("everyone"), false, false));
    assert_eq!(canonical_pair(5, 2), (2, 5));
    assert_eq!(canonical_pair(2, 5), (2, 5));
}

#[test]
fn opening_direct_messages() {
    let ok = DmTarget { exists: true, is_banned: false, blocked: false, may_write: true };
    assert_eq!(dm_open_decision(7, 3, ok), Ok((3, 7)));
    assert_eq!(dm_open_decision(7, 7, ok), Err(DmOpenError::SelfConversation));
    assert_eq!(dm_open_decision(7, 3, DmTarget { exists: false, ..ok }), Err(DmOpenError::UnknownUser));
    assert_eq!(dm_open_decision(7, 3, DmTarget { is_banned: true, ..ok }), Err(DmOpenError::Banned));
    assert_eq!(dm_open_decision(7, 3, DmTarget { blocked: true, ..ok }), Err(DmOpenError::Blocked));
    assert_eq!(dm_open_decision(7, 3, DmTarget { may_write: false, ..ok }), Err(DmOpenError::Restricted));
}

fn member(id: i64, name: &str) -> MemberInfo {
    MemberInfo { id, username: name.to_string(), avatar_file_id: Some(id * 10) }
}

#[test]
fn conversation_headings() {
    let h = dm_heading(2, "", &[member(4, "bob")]);
    assert!(!h.is_group);
    assert_eq!(h.title, "bob");
    assert_eq!(h.other_user_id, 4);
    assert_eq!(h.other_avatar_file_id, Some(40));
    let h = dm_heading(3, " Crew ", &[member(4, "bob"), member(5, "cid")]);
    assert!(h.is_group);
    assert_eq!(h.title, "Crew");
    assert_eq!(h.other_user_id, 0);
    let h = dm_heading(4, "", &[member(4, "bob"), member(5, "cid")]);
    assert_eq!(h.title, "bob, cid");
    let h = dm_heading(1, "", &[]);
    assert_eq!(h.title, "Личный чат");
}

#[test]
fn room_keys() {
    assert_eq!(room_key_save_check(true), Ok(()));
    assert_eq!(room_key_save_check(false), Err(RoomKeyError::Forbidden));
    let r = room_key_response(Some(("k".to_string(), "n".to_string()))).ok().unwrap();
    assert_eq!((r.encrypted_key.as_str(), r.nonce.as_str()), ("k", "n"));
    assert!(matches!(room_key_response(None), Err(RoomKeyError::NotFound)));
    assert_eq!(room_keys_scope(&GetRoomKeysQuery { chat_id: Some(4) }), Some(4));
    assert_eq!(room_keys_scope(&GetRoomKeysQuery { chat_id: None }), None);
    let rows = vec![(1, "a".to_string(), "b".to_string()), (2, "c".to_string(), "d".to_string())];
    let out = room_keys_response(&rows);
    assert_eq!(out.len(), 2);
    assert_eq!((out[1].chat_id, out[1].encrypted_key.as_str(), out[1].nonce.as_str()), (2, "c", "d"));
}

#[test]
fn sending_checks_in_order() {
    assert_eq!(dm_send_check(false, true, "", Some(false)), Err(SendRefusal::NoRecipients));
    assert_eq!(dm_send_check(true, true, "", Some(false)), Err(SendRefusal::Blocked));
    assert_eq!(dm_send_check(true, false, " ", Some(false)), Err(SendRefusal::Content(MessageError::Empty)));
    assert_eq!(dm_send_check(true, false, "hi", None), Err(SendRefusal::Content(MessageError::EncryptionRequired)));
    assert_eq!(dm_send_check(true, false, "[[file:1|a]]", Some(false)), Err(SendRefusal::ReplyNotInChat));
    assert_eq!(dm_send_check(true, false, " [[file:1|a]] ", Some(true)), Ok("[[file:1|a]]".to_string()));
    assert_eq!(dm_send_check(true, false, "[[e2ee:v1|z", None), Ok("[[e2ee:v1|z".to_string()));
}

#[test]
fn reply_previews_and_order() {
    let p = reply_preview_of(Some(1), Some("ann".to_string()), Some(2), None, Some("x".repeat(90))).unwrap();
    assert_eq!((p.id, p.sender_id, p.sender_username.as_str(), p.content.len()), (1, 2, "ann", 80));
    assert!(reply_preview_of(Some(1), None, Some(2), Some(5), Some("x".to_string())).is_none());
    assert!(reply_preview_of(None, Some("a".to_string()), Some(2), Some(5), Some("x".to_string())).is_none());
    let row = |id: i64| MessageRow {
        id,
        chat_id: 1,
        sender_id: 1,
        sender_username: String::new(),
        sender_avatar_file_id: None,
        content: String::new(),
        timestamp: String::new(),
        reply_to_id: None,
        reply_preview: None,
        reactions: None,
    };
    let ids: Vec<i64> = oldest_first(vec![row(9), row(7), row(4)]).into_iter().map(|m| m.id).collect();
    assert_eq!(ids, vec![4, 7, 9]);
    assert!(oldest_first(vec![]).is_empty());
}

#[test]
fn server_chat_rules_agree() {
    use_server_chat_rules(true);
    use_server_chat_rules(false);
}

fn use_server_chat_rules(member: bool) {
    let chat = ChatMeta { is_private: false, server_id: Some(5) };
    assert_eq!(read_access(chat, Some("text"), 9, true, member, None), member);
    assert_eq!(pins_access(Some(5), member, true, true), member);
    let info = laberry_core::files::ChatInfo { server_id: Some(5), is_private: false, kind: None };
    let m = laberry_core::files::ChatMembership { in_server: member, in_participants: true, in_dm_pair: true, voice_channel: None };
    assert_eq!(laberry_core::files::can_access_chat(Some(info), 9, m), member);
}
