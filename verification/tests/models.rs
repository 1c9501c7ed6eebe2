use onix_desktop::models::{
    ChatItem, ChatListResponse, Conversation, ConversationResponse, Envelope, LoginResponse,
    MeResponse, Message, Reaction, SendResponse, SingleConversationResponse, UploadFile,
    UploadResponse, User,
};

fn user(name: &str, username: &str, public_id: i64) -> User {
    let mut u = User::default();
    u.id = 7;
    u.name = name.to_string();
    u.username = username.to_string();
    u.public_id = public_id;
    u
}

fn conversation(kind: &str, title: &str, peer: Option<User>) -> Conversation {
    Conversation {
        id: 1,
        public_id: 0,
        kind: kind.to_string(),
        title: title.to_string(),
        description: String::new(),
        avatar_url: String::new(),
        avatar_data: String::new(),
        member_count: 0,
        members_count: 0,
        peer,
        current_user_role: String::new(),
        can_admin: false,
        is_public: false,
    }
}

fn message(body: &str, kind: &str, metadata: &str, deleted: bool) -> Message {
    Message {
        id: 1,
        conversation_id: 1,
        sender_id: 2,
        sender_name: "Ann".to_string(),
        sender_username: String::new(),
        sender_avatar_data: String::new(),
        body: body.to_string(),
        kind: kind.to_string(),
        metadata: serde_json::from_str(metadata).unwrap(),
        created_at: String::new(),
        deleted,
        pinned: false,
        reactions: Vec::new(),
    }
}

#[test]
fn display_name_prefers_trimmed_name() {
    assert_eq!(user("  Anna  ", "anna", 5).display_name(), "Anna");
}

#[test]
fn display_name_falls_back_to_username_without_at_signs() {
    assert_eq!(user("   ", " @@anna ", 5).display_name(), "@anna");
}

#[test]
fn display_name_falls_back_to_public_id() {
    assert_eq!(user("", " ", 1234).display_name(), "Onix 1234");
}

#[test]
fn display_name_default_when_nothing_known() {
    assert_eq!(user("", "", 0).display_name(), "Пользователь");
    assert_eq!(user("", "", -3).display_name(), "Пользователь");
}

#[test]
fn display_name_trims_unicode_white_space() {
    assert_eq!(user("\u{3000}Анна\u{a0}\n", "", 0).display_name(), "Анна");
}

#[test]
fn display_title_private_uses_peer_in_any_case() {
    let c = conversation("PrIvAtE", "ignored", Some(user("Bob", "", 0)));
    assert_eq!(c.display_title(), "Bob");
}

#[test]
fn display_title_private_without_peer_uses_title() {
    let c = conversation("private", "  Notes ", None);
    assert_eq!(c.display_title(), "Notes");
}

#[test]
fn display_title_kind_fallbacks() {
    assert_eq!(conversation("saved", " ", None).display_title(), "Избранное");
    assert_eq!(conversation("group", "", None).display_title(), "Группа");
    assert_eq!(conversation("channel", "", None).display_title(), "Канал");
    assert_eq!(conversation("private", "", None).display_title(), "Диалог");
    assert_eq!(conversation("Group", "", None).display_title(), "Диалог");
}

#[test]
fn display_body_deleted_first() {
    assert_eq!(message("hello", "", "null", true).display_body(), "Сообщение удалено");
}

#[test]
fn display_body_trims_text() {
    assert_eq!(message("  hi there \t", "voice", "{}", false).display_body(), "hi there");
}

#[test]
fn display_body_reads_metadata_keys() {
    assert_eq!(message(" ", "", r#"{"voice": {"url": "x"}}"#, false).display_body(), "Голосовое сообщение");
    assert_eq!(message("", "", r#"{"sticker": 1}"#, false).display_body(), "Стикер");
    assert_eq!(message("", "", r#"{"gif": null}"#, false).display_body(), "GIF");
    assert_eq!(message("", "", r#"{"files": []}"#, false).display_body(), "Файл");
}

#[test]
fn display_body_reads_kind() {
    assert_eq!(message("", "voice", "null", false).display_body(), "Голосовое сообщение");
    assert_eq!(message("", "sticker", "null", false).display_body(), "Стикер");
    assert_eq!(message("", "gif", "null", false).display_body(), "GIF");
    assert_eq!(message("", "file", "null", false).display_body(), "Файл");
    assert_eq!(message("", "files", "null", false).display_body(), "Сообщение");
}

#[test]
fn display_body_ignores_keys_of_non_objects() {
    assert_eq!(message("", "text", r#"["voice"]"#, false).display_body(), "Сообщение");
    assert_eq!(message("", "text", r#""voice""#, false).display_body(), "Сообщение");
}

#[test]
fn display_body_nested_keys_do_not_count() {
    assert_eq!(message("", "text", r#"{"meta": {"voice": 1}}"#, false).display_body(), "Сообщение");
}

#[test]
fn preview_uses_last_message() {
    let chat = ChatItem {
        conversation: conversation("group", "G", None),
        messages: vec![message("first", "", "null", false), message(" last ", "", "null", false)],
        pinned_messages: Vec::new(),
    };
    assert_eq!(chat.preview(), "last");
}

#[test]
fn preview_without_messages_uses_description() {
    let mut c = conversation("group", "G", None);
    c.description = "  about us ".to_string();
    let chat = ChatItem { conversation: c, messages: Vec::new(), pinned_messages: Vec::new() };
    assert_eq!(chat.preview(), "  about us ");
}

#[test]
fn preview_without_messages_or_description() {
    let mut c = conversation("group", "G", None);
    c.description = " \n ".to_string();
    let chat = ChatItem { conversation: c, messages: Vec::new(), pinned_messages: Vec::new() };
    assert_eq!(chat.preview(), "Сообщений пока нет");
}

#[test]
fn recipient_id_is_peer_or_zero() {
    let with_peer = ChatItem {
        conversation: conversation("private", "", Some(user("Bob", "", 0))),
        messages: Vec::new(),
        pinned_messages: Vec::new(),
    };
    assert_eq!(with_peer.recipient_id(), 7);
    let without = ChatItem {
        conversation: conversation("group", "", None),
        messages: Vec::new(),
        pinned_messages: Vec::new(),
    };
    assert_eq!(without.recipient_id(), 0);
}

#[test]
fn defaults_are_blank() {
    let m = Message::default();
    assert_eq!((m.id, m.sender_id), (0, 0));
    assert!(m.body.is_empty() && m.created_at.is_empty() && m.reactions.is_empty());
    assert!(m.metadata.is_null());
    assert_eq!(m.display_body(), "Сообщение");
    let c = Conversation::default();
    assert!(c.peer.is_none() && c.kind.is_empty() && !c.is_public);
    let chat = ChatItem::default();
    assert!(chat.messages.is_empty());
    assert_eq!(chat.preview(), "Сообщений пока нет");
    assert_eq!(chat.recipient_id(), 0);
    let r = Reaction::default();
    assert!(r.reaction.is_empty() && r.count == 0 && !r.mine && !r.paid);
    let e = Envelope::default();
    assert!(!e.ok && e.message.is_empty());
    let f = UploadFile::default();
    assert!(f.id == 0 && f.name.is_empty() && f.url.is_empty());
    assert!(UploadResponse::default().file.mime.is_empty());
    assert!(LoginResponse::default().user.name.is_empty());
    assert!(MeResponse::default().user.email.is_empty());
    assert!(ChatListResponse::default().items.is_empty());
    assert!(ConversationResponse::default().pinned_messages.is_empty());
    assert!(SendResponse::default().messages.is_empty());
    assert_eq!(SingleConversationResponse::default().conversation.id, 0);
}
