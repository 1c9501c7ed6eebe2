use onix_desktop::clock::{clock_label, message_time};
use onix_desktop::models::{ChatItem, Conversation, Message, User};
use onix_desktop::screens::{
    chat_row, conversation_subtitle, message_row, outgoing_text, poll_plan, selected_chat,
    simple_action_notice, target_chat,
};

fn conversation(kind: &str, title: &str) -> Conversation {
    Conversation {
        id: 1,
        public_id: 0,
        kind: kind.to_string(),
        title: title.to_string(),
        description: String::new(),
        avatar_url: String::new(),
        avatar_data: String::new(),
        member_count: 3,
        members_count: 12,
        peer: None,
        current_user_role: String::new(),
        can_admin: false,
        is_public: false,
    }
}

fn message(sender_id: i64, body: &str) -> Message {
    Message {
        id: 1,
        conversation_id: 1,
        sender_id,
        sender_name: "Ann".to_string(),
        sender_username: String::new(),
        sender_avatar_data: String::new(),
        body: body.to_string(),
        kind: String::new(),
        metadata: serde_json::Value::Null,
        created_at: String::new(),
        deleted: false,
        pinned: false,
        reactions: Vec::new(),
    }
}

#[test]
fn chat_row_fields() {
    let chat = ChatItem {
        conversation: conversation("group", " alpha team "),
        messages: vec![message(1, " see you ")],
        pinned_messages: Vec::new(),
    };
    let row = chat_row(&chat);
    assert_eq!(row.title, "alpha team");
    assert_eq!(row.preview, "see you");
    assert_eq!(row.time, "");
    assert_eq!(row.unread, 0);
    assert_eq!(row.avatar_text, "A");
    assert_eq!(row.kind, "group");
}

#[test]
fn chat_row_avatar_unicode_upper_case() {
    let chat = ChatItem { conversation: conversation("group", "ßeta"), messages: Vec::new(), pinned_messages: Vec::new() };
    assert_eq!(chat_row(&chat).avatar_text, "SS");
    let chat = ChatItem { conversation: conversation("channel", "новости"), messages: Vec::new(), pinned_messages: Vec::new() };
    assert_eq!(chat_row(&chat).avatar_text, "Н");
}

#[test]
fn message_row_fields() {
    let row = message_row(&message(5, "hi"), 5);
    assert!(row.mine);
    assert!(!row.system);
    assert_eq!((row.sender.as_str(), row.body.as_str(), row.time.as_str()), ("Ann", "hi", ""));
    assert!(!message_row(&message(5, "hi"), 6).mine);
}

#[test]
fn subtitles() {
    assert_eq!(conversation_subtitle(&conversation("group", "")), "12 участников");
    assert_eq!(conversation_subtitle(&conversation("channel", "")), "канал");
    assert_eq!(conversation_subtitle(&conversation("saved", "")), "личное облако");
    assert_eq!(conversation_subtitle(&conversation("private", "")), "");
    let mut c = conversation("private", "");
    let mut peer = User::default();
    peer.online = true;
    c.peer = Some(peer.clone());
    assert_eq!(conversation_subtitle(&c), "в сети");
    peer.online = false;
    c.peer = Some(peer);
    assert_eq!(conversation_subtitle(&c), "не в сети");
}

#[test]
fn outgoing_text_trims_and_skips_blank() {
    assert_eq!(outgoing_text("  hello \n"), Some("hello".to_string()));
    assert_eq!(outgoing_text(" \t "), None);
}

#[test]
fn notices() {
    assert_eq!(simple_action_notice("qr"), "QR-вход будет подключён к серверному QR API после его добавления.");
    assert_eq!(simple_action_notice("forgot"), "Восстановление пароля выполняется через администратора Onix.");
    assert_eq!(simple_action_notice("call"), "Нативный аудиозвонок будет открыт в следующем медиамодуле.");
    assert_eq!(simple_action_notice("video"), "Нативный видеозвонок будет открыт в следующем медиамодуле.");
    assert_eq!(simple_action_notice("stories"), "Раздел открыт в нативном интерфейсе Onix.");
}

#[test]
fn polling_only_when_signed_in() {
    let p = poll_plan(true, Some(2));
    assert!(p.refresh_chats);
    assert_eq!(p.reopen, Some(2));
    let q = poll_plan(false, Some(2));
    assert!(!q.refresh_chats);
    assert_eq!(q.reopen, None);
}

fn local_hh_mm(raw: &str) -> String {
    chrono::DateTime::parse_from_rfc3339(raw)
        .unwrap()
        .with_timezone(&chrono::Local)
        .format("%H:%M")
        .to_string()
}

#[test]
fn message_time_is_local_hours_and_minutes() {
    let raw = "2024-03-05T07:04:09Z";
    let shown = message_time(raw);
    assert_eq!(shown, local_hh_mm(raw));
    let bytes = shown.as_bytes();
    assert_eq!(bytes.len(), 5);
    assert_eq!(bytes[2], b':');
    assert!(bytes.iter().enumerate().all(|(i, b)| i == 2 || b.is_ascii_digit()));
    assert_eq!(message_time("2024-03-05T23:59:00+03:00"), local_hh_mm("2024-03-05T23:59:00+03:00"));
}

#[test]
fn message_time_of_unreadable_timestamp_is_empty() {
    assert_eq!(message_time(""), "");
    assert_eq!(message_time("yesterday"), "");
    assert_eq!(message_time("2024-03-05 07:04"), "");
}

#[test]
fn rows_show_the_time_of_the_message() {
    let mut m = message(1, "hi");
    m.created_at = "2024-03-05T07:04:09+00:00".to_string();
    let mut older = message(2, "before");
    older.created_at = "2024-03-04T10:00:00+00:00".to_string();
    assert_eq!(message_row(&m, 1).time, local_hh_mm("2024-03-05T07:04:09+00:00"));
    let chat = ChatItem {
        conversation: conversation("group", "team"),
        messages: vec![older, m],
        pinned_messages: Vec::new(),
    };
    assert_eq!(chat_row(&chat).time, local_hh_mm("2024-03-05T07:04:09+00:00"));
}

#[test]
fn clock_labels_pad_to_two_digits() {
    assert_eq!(clock_label(7, 4), "07:04");
    assert_eq!(clock_label(23, 59), "23:59");
    assert_eq!(clock_label(0, 0), "00:00");
}

#[test]
fn chat_selection_and_target() {
    assert_eq!(selected_chat(3), Some(3));
    assert_eq!(selected_chat(0), Some(0));
    assert_eq!(selected_chat(-1), None);
    assert_eq!(target_chat(Some(1), 2), Some(1));
    assert_eq!(target_chat(Some(2), 2), None);
    assert_eq!(target_chat(None, 5), None);
}
