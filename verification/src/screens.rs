//! What the window shows: the rows of the chat and message lists, the header
//! of an open conversation, short notices, and what the client does while it
//! starts and while it polls the server.
use crate::clock::{is_clock_of, message_time};
use crate::models::{ChatItem, Conversation, Message};
use crate::number::{decimal_i64, decimal_text};
use crate::text::{same_text, trim, trimmed};
use vstd::prelude::*;

verus! {

// ---------------------------------------------------------------------------
// Rows and headers
// ---------------------------------------------------------------------------

/// The upper-case form of a character (Unicode case mapping; it may be more
/// than one character).
pub uninterp spec fn upper_case(c: char) -> Seq<char>;

/// Calls `char::to_uppercase` and collects what it yields into a `String`.
/// Trusted: the result is `upper_case(c)`; for ASCII it is the usual mapping
/// (`a`..`z` to `A`..`Z`, every other ASCII character unchanged, as it has no
/// upper-case mapping). Beyond ASCII nothing is stated but the name.
#[verifier::external_body]
fn char_to_upper(c: char) -> (s: String)
    ensures
        s@ == upper_case(c),
        'a' <= c <= 'z' ==> s@ == seq![((c as u32) - 32) as char],
        (c as u32) < 128 && !('a' <= c <= 'z') ==> s@ == seq![c],
{
    c.to_uppercase().to_string()
}

/// A row of the chat list.
#[derive(Clone, Debug)]
pub struct ChatRowData {
    pub title: String,
    pub preview: String,
    pub time: String,
    pub unread: i32,
    pub avatar_text: String,
    pub kind: String,
}

/// The letter on a chat's avatar: the first character of its title, upper
/// case (`O` for an empty title).
pub open spec fn avatar_text_spec(title: Seq<char>) -> Seq<char> {
    if title.len() > 0 {
        upper_case(title[0])
    } else {
        upper_case('O')
    }
}

/// The row for a chat: its title, the upper-case first letter of the title
/// on the avatar, the preview of its last message and that message's time
/// (empty when it has none).
pub fn chat_row(chat: &ChatItem) -> (r: ChatRowData)
    ensures
        r.title@ == chat.conversation.display_title_spec(),
        r.preview@ == chat.preview_spec(),
        chat.messages@.len() == 0 ==> r.time@.len() == 0,
        chat.messages@.len() > 0 ==> is_clock_of(chat.messages@.last().created_at@, r.time@),
        r.unread == 0,
        r.avatar_text@ == avatar_text_spec(chat.conversation.display_title_spec()),
        r.kind@ == chat.conversation.kind@,
{
    let title = chat.conversation.display_title();
    let first: char = if title.as_str().unicode_len() > 0 {
        title.as_str().get_char(0)
    } else {
        'O'
    };
    let avatar_text = char_to_upper(first);
    let time = if chat.messages.len() > 0 {
        message_time(chat.messages[chat.messages.len() - 1].created_at.as_str())
    } else {
        String::new()
    };
    ChatRowData {
        title,
        preview: chat.preview(),
        time,
        unread: 0,
        avatar_text,
        kind: chat.conversation.kind.clone(),
    }
}

/// A row of the message list.
#[derive(Clone, Debug)]
pub struct MessageRowData {
    pub sender: String,
    pub body: String,
    pub time: String,
    pub mine: bool,
    pub system: bool,
}

/// The row for a message: sender, body as shown, its time and whether the
/// signed-in user sent it.
pub fn message_row(message: &Message, current_user: i64) -> (r: MessageRowData)
    ensures
        r.sender@ == message.sender_name@,
        r.body@ == message.display_body_spec(),
        is_clock_of(message.created_at@, r.time@),
        r.mine == (message.sender_id == current_user),
        !r.system,
{
    MessageRowData {
        sender: message.sender_name.clone(),
        body: message.display_body(),
        time: message_time(message.created_at.as_str()),
        mine: message.sender_id == current_user,
        system: false,
    }
}

/// The line under an open conversation's title: the member count of a
/// group (the larger of the two counts the server sends), `канал` for a
/// channel, `личное облако` for saved messages, and for a private chat
/// whether the peer is online (nothing without a peer).
pub open spec fn subtitle_spec(c: Conversation) -> Seq<char> {
    if c.kind@ == "group"@ {
        decimal_text(
            if c.member_count >= c.members_count {
                c.member_count as int
            } else {
                c.members_count as int
            },
        ) + " участников"@
    } else if c.kind@ == "channel"@ {
        "канал"@
    } else if c.kind@ == "saved"@ {
        "личное облако"@
    } else {
        match c.peer {
            Some(p) => if p.online {
                "в сети"@
            } else {
                "не в сети"@
            },
            None => Seq::<char>::empty(),
        }
    }
}

/// A group's subtitle counts its members by the larger of the two counts
/// the server sends, so it never shows fewer than either of them.
pub proof fn lemma_group_subtitle_counts_members(c: Conversation)
    requires
        c.kind@ == "group"@,
    ensures
        c.member_count >= c.members_count ==> subtitle_spec(c) == decimal_text(
            c.member_count as int,
        ) + " участников"@,
        c.members_count > c.member_count ==> subtitle_spec(c) == decimal_text(
            c.members_count as int,
        ) + " участников"@,
{
}

pub fn conversation_subtitle(c: &Conversation) -> (r: String)
    ensures
        r@ == subtitle_spec(*c),
{
    proof {
        reveal_strlit("group");
        reveal_strlit("channel");
        reveal_strlit("saved");
        reveal_strlit(" участников");
        reveal_strlit("канал");
        reveal_strlit("личное облако");
        reveal_strlit("в сети");
        reveal_strlit("не в сети");
    }
    let kind = c.kind.as_str();
    if same_text(kind, "group") {
        let count: i64 = if c.member_count >= c.members_count {
            c.member_count
        } else {
            c.members_count
        };
        let mut r = decimal_i64(count);
        r.append(" участников");
        r
    } else if same_text(kind, "channel") {
        String::from_str("канал")
    } else if same_text(kind, "saved") {
        String::from_str("личное облако")
    } else {
        match &c.peer {
            Some(p) => if p.online {
                String::from_str("в сети")
            } else {
                String::from_str("не в сети")
            },
            None => String::new(),
        }
    }
}

/// The text of a message about to be sent: the input trimmed, or nothing to
/// send when it is blank.
pub fn outgoing_text(input: &str) -> (r: Option<String>)
    ensures
        r is Some <==> trimmed(input@).len() > 0,
        r matches Some(t) ==> t@ == trimmed(input@),
{
    let t = trim(input);
    if t.is_empty() {
        None
    } else {
        Some(t.to_owned())
    }
}

/// The notice for a menu entry that opens no screen of its own.
pub open spec fn action_notice(action: Seq<char>) -> Seq<char> {
    if action == "qr"@ {
        "QR-вход будет подключён к серверному QR API после его добавления."@
    } else if action == "forgot"@ {
        "Восстановление пароля выполняется через администратора Onix."@
    } else if action == "call"@ {
        "Нативный аудиозвонок будет открыт в следующем медиамодуле."@
    } else if action == "video"@ {
        "Нативный видеозвонок будет открыт в следующем медиамодуле."@
    } else {
        "Раздел открыт в нативном интерфейсе Onix."@
    }
}

pub fn simple_action_notice(action: &str) -> (r: String)
    ensures
        r@ == action_notice(action@),
{
    proof {
        reveal_strlit("qr");
        reveal_strlit("forgot");
        reveal_strlit("call");
        reveal_strlit("video");
    }
    if same_text(action, "qr") {
        String::from_str("QR-вход будет подключён к серверному QR API после его добавления.")
    } else if same_text(action, "forgot") {
        String::from_str("Восстановление пароля выполняется через администратора Onix.")
    } else if same_text(action, "call") {
        String::from_str("Нативный аудиозвонок будет открыт в следующем медиамодуле.")
    } else if same_text(action, "video") {
        String::from_str("Нативный видеозвонок будет открыт в следующем медиамодуле.")
    } else {
        String::from_str("Раздел открыт в нативном интерфейсе Onix.")
    }
}

/// The chat a click on row `index` opens: none for a negative index (no
/// row).
pub fn selected_chat(index: i32) -> (r: Option<usize>)
    ensures
        r is Some <==> index >= 0,
        r matches Some(i) ==> i == index,
{
    if index >= 0 {
        Some(index as usize)
    } else {
        None
    }
}

/// The chat a message or file goes to: the open chat, when one is open and
/// it is still in the list of `count` chats; otherwise nothing is sent.
pub fn target_chat(active: Option<usize>, count: usize) -> (r: Option<usize>)
    ensures
        r is Some <==> (active matches Some(i) && i < count),
        r is Some ==> r == active,
{
    match active {
        Some(i) => if i < count {
            Some(i)
        } else {
            None
        },
        None => None,
    }
}

// ---------------------------------------------------------------------------
// Polling
// ---------------------------------------------------------------------------

/// What one round of background polling refreshes.
#[derive(Clone, Copy, Debug)]
pub struct PollPlan {
    /// Reload the chat list.
    pub refresh_chats: bool,
    /// Reload this open conversation.
    pub reopen: Option<usize>,
}

/// A polling round: nothing while signed out; else the chat list and the
/// open conversation, if any.
pub fn poll_plan(signed_in: bool, active: Option<usize>) -> (p: PollPlan)
    ensures
        p.refresh_chats == signed_in,
        p.reopen == (if signed_in {
            active
        } else {
            None
        }),
{
    if signed_in {
        PollPlan { refresh_chats: true, reopen: active }
    } else {
        PollPlan { refresh_chats: false, reopen: None }
    }
}

} // verus!
