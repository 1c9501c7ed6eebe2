//! The server's data model (users, conversations, messages, chats and the
//! response envelopes) and how the client names and summarises them.
use crate::json::{json_has_key, object_keys};
use crate::number::{decimal_i64, decimal_text};
use crate::text::{
    has_content, has_text, same_text, trim, trim_start_matches, trim_start_spec, trimmed,
    eq_ignore_ascii_case, eq_ignore_ascii_case_spec, CharClass,
};
use vstd::prelude::*;

verus! {

/// An Onix account.
#[derive(Clone, Debug)]
pub struct User {
    pub id: i64,
    pub public_id: i64,
    pub name: String,
    pub email: String,
    pub username: String,
    pub bio: String,
    pub phone: String,
    pub birthday: String,
    pub avatar_url: String,
    pub avatar_data: String,
    pub online: bool,
    pub is_premium: bool,
    pub is_admin: bool,
}

impl User {
    /// Every field zero, false or empty: what `default` gives.
    pub open spec fn is_blank(self) -> bool {
        &&& self.id == 0
        &&& self.public_id == 0
        &&& self.name@.len() == 0
        &&& self.email@.len() == 0
        &&& self.username@.len() == 0
        &&& self.bio@.len() == 0
        &&& self.phone@.len() == 0
        &&& self.birthday@.len() == 0
        &&& self.avatar_url@.len() == 0
        &&& self.avatar_data@.len() == 0
        &&& !self.online
        &&& !self.is_premium
        &&& !self.is_admin
    }
}

impl Default for User {
    fn default() -> (u: User)
        ensures
            u.is_blank(),
    {
        User {
            id: 0,
            public_id: 0,
            name: String::new(),
            email: String::new(),
            username: String::new(),
            bio: String::new(),
            phone: String::new(),
            birthday: String::new(),
            avatar_url: String::new(),
            avatar_data: String::new(),
            online: false,
            is_premium: false,
            is_admin: false,
        }
    }
}

impl User {
    /// The name shown for a user: the trimmed name; else `@` and the trimmed
    /// username without its leading `@`s; else `Onix ` and the public id when
    /// it is positive; else `Пользователь`.
    pub open spec fn display_name_spec(self) -> Seq<char> {
        if has_content(self.name@) {
            trimmed(self.name@)
        } else if has_content(self.username@) {
            seq!['@'] + trim_start_spec(trimmed(self.username@), CharClass::Only('@'))
        } else if self.public_id > 0 {
            "Onix "@ + decimal_text(self.public_id as int)
        } else {
            "Пользователь"@
        }
    }

    pub fn display_name(&self) -> (r: String)
        ensures
            r@ == self.display_name_spec(),
            r@.len() > 0,
    {
        let name = trim(self.name.as_str());
        if !name.is_empty() {
            return name.to_owned();
        }
        let username = trim(self.username.as_str());
        if !username.is_empty() {
            let mut r = String::from_str("@");
            r.append(trim_start_matches(username, '@'));
            proof {
                reveal_strlit("@");
                assert(r@ =~= self.display_name_spec());
            }
            return r;
        }
        if self.public_id > 0 {
            let mut r = String::from_str("Onix ");
            let digits = decimal_i64(self.public_id);
            r.append(digits.as_str());
            proof {
                reveal_strlit("Onix ");
            }
            return r;
        }
        proof {
            reveal_strlit("Пользователь");
        }
        String::from_str("Пользователь")
    }
}

/// A conversation: a private chat, a group, a channel or the saved-messages
/// chat.
#[derive(Clone, Debug)]
pub struct Conversation {
    pub id: i64,
    pub public_id: i64,
    pub kind: String,
    pub title: String,
    pub description: String,
    pub avatar_url: String,
    pub avatar_data: String,
    pub member_count: i64,
    pub members_count: i64,
    pub peer: Option<User>,
    pub current_user_role: String,
    pub can_admin: bool,
    pub is_public: bool,
}

impl Conversation {
    /// Every field zero, false, empty or absent: what `default` gives.
    pub open spec fn is_blank(self) -> bool {
        &&& self.id == 0
        &&& self.public_id == 0
        &&& self.kind@.len() == 0
        &&& self.title@.len() == 0
        &&& self.description@.len() == 0
        &&& self.avatar_url@.len() == 0
        &&& self.avatar_data@.len() == 0
        &&& self.member_count == 0
        &&& self.members_count == 0
        &&& self.peer is None
        &&& self.current_user_role@.len() == 0
        &&& !self.can_admin
        &&& !self.is_public
    }
}

impl Default for Conversation {
    fn default() -> (r: Conversation)
        ensures
            r.is_blank(),
    {
        Conversation {
            id: 0,
            public_id: 0,
            kind: String::new(),
            title: String::new(),
            description: String::new(),
            avatar_url: String::new(),
            avatar_data: String::new(),
            member_count: 0,
            members_count: 0,
            peer: None,
            current_user_role: String::new(),
            can_admin: false,
            is_public: false,
        }
    }
}

/// The fallback title of a conversation of the given kind.
pub open spec fn kind_title(kind: Seq<char>) -> Seq<char> {
    if kind == "saved"@ {
        "Избранное"@
    } else if kind == "group"@ {
        "Группа"@
    } else if kind == "channel"@ {
        "Канал"@
    } else {
        "Диалог"@
    }
}

fn kind_title_text(kind: &str) -> (r: String)
    ensures
        r@ == kind_title(kind@),
        r@.len() > 0,
{
    proof {
        reveal_strlit("saved");
        reveal_strlit("group");
        reveal_strlit("channel");
        reveal_strlit("Избранное");
        reveal_strlit("Группа");
        reveal_strlit("Канал");
        reveal_strlit("Диалог");
    }
    if same_text(kind, "saved") {
        String::from_str("Избранное")
    } else if same_text(kind, "group") {
        String::from_str("Группа")
    } else if same_text(kind, "channel") {
        String::from_str("Канал")
    } else {
        String::from_str("Диалог")
    }
}

impl Conversation {
    /// Whether the conversation is a private chat with a known peer (kind
    /// `private` in any ASCII case).
    pub open spec fn is_private_with_peer(self) -> bool {
        eq_ignore_ascii_case_spec(self.kind@, "private"@) && self.peer is Some
    }

    /// The title shown for a conversation: the peer's name in a private
    /// chat; else the trimmed title; else a name for the conversation's kind.
    pub open spec fn display_title_spec(self) -> Seq<char> {
        if self.is_private_with_peer() {
            self.peer->Some_0.display_name_spec()
        } else if has_content(self.title@) {
            trimmed(self.title@)
        } else {
            kind_title(self.kind@)
        }
    }

    pub fn display_title(&self) -> (r: String)
        ensures
            r@ == self.display_title_spec(),
            r@.len() > 0,
    {
        if eq_ignore_ascii_case(self.kind.as_str(), "private") {
            if let Some(peer) = &self.peer {
                return peer.display_name();
            }
        }
        let title = trim(self.title.as_str());
        if !title.is_empty() {
            return title.to_owned();
        }
        kind_title_text(self.kind.as_str())
    }
}

/// A reaction under a message.
#[derive(Clone, Debug)]
pub struct Reaction {
    pub reaction: String,
    pub count: i64,
    pub mine: bool,
    pub paid: bool,
}

impl Reaction {
    /// Every field zero, false, empty or absent: what `default` gives.
    pub open spec fn is_blank(self) -> bool {
        &&& self.reaction@.len() == 0
        &&& self.count == 0
        &&& !self.mine
        &&& !self.paid
    }
}

impl Default for Reaction {
    fn default() -> (r: Reaction)
        ensures
            r.is_blank(),
    {
        Reaction {
            reaction: String::new(),
            count: 0,
            mine: false,
            paid: false,
        }
    }
}

/// A chat message. `metadata` is the free-form JSON the server attaches
/// (voice notes, stickers, GIFs, files).
#[derive(Clone, Debug)]
pub struct Message {
    pub id: i64,
    pub conversation_id: i64,
    pub sender_id: i64,
    pub sender_name: String,
    pub sender_username: String,
    pub sender_avatar_data: String,
    pub body: String,
    pub kind: String,
    pub metadata: serde_json::Value,
    pub created_at: String,
    pub deleted: bool,
    pub pinned: bool,
    pub reactions: Vec<Reaction>,
}

impl Message {
    /// Every field zero, false, empty or absent: what `default` gives.
    pub open spec fn is_blank(self) -> bool {
        &&& self.id == 0
        &&& self.conversation_id == 0
        &&& self.sender_id == 0
        &&& self.sender_name@.len() == 0
        &&& self.sender_username@.len() == 0
        &&& self.sender_avatar_data@.len() == 0
        &&& self.body@.len() == 0
        &&& self.kind@.len() == 0
        &&& object_keys(self.metadata) == Set::<Seq<char>>::empty()
        &&& self.created_at@.len() == 0
        &&& !self.deleted
        &&& !self.pinned
        &&& self.reactions@.len() == 0
    }
}

impl Default for Message {
    fn default() -> (r: Message)
        ensures
            r.is_blank(),
    {
        Message {
            id: 0,
            conversation_id: 0,
            sender_id: 0,
            sender_name: String::new(),
            sender_username: String::new(),
            sender_avatar_data: String::new(),
            body: String::new(),
            kind: String::new(),
            metadata: serde_json::Value::default(),
            created_at: String::new(),
            deleted: false,
            pinned: false,
            reactions: Vec::new(),
        }
    }
}

impl Message {
    /// Whether the metadata object has the key, or the message is of the
    /// matching kind.
    pub open spec fn marked(self, key: Seq<char>, kind: Seq<char>) -> bool {
        object_keys(self.metadata).contains(key) || self.kind@ == kind
    }

    /// The text shown for a message: a deletion notice; else the trimmed
    /// body; else a label for a voice note, sticker, GIF or file; else
    /// `Сообщение`.
    pub open spec fn display_body_spec(self) -> Seq<char> {
        if self.deleted {
            "Сообщение удалено"@
        } else if has_content(self.body@) {
            trimmed(self.body@)
        } else if self.marked("voice"@, "voice"@) {
            "Голосовое сообщение"@
        } else if self.marked("sticker"@, "sticker"@) {
            "Стикер"@
        } else if self.marked("gif"@, "gif"@) {
            "GIF"@
        } else if self.marked("files"@, "file"@) {
            "Файл"@
        } else {
            "Сообщение"@
        }
    }

    fn is_marked(&self, key: &str, kind: &str) -> (b: bool)
        ensures
            b == self.marked(key@, kind@),
    {
        json_has_key(&self.metadata, key) || same_text(self.kind.as_str(), kind)
    }

    pub fn display_body(&self) -> (r: String)
        ensures
            r@ == self.display_body_spec(),
            r@.len() > 0,
    {
        proof {
            reveal_strlit("Сообщение удалено");
            reveal_strlit("Голосовое сообщение");
            reveal_strlit("Стикер");
            reveal_strlit("GIF");
            reveal_strlit("Файл");
            reveal_strlit("Сообщение");
        }
        if self.deleted {
            return String::from_str("Сообщение удалено");
        }
        let body = trim(self.body.as_str());
        if !body.is_empty() {
            return body.to_owned();
        }
        if self.is_marked("voice", "voice") {
            return String::from_str("Голосовое сообщение");
        }
        if self.is_marked("sticker", "sticker") {
            return String::from_str("Стикер");
        }
        if self.is_marked("gif", "gif") {
            return String::from_str("GIF");
        }
        if self.is_marked("files", "file") {
            return String::from_str("Файл");
        }
        String::from_str("Сообщение")
    }
}

/// A conversation as the chat list shows it, with its recent messages.
#[derive(Clone, Debug)]
pub struct ChatItem {
    pub conversation: Conversation,
    pub messages: Vec<Message>,
    pub pinned_messages: Vec<Message>,
}

impl ChatItem {
    /// Every field zero, false, empty or absent: what `default` gives.
    pub open spec fn is_blank(self) -> bool {
        &&& self.conversation.is_blank()
        &&& self.messages@.len() == 0
        &&& self.pinned_messages@.len() == 0
    }
}

impl Default for ChatItem {
    fn default() -> (r: ChatItem)
        ensures
            r.is_blank(),
    {
        ChatItem {
            conversation: Conversation::default(),
            messages: Vec::new(),
            pinned_messages: Vec::new(),
        }
    }
}

impl ChatItem {
    /// The line under a chat in the list: the last message's text; with no
    /// messages, the description, or `Сообщений пока нет` when that is blank.
    pub open spec fn preview_spec(self) -> Seq<char> {
        if self.messages@.len() > 0 {
            self.messages@.last().display_body_spec()
        } else if has_content(self.conversation.description@) {
            self.conversation.description@
        } else {
            "Сообщений пока нет"@
        }
    }

    pub fn preview(&self) -> (r: String)
        ensures
            r@ == self.preview_spec(),
            r@.len() > 0,
    {
        let n: usize = self.messages.len();
        if n > 0 {
            return self.messages[n - 1].display_body();
        }
        if has_text(self.conversation.description.as_str()) {
            proof {
                crate::text::lemma_trimmed_len(self.conversation.description@);
            }
            self.conversation.description.clone()
        } else {
            proof {
                reveal_strlit("Сообщений пока нет");
            }
            String::from_str("Сообщений пока нет")
        }
    }

    /// The user a message in this chat goes to: the peer's id, or 0.
    pub open spec fn recipient_id_spec(self) -> i64 {
        match self.conversation.peer {
            Some(p) => p.id,
            None => 0,
        }
    }

    pub fn recipient_id(&self) -> (r: i64)
        ensures
            r == self.recipient_id_spec(),
    {
        match &self.conversation.peer {
            Some(p) => p.id,
            None => 0,
        }
    }
}

/// The `ok` / `message` pair every response carries.
#[derive(Clone, Debug)]
pub struct Envelope {
    pub ok: bool,
    pub message: String,
}

impl Envelope {
    /// Every field zero, false, empty or absent: what `default` gives.
    pub open spec fn is_blank(self) -> bool {
        &&& !self.ok
        &&& self.message@.len() == 0
    }
}

impl Default for Envelope {
    fn default() -> (r: Envelope)
        ensures
            r.is_blank(),
    {
        Envelope {
            ok: false,
            message: String::new(),
        }
    }
}

/// The answer to a login or a registration.
#[derive(Clone, Debug)]
pub struct LoginResponse {
    pub envelope: Envelope,
    pub user: User,
}

impl LoginResponse {
    /// Every field zero, false, empty or absent: what `default` gives.
    pub open spec fn is_blank(self) -> bool {
        &&& self.envelope.is_blank()
        &&& self.user.is_blank()
    }
}

impl Default for LoginResponse {
    fn default() -> (r: LoginResponse)
        ensures
            r.is_blank(),
    {
        LoginResponse {
            envelope: Envelope::default(),
            user: User::default(),
        }
    }
}

/// The answer to the current-user request.
#[derive(Clone, Debug)]
pub struct MeResponse {
    pub envelope: Envelope,
    pub user: User,
}

impl MeResponse {
    /// Every field zero, false, empty or absent: what `default` gives.
    pub open spec fn is_blank(self) -> bool {
        &&& self.envelope.is_blank()
        &&& self.user.is_blank()
    }
}

impl Default for MeResponse {
    fn default() -> (r: MeResponse)
        ensures
            r.is_blank(),
    {
        MeResponse {
            envelope: Envelope::default(),
            user: User::default(),
        }
    }
}

/// The chat list.
#[derive(Clone, Debug)]
pub struct ChatListResponse {
    pub envelope: Envelope,
    pub items: Vec<ChatItem>,
}

impl ChatListResponse {
    /// Every field zero, false, empty or absent: what `default` gives.
    pub open spec fn is_blank(self) -> bool {
        &&& self.envelope.is_blank()
        &&& self.items@.len() == 0
    }
}

impl Default for ChatListResponse {
    fn default() -> (r: ChatListResponse)
        ensures
            r.is_blank(),
    {
        ChatListResponse {
            envelope: Envelope::default(),
            items: Vec::new(),
        }
    }
}

/// One conversation with its messages.
#[derive(Clone, Debug)]
pub struct ConversationResponse {
    pub envelope: Envelope,
    pub conversation: Conversation,
    pub messages: Vec<Message>,
    pub pinned_messages: Vec<Message>,
}

impl ConversationResponse {
    /// Every field zero, false, empty or absent: what `default` gives.
    pub open spec fn is_blank(self) -> bool {
        &&& self.envelope.is_blank()
        &&& self.conversation.is_blank()
        &&& self.messages@.len() == 0
        &&& self.pinned_messages@.len() == 0
    }
}

impl Default for ConversationResponse {
    fn default() -> (r: ConversationResponse)
        ensures
            r.is_blank(),
    {
        ConversationResponse {
            envelope: Envelope::default(),
            conversation: Conversation::default(),
            messages: Vec::new(),
            pinned_messages: Vec::new(),
        }
    }
}

/// The answer to a sent message.
#[derive(Clone, Debug)]
pub struct SendResponse {
    pub envelope: Envelope,
    pub conversation: Conversation,
    pub messages: Vec<Message>,
}

impl SendResponse {
    /// Every field zero, false, empty or absent: what `default` gives.
    pub open spec fn is_blank(self) -> bool {
        &&& self.envelope.is_blank()
        &&& self.conversation.is_blank()
        &&& self.messages@.len() == 0
    }
}

impl Default for SendResponse {
    fn default() -> (r: SendResponse)
        ensures
            r.is_blank(),
    {
        SendResponse {
            envelope: Envelope::default(),
            conversation: Conversation::default(),
            messages: Vec::new(),
        }
    }
}

/// The answer to a created conversation.
#[derive(Clone, Debug)]
pub struct SingleConversationResponse {
    pub envelope: Envelope,
    pub conversation: Conversation,
}

impl SingleConversationResponse {
    /// Every field zero, false, empty or absent: what `default` gives.
    pub open spec fn is_blank(self) -> bool {
        &&& self.envelope.is_blank()
        &&& self.conversation.is_blank()
    }
}

impl Default for SingleConversationResponse {
    fn default() -> (r: SingleConversationResponse)
        ensures
            r.is_blank(),
    {
        SingleConversationResponse {
            envelope: Envelope::default(),
            conversation: Conversation::default(),
        }
    }
}

/// A file the server stored.
#[derive(Clone, Debug)]
pub struct UploadFile {
    pub id: i64,
    pub name: String,
    pub mime: String,
    pub size: i64,
    pub url: String,
    pub kind: String,
}

impl UploadFile {
    /// Every field zero, false, empty or absent: what `default` gives.
    pub open spec fn is_blank(self) -> bool {
        &&& self.id == 0
        &&& self.name@.len() == 0
        &&& self.mime@.len() == 0
        &&& self.size == 0
        &&& self.url@.len() == 0
        &&& self.kind@.len() == 0
    }
}

impl Default for UploadFile {
    fn default() -> (r: UploadFile)
        ensures
            r.is_blank(),
    {
        UploadFile {
            id: 0,
            name: String::new(),
            mime: String::new(),
            size: 0,
            url: String::new(),
            kind: String::new(),
        }
    }
}

/// The answer to an upload.
#[derive(Clone, Debug)]
pub struct UploadResponse {
    pub envelope: Envelope,
    pub file: UploadFile,
}

impl UploadResponse {
    /// Every field zero, false, empty or absent: what `default` gives.
    pub open spec fn is_blank(self) -> bool {
        &&& self.envelope.is_blank()
        &&& self.file.is_blank()
    }
}

impl Default for UploadResponse {
    fn default() -> (r: UploadResponse)
        ensures
            r.is_blank(),
    {
        UploadResponse {
            envelope: Envelope::default(),
            file: UploadFile::default(),
        }
    }
}


/// A user who has a name (anything but white space) is shown by that name,
/// trimmed at both ends and otherwise whole, inner spaces included; the
/// username and public id do not matter then.
pub proof fn lemma_named_user_shown_by_name(u: User)
    requires
        has_content(u.name@),
    ensures
        u.display_name_spec() == trimmed(u.name@),
{
}

/// A private chat (the kind `private` in any ASCII case) with a peer is
/// titled by the peer's display name, whatever the chat's own title: the
/// peer's trimmed name; without a name, `@` and the username without its
/// leading `@`s; without either, `Onix ` and a positive public id.
pub proof fn lemma_private_chat_titled_by_peer(c: Conversation)
    requires
        eq_ignore_ascii_case_spec(c.kind@, "private"@),
        c.peer is Some,
    ensures
        c.display_title_spec() == c.peer->Some_0.display_name_spec(),
        has_content(c.peer->Some_0.name@) ==> c.display_title_spec() == trimmed(
            c.peer->Some_0.name@,
        ),
        !has_content(c.peer->Some_0.name@) && has_content(c.peer->Some_0.username@)
            ==> c.display_title_spec() == seq!['@'] + trim_start_spec(
            trimmed(c.peer->Some_0.username@),
            CharClass::Only('@'),
        ),
        !has_content(c.peer->Some_0.name@) && !has_content(c.peer->Some_0.username@)
            && c.peer->Some_0.public_id > 0 ==> c.display_title_spec() == "Onix "@ + decimal_text(
            c.peer->Some_0.public_id as int,
        ),
{
}

/// A chat with messages previews the text of its last message, whatever its
/// description says.
pub proof fn lemma_preview_is_last_message(chat: ChatItem)
    requires
        chat.messages@.len() > 0,
    ensures
        chat.preview_spec() == chat.messages@.last().display_body_spec(),
        forall|d: String|
            #![trigger (ChatItem { conversation: Conversation { description: d, ..chat.conversation }, ..chat }).preview_spec()]
            (ChatItem { conversation: Conversation { description: d, ..chat.conversation }, ..chat }).preview_spec()
                == chat.preview_spec(),
{
}

} // verus!
