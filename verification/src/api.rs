//! What the HTTP client decides: the server address it talks to, the bodies
//! it sends, and how it reads the server's answers and errors.
use crate::text::{
    trim, trim_end_matches, trim_end_spec, trim_start_matches, trim_start_spec, trimmed,
    CharClass,
};
use crate::json::{json_string_field, json_string_field_of};
use crate::models::UploadFile;
use crate::screens::outgoing_text;
use crate::session::{captured, Session};
use vstd::prelude::*;

verus! {

/// Why a request failed.
#[derive(Clone, Debug)]
pub enum ApiError {
    /// The server answered with an error status and this message.
    Server(String),
    /// The server's answer was not the data the request expects.
    UnreadableResponse,
    /// The file to upload is larger than the server takes.
    FileTooLarge,
    /// The answer could not be received; the text says why.
    Transport(String),
}

/// The message shown when the server gives none.
pub open spec fn generic_server_error() -> Seq<char> {
    "Ошибка сервера Onix"@
}

/// The largest file the client uploads, in bytes (128 MiB).
pub open spec fn max_upload_len() -> nat {
    134217728
}

impl ApiError {
    /// The text shown to the user for the error.
    pub open spec fn message_spec(self) -> Seq<char> {
        match self {
            ApiError::Server(m) => m@,
            ApiError::UnreadableResponse => "не удалось разобрать ответ Onix"@,
            ApiError::FileTooLarge => "Файл больше 128 МБ"@,
            ApiError::Transport(m) => m@,
        }
    }

    pub fn message(&self) -> (r: String)
        ensures
            r@ == self.message_spec(),
    {
        match self {
            ApiError::Server(m) => m.clone(),
            ApiError::UnreadableResponse => {
                proof {
                    reveal_strlit("не удалось разобрать ответ Onix");
                }
                String::from_str("не удалось разобрать ответ Onix")
            },
            ApiError::FileTooLarge => {
                proof {
                    reveal_strlit("Файл больше 128 МБ");
                }
                String::from_str("Файл больше 128 МБ")
            },
            ApiError::Transport(m) => m.clone(),
        }
    }
}

/// The server address as the client keeps it: without trailing `/`.
pub fn base_url(base: &str) -> (r: String)
    ensures
        r@ == trim_end_spec(base@, CharClass::Only('/')),
        r@.len() == 0 || r@.last() != '/',
{
    proof {
        crate::text::lemma_trim_end_last(base@, CharClass::Only('/'));
    }
    trim_end_matches(base, '/').to_owned()
}

/// The address of an API path on the server.
pub fn endpoint(base: &str, path: &str) -> (r: String)
    ensures
        r@ == base@ + path@,
{
    let mut r = base.to_owned();
    r.append(path);
    r
}

/// Whether an HTTP status is a success (2xx), as `StatusCode::is_success`
/// defines it.
pub open spec fn is_success_spec(status: u16) -> bool {
    200 <= status < 300
}

pub fn is_success(status: u16) -> (b: bool)
    ensures
        b == is_success_spec(status),
{
    200 <= status && status < 300
}

/// The error text for a failed status: the string under `message` in the
/// body's JSON, or a generic text when there is none.
pub open spec fn server_error_text(body: Seq<u8>) -> Seq<char> {
    match json_string_field(body, "message"@) {
        Some(m) => m,
        None => generic_server_error(),
    }
}

/// Reads an answer (`decode`, once the session cookie is taken from it):
/// with an error status, the server's `message` from the JSON body or a
/// generic text; with a success status, the body read as the expected data
/// (`body`), or an error when it could not be.
pub fn decode_response<T>(status: u16, body_bytes: &[u8], body: Option<T>) -> (r: Result<
    T,
    ApiError,
>)
    ensures
        !is_success_spec(status) ==> (r matches Err(ApiError::Server(m)) && m@
            == server_error_text(body_bytes@)),
        is_success_spec(status) && body is Some ==> r == Ok::<T, ApiError>(body->Some_0),
        is_success_spec(status) && body is None ==> r matches Err(ApiError::UnreadableResponse),
{
    if !is_success(status) {
        let message = match json_string_field_of(body_bytes, "message") {
            Some(m) => m,
            None => {
                proof {
                    reveal_strlit("Ошибка сервера Onix");
                }
                String::from_str("Ошибка сервера Onix")
            },
        };
        return Err(ApiError::Server(message));
    }
    match body {
        Some(t) => Ok(t),
        None => Err(ApiError::UnreadableResponse),
    }
}

/// Takes in a server answer (`decode`): the session first takes the token
/// that the answer's `Set-Cookie` headers set, whatever becomes of the
/// rest; a body that could not be received fails with the reason; a
/// received body is read as `decode_response` reads it, `parsed` being the
/// body read as the expected data.
pub fn take_response<T>(
    session: &mut Session,
    set_cookie: &Vec<Option<String>>,
    status: u16,
    body: Result<(Vec<u8>, Option<T>), String>,
) -> (r: Result<T, ApiError>)
    ensures
        final(session)@ == captured(old(session)@, set_cookie@),
        body matches Err(e) ==> (r matches Err(ApiError::Transport(m)) && m@ == e@),
        body matches Ok((bytes, parsed)) ==> {
            &&& !is_success_spec(status) ==> (r matches Err(ApiError::Server(m)) && m@
                == server_error_text(bytes@))
            &&& is_success_spec(status) && parsed is Some ==> r == Ok::<T, ApiError>(
                parsed->Some_0,
            )
            &&& is_success_spec(status) && parsed is None ==> r matches Err(
                ApiError::UnreadableResponse,
            )
        },
{
    session.capture(set_cookie);
    match body {
        Err(e) => Err(ApiError::Transport(e)),
        Ok((bytes, parsed)) => decode_response(status, bytes.as_slice(), parsed),
    }
}

/// Refuses a file larger than 128 MiB before it is sent.
pub fn check_upload_size(len: usize) -> (r: Result<(), ApiError>)
    ensures
        r is Ok <==> len <= max_upload_len(),
        r matches Err(e) ==> e is FileTooLarge,
{
    if len > 134217728 {
        Err(ApiError::FileTooLarge)
    } else {
        Ok(())
    }
}

/// The name an uploaded file is sent under: its own, or `onix-file` when
/// the path has none that is valid text.
pub fn upload_name(file_name: Option<String>) -> (r: String)
    ensures
        r@ == (match file_name {
            Some(n) => n@,
            None => "onix-file"@,
        }),
{
    match file_name {
        Some(n) => n,
        None => {
            proof {
                reveal_strlit("onix-file");
            }
            String::from_str("onix-file")
        },
    }
}

/// The body of a login request.
#[derive(Clone, Debug)]
pub struct LoginPayload {
    pub identifier: String,
    pub password: String,
}

/// A login with the trimmed identifier and the password as typed.
pub fn login_payload(identifier: &str, password: &str) -> (p: LoginPayload)
    ensures
        p.identifier@ == trimmed(identifier@),
        p.password@ == password@,
{
    LoginPayload { identifier: trim(identifier).to_owned(), password: password.to_owned() }
}

/// The body of a registration request.
#[derive(Clone, Debug)]
pub struct RegisterPayload {
    pub name: String,
    pub email: String,
    pub username: String,
    pub birthday: String,
    pub password: String,
    pub password_confirm: String,
}

/// A registration: trimmed name and e-mail, the trimmed username without
/// leading `@`s, no birthday, and the passwords as typed.
pub fn register_payload(
    name: &str,
    email: &str,
    username: &str,
    password: &str,
    confirm: &str,
) -> (p: RegisterPayload)
    ensures
        p.name@ == trimmed(name@),
        p.email@ == trimmed(email@),
        p.username@ == trim_start_spec(trimmed(username@), CharClass::Only('@')),
        p.birthday@.len() == 0,
        p.password@ == password@,
        p.password_confirm@ == confirm@,
{
    RegisterPayload {
        name: trim(name).to_owned(),
        email: trim(email).to_owned(),
        username: trim_start_matches(trim(username), '@').to_owned(),
        birthday: String::new(),
        password: password.to_owned(),
        password_confirm: confirm.to_owned(),
    }
}

/// The body of a request that creates a conversation.
#[derive(Clone, Debug)]
pub struct NewConversationPayload {
    pub kind: String,
    pub title: String,
    pub description: String,
    pub member_ids: Vec<i64>,
    pub is_public: bool,
}

/// A new conversation of the given kind with trimmed title and description,
/// no members yet, and not public.
pub fn new_conversation_payload(kind: &str, title: &str, description: &str) -> (p:
    NewConversationPayload)
    ensures
        p.kind@ == kind@,
        p.title@ == trimmed(title@),
        p.description@ == trimmed(description@),
        p.member_ids@.len() == 0,
        !p.is_public,
{
    NewConversationPayload {
        kind: kind.to_owned(),
        title: trim(title).to_owned(),
        description: trim(description).to_owned(),
        member_ids: Vec::new(),
        is_public: false,
    }
}


/// A file as a message's metadata lists it.
#[derive(Clone, Debug)]
pub struct FileAttachment {
    pub id: i64,
    pub name: String,
    pub url: String,
    pub mime: String,
    pub size: i64,
}

/// The metadata sent with a message: its kind and, for a file message, the
/// files it carries.
#[derive(Clone, Debug)]
pub struct MessageMetadata {
    pub kind: String,
    pub files: Option<Vec<FileAttachment>>,
}

/// The metadata of a text message: kind `text`, no files.
pub fn text_message_metadata() -> (m: MessageMetadata)
    ensures
        m.kind@ == "text"@,
        m.files is None,
{
    MessageMetadata { kind: String::from_str("text"), files: None }
}

/// The metadata of a message that carries one uploaded file: kind `file`
/// and the file's id, name, address, type and size.
pub fn file_message_metadata(file: &UploadFile) -> (m: MessageMetadata)
    ensures
        m.kind@ == "file"@,
        m.files matches Some(files) && files@.len() == 1 && files@[0].id == file.id
            && files@[0].name@ == file.name@ && files@[0].url@ == file.url@ && files@[0].mime@
            == file.mime@ && files@[0].size == file.size,
{
    let attachment = FileAttachment {
        id: file.id,
        name: file.name.clone(),
        url: file.url.clone(),
        mime: file.mime.clone(),
        size: file.size,
    };
    let mut files: Vec<FileAttachment> = Vec::new();
    files.push(attachment);
    MessageMetadata { kind: String::from_str("file"), files: Some(files) }
}


/// A message about to be sent: its body and its metadata.
#[derive(Clone, Debug)]
pub struct OutgoingMessage {
    pub body: String,
    pub metadata: MessageMetadata,
}

/// The text message for what was typed: the trimmed input with text
/// metadata, or nothing to send when the input is blank.
pub fn text_message(input: &str) -> (r: Option<OutgoingMessage>)
    ensures
        r is Some <==> trimmed(input@).len() > 0,
        r matches Some(m) ==> m.body@ == trimmed(input@) && m.metadata.kind@ == "text"@
            && m.metadata.files is None,
{
    match outgoing_text(input) {
        Some(body) => Some(OutgoingMessage { body, metadata: text_message_metadata() }),
        None => None,
    }
}

/// The message that carries an uploaded file: an empty body and the file's
/// metadata.
pub fn file_message(file: &UploadFile) -> (m: OutgoingMessage)
    ensures
        m.body@.len() == 0,
        m.metadata.kind@ == "file"@,
        m.metadata.files matches Some(files) && files@.len() == 1 && files@[0].id == file.id
            && files@[0].name@ == file.name@ && files@[0].url@ == file.url@ && files@[0].mime@
            == file.mime@ && files@[0].size == file.size,
{
    OutgoingMessage { body: String::new(), metadata: file_message_metadata(file) }
}

} // verus!
