use onix_desktop::api::{
    base_url, check_upload_size, decode_response, endpoint, file_message, file_message_metadata,
    is_success, login_payload, new_conversation_payload, register_payload, take_response,
    text_message, text_message_metadata, upload_name, ApiError,
};
use onix_desktop::session::Session;
use onix_desktop::models::UploadFile;

#[test]
fn base_url_drops_trailing_slashes() {
    assert_eq!(base_url("http://localhost:8080//"), "http://localhost:8080");
    assert_eq!(endpoint(&base_url("http://h/"), "/api/health"), "http://h/api/health");
}

#[test]
fn success_statuses() {
    assert!(is_success(200));
    assert!(is_success(299));
    assert!(!is_success(199));
    assert!(!is_success(300));
    assert!(!is_success(404));
}

#[test]
fn decode_error_uses_server_message() {
    let body = r#"{"ok":false,"message":"Неверный пароль"}"#.as_bytes();
    let r: Result<u8, ApiError> = decode_response(401, body, Some(1));
    assert_eq!(r.unwrap_err().message(), "Неверный пароль");
}

#[test]
fn decode_error_without_message() {
    let r: Result<u8, ApiError> = decode_response(500, b"<html>bad gateway</html>", None);
    assert_eq!(r.unwrap_err().message(), "Ошибка сервера Onix");
    let r: Result<u8, ApiError> = decode_response(404, br#"{"ok":false}"#, None);
    assert_eq!(r.unwrap_err().message(), "Ошибка сервера Onix");
    let r: Result<u8, ApiError> = decode_response(400, br#"{"message":42}"#, None);
    assert_eq!(r.unwrap_err().message(), "Ошибка сервера Onix");
    let r: Result<u8, ApiError> = decode_response(400, br#"["message"]"#, None);
    assert_eq!(r.unwrap_err().message(), "Ошибка сервера Onix");
}

#[test]
fn decode_success() {
    let r: Result<u8, ApiError> = decode_response(200, br#"{"message":"ignored"}"#, Some(5));
    assert_eq!(r.unwrap(), 5);
    let bad: Result<u8, ApiError> = decode_response(204, b"", None);
    let e = bad.unwrap_err();
    assert!(matches!(e, ApiError::UnreadableResponse));
    assert_eq!(e.message(), "не удалось разобрать ответ Onix");
}

#[test]
fn upload_limit() {
    assert!(check_upload_size(128 * 1024 * 1024).is_ok());
    let e = check_upload_size(128 * 1024 * 1024 + 1).unwrap_err();
    assert_eq!(e.message(), "Файл больше 128 МБ");
}

#[test]
fn upload_names() {
    assert_eq!(upload_name(Some("a.png".to_string())), "a.png");
    assert_eq!(upload_name(None), "onix-file");
}

#[test]
fn payloads_are_trimmed() {
    let l = login_payload("  anna@example.org ", " pw ");
    assert_eq!((l.identifier.as_str(), l.password.as_str()), ("anna@example.org", " pw "));
    let r = register_payload(" Anna ", " a@b.c ", "  @@anna ", "p", "q");
    assert_eq!(r.name, "Anna");
    assert_eq!(r.email, "a@b.c");
    assert_eq!(r.username, "anna");
    assert_eq!(r.birthday, "");
    assert_eq!((r.password.as_str(), r.password_confirm.as_str()), ("p", "q"));
    let c = new_conversation_payload("group", " Team ", "\tabout ");
    assert_eq!((c.kind.as_str(), c.title.as_str(), c.description.as_str()), ("group", "Team", "about"));
    assert!(c.member_ids.is_empty());
    assert!(!c.is_public);
}

#[test]
fn message_metadata() {
    let t = text_message_metadata();
    assert_eq!(t.kind, "text");
    assert!(t.files.is_none());
    let file = UploadFile {
        id: 9,
        name: "a.png".to_string(),
        mime: "image/png".to_string(),
        size: 1234,
        url: "/uploads/a.png".to_string(),
        kind: "image".to_string(),
    };
    let m = file_message_metadata(&file);
    assert_eq!(m.kind, "file");
    let files = m.files.unwrap();
    assert_eq!(files.len(), 1);
    let f = &files[0];
    assert_eq!((f.id, f.size), (9, 1234));
    assert_eq!((f.name.as_str(), f.url.as_str(), f.mime.as_str()), ("a.png", "/uploads/a.png", "image/png"));
}

#[test]
fn outgoing_messages() {
    let m = text_message("  hello ").unwrap();
    assert_eq!(m.body, "hello");
    assert_eq!(m.metadata.kind, "text");
    assert!(text_message(" \n ").is_none());
    let file = UploadFile { id: 3, name: "n".to_string(), url: "/u".to_string(), ..UploadFile::default() };
    let f = file_message(&file);
    assert_eq!(f.body, "");
    assert_eq!(f.metadata.kind, "file");
    assert_eq!(f.metadata.files.unwrap()[0].id, 3);
}

#[test]
fn responses_set_the_session_on_every_outcome() {
    let cookies = vec![Some("ONIXSESSID=abc; Path=/; HttpOnly".to_string())];
    let mut s = Session::new(String::new());
    let r: Result<u8, ApiError> = take_response(&mut s, &cookies, 500, Ok((br#"{"message":"boom"}"#.to_vec(), None)));
    assert_eq!(r.unwrap_err().message(), "boom");
    assert_eq!(s.token(), "abc");
    let mut s = Session::new("old".to_string());
    let r: Result<u8, ApiError> = take_response(&mut s, &cookies, 200, Err("connection reset".to_string()));
    let e = r.unwrap_err();
    assert!(matches!(e, ApiError::Transport(_)));
    assert_eq!(e.message(), "connection reset");
    assert_eq!(s.token(), "abc");
    let mut s = Session::new("old".to_string());
    let r: Result<u8, ApiError> = take_response(&mut s, &Vec::new(), 200, Ok((b"7".to_vec(), Some(7))));
    assert_eq!(r.unwrap(), 7);
    assert_eq!(s.token(), "old");
}
