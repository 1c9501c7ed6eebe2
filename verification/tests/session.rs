use onix_desktop::session::Session;

fn values(v: &[Option<&str>]) -> Vec<Option<String>> {
    v.iter().map(|x| x.map(|s| s.to_string())).collect()
}

#[test]
fn capture_takes_token_up_to_semicolon() {
    let mut s = Session::new(String::new());
    s.capture(&values(&[Some("ONIXSESSID=abc123; Path=/; HttpOnly")]));
    assert_eq!(s.token(), "abc123");
}

#[test]
fn capture_last_session_cookie_wins() {
    let mut s = Session::new("old".to_string());
    s.capture(&values(&[Some("ONIXSESSID=first"), Some("theme=dark"), Some("ONIXSESSID=second;x"), None]));
    assert_eq!(s.token(), "second");
}

#[test]
fn capture_keeps_token_without_session_cookie() {
    let mut s = Session::new("old".to_string());
    s.capture(&values(&[Some("other=1"), None, Some(" ONIXSESSID=x")]));
    assert_eq!(s.token(), "old");
}

#[test]
fn capture_twice_same_as_once() {
    let headers = values(&[Some("ONIXSESSID=t1"), Some("a=b")]);
    let mut once = Session::new("x".to_string());
    once.capture(&headers);
    let mut twice = Session::new("x".to_string());
    twice.capture(&headers);
    twice.capture(&headers);
    assert_eq!(once.token(), twice.token());
}

#[test]
fn cookie_round_trip() {
    let mut s = Session::new(String::new());
    assert_eq!(s.cookie(), None);
    s.capture(&values(&[Some("ONIXSESSID=tok; Path=/")]));
    assert_eq!(s.cookie(), Some("ONIXSESSID=tok".to_string()));
}

#[test]
fn clear_signs_out() {
    let mut s = Session::new("tok".to_string());
    assert!(!s.is_signed_out());
    s.clear();
    assert!(s.is_signed_out());
    assert_eq!(s.cookie(), None);
    assert_eq!(s.request_headers().len(), 2);
}

#[test]
fn request_headers_carry_cookie() {
    let s = Session::new("tok".to_string());
    let hs = s.request_headers();
    assert_eq!(hs.len(), 3);
    assert_eq!((hs[0].name.as_str(), hs[0].value.as_str()), ("accept", "application/json"));
    assert_eq!((hs[1].name.as_str(), hs[1].value.as_str()), ("user-agent", "OnixMessengerRust/161 Windows"));
    assert_eq!((hs[2].name.as_str(), hs[2].value.as_str()), ("cookie", "ONIXSESSID=tok"));
}
