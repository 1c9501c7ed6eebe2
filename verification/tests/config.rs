use onix_desktop::config::{port_from_config, port_from_line, server_url, url_from_setting, port_from_setting, Settings};

#[test]
fn env_url_is_trimmed_and_slashes_dropped() {
    assert_eq!(url_from_setting("  https://chat.example.org/// "), Some("https://chat.example.org".to_string()));
    assert_eq!(url_from_setting("ftp://x"), None);
    assert_eq!(url_from_setting(""), None);
}

#[test]
fn env_port_parsing() {
    assert_eq!(port_from_setting(" 9000\n"), Some(9000));
    assert_eq!(port_from_setting("90000"), None);
}

#[test]
fn config_line_forms() {
    assert_eq!(port_from_line("set \"ONIX_PORT=8081\""), Some(8081));
    assert_eq!(port_from_line("  set ONIX_PORT= 8082 "), Some(8082));
    assert_eq!(port_from_line("ONIX_PORT=8083"), Some(8083));
    assert_eq!(port_from_line("SET ONIX_PORT=8084"), None);
    assert_eq!(port_from_line("rem ONIX_PORT=8085"), None);
}

#[test]
fn config_first_valid_line_wins() {
    let text = "@echo off\r\nset ONIX_PORT=oops\r\nset \"ONIX_PORT=7000\"\r\nONIX_PORT=7001\r\n";
    assert_eq!(port_from_config(text), Some(7000));
    assert_eq!(port_from_config("nothing here\n"), None);
    assert_eq!(port_from_config(""), None);
    assert_eq!(port_from_config("ONIX_PORT=5"), Some(5));
}

#[test]
fn server_url_prefers_env_url() {
    let configs = vec!["ONIX_PORT=7000".to_string()];
    assert_eq!(server_url(Some("http://h:1/".to_string()), Some("2".to_string()), &configs), "http://h:1");
}

#[test]
fn server_url_then_env_port() {
    let configs = vec!["ONIX_PORT=7000".to_string()];
    assert_eq!(server_url(Some("bad".to_string()), Some(" 2 ".to_string()), &configs), "http://localhost:2");
}

#[test]
fn server_url_then_config_then_default() {
    let configs = vec!["nothing".to_string(), "ONIX_PORT=7000".to_string()];
    assert_eq!(server_url(None, Some("x".to_string()), &configs), "http://localhost:7000");
    assert_eq!(server_url(None, None, &Vec::new()), "http://localhost:8080");
}

#[test]
fn settings_default() {
    let s = Settings::default();
    assert_eq!(s.session, "");
    assert_eq!(s.theme, "ember");
}

#[test]
fn config_with_windows_line_ends() {
    let text = "@echo off\r\nset \"ONIX_PORT=9100\"\r\nset ONIX_PORT=9200\r\n";
    assert_eq!(port_from_config(text), Some(9100));
    let expected = text.lines().find_map(|l| port_from_line(l));
    assert_eq!(port_from_config(text), expected);
    assert_eq!(port_from_config("ONIX_PORT=bad\r\n\r\nONIX_PORT=7001\r"), Some(7001));
    assert_eq!(port_from_config(""), None);
}
