use ccproxy::target::{Authority, DEFAULT_PORT};

#[test]
fn absolute_target_names_its_host() {
    let a = Authority::resolve("http://blocked.example/").unwrap();
    assert_eq!(a.host, "blocked.example");
    assert_eq!(a.text, "blocked.example");
    assert_eq!(a.port, None);
}

#[test]
fn absolute_target_with_port_and_path() {
    let a = Authority::resolve("http://up.example:8080/some/path?q=1").unwrap();
    assert_eq!(a.host, "up.example");
    assert_eq!(a.text, "up.example:8080");
    assert_eq!(a.port, Some(8080));
}

#[test]
fn authority_target_names_host_and_port() {
    let a = Authority::resolve("example.com:443").unwrap();
    assert_eq!(a.host, "example.com");
    assert_eq!(a.text, "example.com:443");
    assert_eq!(a.port, Some(443));
}

#[test]
fn user_info_is_not_part_of_the_host() {
    let a = Authority::resolve("http://user:secret@[::1]:8080/x").unwrap();
    assert_eq!(a.host, "[::1]");
    assert_eq!(a.text, "user:secret@[::1]:8080");
    assert_eq!(a.port, Some(8080));
}

#[test]
fn origin_form_target_has_no_authority() {
    assert_eq!(Authority::resolve("/index.html"), None);
    assert_eq!(Authority::resolve("/"), None);
    assert_eq!(Authority::resolve("*"), None);
}

#[test]
fn unreadable_target_has_no_authority() {
    assert_eq!(Authority::resolve(""), None);
    assert_eq!(Authority::resolve("http://"), None);
    assert_eq!(Authority::resolve("http://a b/"), None);
    assert_eq!(Authority::resolve("host:1:2"), None);
}

#[test]
fn port_out_of_range_is_no_port() {
    let a = Authority::resolve("up.example:70000").unwrap();
    assert_eq!(a.host, "up.example");
    assert_eq!(a.port, None);
}

#[test]
fn default_port_is_eighty() {
    assert_eq!(DEFAULT_PORT, 80);
    let a = Authority::resolve("http://up.example/").unwrap();
    assert_eq!(a.dial_port(), 80);
    let b = Authority::resolve("http://up.example:8080/").unwrap();
    assert_eq!(b.dial_port(), 8080);
}

#[test]
fn authority_needs_text_and_host() {
    let text = Some("up.example:81".to_string());
    let host = Some("up.example".to_string());
    assert_eq!(
        Authority::assemble(text.clone(), host.clone(), Some(81)),
        Some(Authority { text: "up.example:81".to_string(), host: "up.example".to_string(), port: Some(81) })
    );
    assert_eq!(Authority::assemble(None, host, Some(81)), None);
    assert_eq!(Authority::assemble(text, None, Some(81)), None);
    assert_eq!(Authority::assemble(None, None, None), None);
}
