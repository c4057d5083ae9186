use ccproxy::text::{eq_ignore_case, same, split_lines};

#[test]
fn lines_are_split_at_line_feeds() {
    assert_eq!(split_lines("a.example\nb.example"), vec!["a.example", "b.example"]);
}

#[test]
fn final_line_feed_adds_no_line() {
    assert_eq!(split_lines("a.example\nb.example\n"), vec!["a.example", "b.example"]);
}

#[test]
fn empty_text_has_no_lines() {
    assert_eq!(split_lines(""), Vec::<String>::new());
}

#[test]
fn lone_line_feed_is_one_empty_line() {
    assert_eq!(split_lines("\n"), vec![""]);
}

#[test]
fn empty_lines_are_kept() {
    assert_eq!(split_lines("a\n\nb"), vec!["a", "", "b"]);
}

#[test]
fn carriage_return_before_line_feed_is_dropped() {
    assert_eq!(split_lines("a.example\r\nb.example\r\n"), vec!["a.example", "b.example"]);
}

#[test]
fn only_one_carriage_return_is_dropped() {
    assert_eq!(split_lines("a\r\r\nb"), vec!["a\r", "b"]);
}

#[test]
fn carriage_return_without_line_feed_stays() {
    assert_eq!(split_lines("a\rb"), vec!["a\rb"]);
    assert_eq!(split_lines("a\r"), vec!["a\r"]);
}

#[test]
fn lines_agree_with_std() {
    for text in ["", "\n", "\r\n", "x", "x\n", "x\r\n\r\ny", "é\nü\r\n", "\n\n\n", "a\r\nb\rc\n\rd"] {
        let expected: Vec<String> = text.lines().map(|l| l.to_string()).collect();
        assert_eq!(split_lines(text), expected);
    }
}

#[test]
fn same_is_exact() {
    assert!(same("GET", "GET"));
    assert!(!same("GET", "get"));
    assert!(!same("GET", "GETS"));
    assert!(!same("GETS", "GET"));
    assert!(same("", ""));
    assert!(!same("", "x"));
    assert!(same("héllo", "héllo"));
}

#[test]
fn case_of_ascii_letters_is_ignored() {
    assert!(eq_ignore_case("Proxy-Connection", "proxy-connection"));
    assert!(eq_ignore_case("PROXY-CONNECTION", "proxy-connection"));
    assert!(eq_ignore_case("proxy-connection", "Proxy-Connection"));
    assert!(eq_ignore_case("", ""));
}

#[test]
fn other_differences_are_not_ignored() {
    assert!(!eq_ignore_case("proxy_connection", "proxy-connection"));
    assert!(!eq_ignore_case("proxy-connection ", "proxy-connection"));
    assert!(!eq_ignore_case("proxy-connectio", "proxy-connection"));
    assert!(!eq_ignore_case("É", "é"));
    assert!(!eq_ignore_case("@", "`"));
    assert!(!eq_ignore_case("[", "{"));
}

#[test]
fn ignoring_case_agrees_with_std() {
    let samples = ["", "a", "A", "Host", "hOST", "host ", "Z", "z", "[", "{", "@", "`", "ß", "ẞ"];
    for a in samples {
        for b in samples {
            assert_eq!(eq_ignore_case(a, b), a.eq_ignore_ascii_case(b), "{a:?} {b:?}");
        }
    }
}
