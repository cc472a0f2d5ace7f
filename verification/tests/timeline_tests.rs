use msr::timeline::{
    account_line, dotted, delete_line, icon_command, icon_file_name, icon_line, status_line, status_lines,
    timeline, timeline_line, OsKind, Post, Reblogged,
};

fn post(id: &str, user: &str, content: &str, reblog: Option<(&str, &str)>) -> Post {
    Post {
        id: id.to_string(),
        username: user.to_string(),
        content: content.to_string(),
        avatar_static: "https://example.com/a/b.png".to_string(),
        reblog: reblog.map(|(u, c)| Reblogged { uri: u.to_string(), content: c.to_string() }),
    }
}

#[test]
fn timeline_plain_line() {
    assert_eq!(timeline_line(&post("5", "ai", "<p>hi</p>", None)), "ai \"<p>hi</p>\" \"5\"");
}

#[test]
fn timeline_quotes_are_escaped() {
    assert_eq!(timeline_line(&post("5", "ai", "a\"b\n", None)), "ai \"a\\\"b\\n\" \"5\"");
}

#[test]
fn timeline_reblog_line() {
    let p = post("6", "ai", "", Some(("https://x/1", "orig")));
    assert_eq!(timeline_line(&p), "re:ai \"https://x/1\" \"orig\" \"6\"");
    assert_eq!(icon_line(&p), "re:ai \"https://x/1\" \"orig\"");
}

#[test]
fn timeline_all_lines() {
    let ps = vec![post("1", "a", "x", None), post("2", "b", "y", None)];
    assert_eq!(timeline(&ps), vec!["a \"x\" \"1\"".to_string(), "b \"y\" \"2\"".to_string()]);
}

#[test]
fn icon_plain_line() {
    assert_eq!(icon_line(&post("1", "a", "x", None)), "a \"x\"");
}

#[test]
fn status_lines_use_reblog_body() {
    let ps = vec![post("1", "a", "x", None), post("2", "b", "", Some(("u", "rb")))];
    assert_eq!(status_lines(&ps), vec!["\"1\" \"x\"".to_string(), "\"2\" \"rb\"".to_string()]);
    assert_eq!(status_line(&ps[1]), "\"2\" \"rb\"");
}

#[test]
fn delete_line_text() {
    assert_eq!(delete_line(&post("1", "ai", "bye", None)), "delete -> ai \"bye\"");
}

#[test]
fn account_line_text() {
    assert_eq!(account_line("ai@example.com", "12"), "\"ai@example.com\" \"12\"");
}

#[test]
fn icon_file_names() {
    assert_eq!(icon_file_name("ai", "https://example.com/a/b.png"), Some("ai.png".to_string()));
    assert_eq!(icon_file_name("ai", "https://example.com/a/b.min.jpeg"), Some("ai.jpeg".to_string()));
    assert_eq!(icon_file_name("ai", "https://example.com/a/b"), None);
}

#[test]
fn icon_commands() {
    let c = icon_command(&OsKind::Osx, false, "/p.png").unwrap();
    assert_eq!(c.program, "imgcat");
    assert_eq!(c.args, vec!["/p.png".to_string()]);
    let c = icon_command(&OsKind::Arch, false, "/p.png").unwrap();
    assert_eq!(c.program, "img2sixel");
    assert_eq!(c.args, vec!["/p.png".to_string(), "-h 25".to_string()]);
    assert!(icon_command(&OsKind::Ubuntu, false, "/p.png").is_some());
    for os in [OsKind::Debian, OsKind::Redhat, OsKind::CentOS, OsKind::Manjaro, OsKind::OpenSuse,
               OsKind::Alpine, OsKind::Deepin, OsKind::NixOs, OsKind::Kali] {
        let c = icon_command(&os, false, "/p.png").unwrap();
        assert_eq!(c.program, "img2sixel");
        assert_eq!(c.args, vec!["/p.png".to_string(), "-h 25".to_string()]);
    }
    assert!(icon_command(&OsKind::Unknown, false, "/p.png").is_none());
    assert_eq!(icon_command(&OsKind::Unknown, true, "/p.png").unwrap().program, "img2sixel");
}

#[test]
fn dotted_names() {
    assert_eq!(dotted("ai", "png"), "ai.png");
}
