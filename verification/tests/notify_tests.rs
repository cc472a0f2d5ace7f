use msr::notify::{
    bot_run, field_key, notifylatest, notifysecond, Address, FieldKey, Notice, NoticeKind,
    NoticeStatus, OutLine,
};

fn notice(id: &str, user: &str, status: Option<(&str, &str)>) -> Notice {
    Notice {
        id: id.to_string(),
        kind: NoticeKind::Mention,
        date: "2022-01-02 03:04:05 UTC".to_string(),
        username: user.to_string(),
        account_url: format!("https://example.com/@{}", user),
        status: status.map(|(i, c)| NoticeStatus { id: i.to_string(), content: c.to_string() }),
    }
}

fn texts(lines: &[OutLine]) -> Vec<String> {
    lines
        .iter()
        .map(|l| match l {
            OutLine::Text(t) => t.clone(),
            OutLine::StatusOf(i) => format!("<status {}>", i),
        })
        .collect()
}

#[test]
fn field_keys() {
    assert!(field_key("id") == FieldKey::Id);
    assert!(field_key("mid") == FieldKey::Mid);
    assert!(field_key("user") == FieldKey::User);
    assert!(field_key("date") == FieldKey::Date);
    assert!(field_key("body") == FieldKey::Body);
    assert!(field_key("url") == FieldKey::Url);
    assert!(field_key("type") == FieldKey::Type);
    assert!(field_key("status") == FieldKey::Status);
    assert!(field_key("ids") == FieldKey::Unknown);
    assert!(field_key("") == FieldKey::Unknown);
}

#[test]
fn kind_names() {
    assert_eq!(NoticeKind::Mention.debug_name(), "Mention");
    assert_eq!(NoticeKind::Reblog.debug_name(), "Reblog");
    assert_eq!(NoticeKind::Favourite.debug_name(), "Favourite");
    assert_eq!(NoticeKind::Follow.debug_name(), "Follow");
}

#[test]
fn address_json_exact() {
    let n = notice("7", "ai", Some(("42", "<p>hi</p>")));
    let j = Address::of(&n).to_json();
    assert_eq!(
        j,
        "{\"user\":\"ai\",\"id\":\"7\",\"mid\":\"42\",\"url\":\"https://example.com/@ai\",\"date\":\"2022-01-02 03:04:05 UTC\",\"body\":\"<p>hi</p>\"}"
    );
}

#[test]
fn address_json_escapes() {
    let n = notice("1", "u", Some(("2", "a\"b\\c\nd\te\u{1b}")));
    let j = Address::of(&n).to_json();
    assert!(j.ends_with(",\"body\":\"a\\\"b\\\\c\\nd\\te\\u001b\"}"), "{}", j);
}

#[test]
fn latest_without_notifications() {
    assert_eq!(texts(&notifylatest(&vec![], &None)), vec!["[]"]);
}

#[test]
fn latest_json() {
    let notes = vec![notice("1", "a", Some(("9", "x"))), notice("2", "b", Some(("8", "y")))];
    let out = texts(&notifylatest(&notes, &None));
    assert_eq!(out.len(), 1);
    assert!(out[0].starts_with("{\"user\":\"a\",\"id\":\"1\",\"mid\":\"9\""));
}

#[test]
fn latest_fields() {
    let notes = vec![notice("1", "a", Some(("9", "x")))];
    assert_eq!(texts(&notifylatest(&notes, &Some("mid".to_string()))), vec!["9"]);
    assert_eq!(texts(&notifylatest(&notes, &Some("type".to_string()))), vec!["Mention"]);
    assert_eq!(texts(&notifylatest(&notes, &Some("status".to_string()))), vec!["<status 0>"]);
    assert_eq!(
        texts(&notifylatest(&notes, &Some("nope".to_string()))),
        vec!["not matched(id, mid, user, date, body, url, type, status)"]
    );
}

#[test]
fn second_json_array() {
    let notes = vec![notice("1", "a", Some(("9", "x"))), notice("2", "b", Some(("8", "y")))];
    let out = texts(&notifysecond(&notes, &None));
    assert_eq!(out.len(), 5);
    assert_eq!(out[0], "[");
    assert!(out[1].contains("\"id\":\"1\""));
    assert_eq!(out[2], ",");
    assert!(out[3].contains("\"id\":\"2\""));
    assert_eq!(out[4], "]");
}

#[test]
fn second_skips_notifications_without_status() {
    let notes = vec![
        notice("1", "a", None),
        notice("2", "b", Some(("8", "y"))),
        notice("3", "c", None),
    ];
    let out = texts(&notifysecond(&notes, &None));
    // neither the opening nor the closing bracket is printed
    assert_eq!(out.len(), 2);
    assert!(out[0].contains("\"id\":\"2\""));
    assert_eq!(out[1], ",");
}

#[test]
fn second_with_key() {
    let notes = vec![notice("1", "a", Some(("9", "x"))), notice("2", "b", None), notice("3", "c", Some(("7", "z")))];
    assert_eq!(texts(&notifysecond(&notes, &Some("user".to_string()))), vec!["a", "c"]);
    assert_eq!(texts(&notifysecond(&notes, &Some("status".to_string()))), vec!["<status 0>", "<status 2>"]);
}

#[test]
fn second_without_notifications() {
    assert_eq!(texts(&notifysecond(&vec![], &Some("id".to_string()))), vec!["[]"]);
}

#[test]
fn bot_prints_records() {
    assert_eq!(bot_run(&vec![]), vec!["[]".to_string()]);
    let notes = vec![notice("1", "a", None), notice("2", "b", Some(("8", "y")))];
    let out = bot_run(&notes);
    assert_eq!(out.len(), 1);
    assert!(out[0].contains("\"user\":\"b\""));
}
