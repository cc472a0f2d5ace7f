use msr::chars::{char_c, char_cl, char_cn, char_l, DEFAULT_LIMIT};

#[test]
fn char_l_default_is_490() {
    assert_eq!(char_l(None), 490);
    assert_eq!(DEFAULT_LIMIT, 490);
}

#[test]
fn char_l_subtracts_one() {
    assert_eq!(char_l(Some(10)), 9);
    assert_eq!(char_l(Some(1)), 0);
    assert_eq!(char_l(Some(0)), -1);
}

#[test]
fn char_c_keeps_limit_characters() {
    let l = char_l(Some(3));
    assert_eq!(char_c("hello", l), "hel");
}

#[test]
fn char_c_short_text_is_kept() {
    assert_eq!(char_c("hi", 10), "hi");
}

#[test]
fn char_c_counts_characters_not_bytes() {
    assert_eq!(char_c("あいうえお", 1), "あい");
}

#[test]
fn char_c_default_keeps_491() {
    let text: String = std::iter::repeat('x').take(600).collect();
    assert_eq!(char_c(&text, char_l(None)).chars().count(), 491);
}

#[test]
fn char_c_empty_with_negative_limit() {
    assert_eq!(char_c("", -1), "");
}

#[test]
fn char_cn_cuts_into_pieces() {
    let text: String = (0..2000).map(|i| if i % 2 == 0 { 'a' } else { 'b' }).collect();
    let s = char_cn(&text);
    assert_eq!(s.first.chars().count(), 451);
    assert_eq!(s.second.chars().count(), 500);
    assert_eq!(s.third.chars().count(), 500);
    assert_eq!(s.fourth.chars().count(), 500);
    assert_eq!(s.rest.chars().count(), 49);
    let joined = format!("{}{}{}{}{}", s.first, s.second, s.third, s.fourth, s.rest);
    assert_eq!(joined, text);
    assert_eq!(s.posts().len(), 4);
}

#[test]
fn char_cn_short_text() {
    let s = char_cn("abc");
    assert_eq!(s.first, "abc");
    assert_eq!(s.second, "");
    assert_eq!(s.rest, "");
    assert_eq!(s.posts(), vec!["abc".to_string()]);
}

#[test]
fn char_cn_posts_skip_empty_pieces() {
    let text: String = std::iter::repeat('z').take(600).collect();
    let s = char_cn(&text);
    let posts = s.posts();
    assert_eq!(posts.len(), 2);
    assert_eq!(posts[0].chars().count(), 451);
    assert_eq!(posts[1].chars().count(), 149);
}

fn numbered(n: usize) -> String {
    (0..n).map(|i| char::from(b'a' + (i % 26) as u8)).collect()
}

#[test]
fn char_cl_short_texts_do_nothing() {
    assert!(char_cl(&numbered(450), true).is_empty());
    assert!(char_cl(&numbered(899), true).is_empty());
}

#[test]
fn char_cl_one_pass() {
    let text = numbered(900);
    let ev = char_cl(&text, true);
    assert_eq!(ev.len(), 1);
    let first450: String = text.chars().take(450).collect();
    assert_eq!(ev[0].printed, first450);
    assert_eq!(ev[0].posted, text.chars().nth(449).unwrap());
}

#[test]
fn char_cl_two_passes() {
    let text = numbered(1350);
    let ev = char_cl(&text, true);
    assert_eq!(ev.len(), 2);
    // first pass: characters 0..450 gathered, last one posted
    assert_eq!(ev[0].printed.chars().count(), 450);
    // afterwards 449 remain, then the pass gathers 451..1350 (899 chars),
    // the second pass gathers 0..900 (900 chars) before index 900
    assert_eq!(ev[1].printed.chars().count(), 449 + 899 + 900);
    assert_eq!(ev[1].posted, text.chars().nth(899).unwrap());
}

#[test]
fn char_cl_without_mid_is_silent() {
    assert!(char_cl(&numbered(2000), false).is_empty());
}

#[test]
fn char_cl_second_pass_prints_gathered_text() {
    let text = numbered(1350);
    let chars: Vec<char> = text.chars().collect();
    let ev = char_cl(&text, true);
    let mut expected: String = chars[..449].iter().collect();
    expected.extend(chars[451..].iter());
    expected.extend(chars[..900].iter());
    assert_eq!(ev[1].printed, expected);
}
