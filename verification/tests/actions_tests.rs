use msr::actions::{
    deepl_outcome, deepl_request, delete_target, follow_line, follow_plan, media_draft,
    mention_plan, misskey_line, other_lang, post_plan, status_mode, target_lang, toggle_label, DeleteTarget,
    FollowPlan, MentionStep, PostPlan, ReplyTo, StatusDraft, StatusMode,
};
use msr::actions::{account_show, AccountShow};
use msr::config::Deep;

#[test]
fn drafts() {
    let d = StatusDraft::plain("hi".to_string());
    assert_eq!(d.status, "hi");
    assert!(d.in_reply_to_id.is_none() && d.media_ids.is_none());
    let r = StatusDraft::reply("9".to_string(), "yo".to_string());
    assert_eq!(r.in_reply_to_id, Some("9".to_string()));
}

#[test]
fn media_with_text() {
    let d = media_draft(Some("cat".to_string()), Some("3".to_string()), "m1".to_string());
    assert_eq!(d.status, "cat");
    assert!(d.in_reply_to_id.is_none());
    assert_eq!(d.media_ids, Some(vec!["m1".to_string()]));
}

#[test]
fn media_reply() {
    let d = media_draft(None, Some("3".to_string()), "m1".to_string());
    assert_eq!(d.status, "#media");
    assert_eq!(d.in_reply_to_id, Some("3".to_string()));
}

#[test]
fn media_plain() {
    let d = media_draft(None, None, "m1".to_string());
    assert_eq!(d.status, "#media");
    assert!(d.in_reply_to_id.is_none());
}

fn show(steps: &[MentionStep]) -> Vec<String> {
    steps
        .iter()
        .map(|s| match s {
            MentionStep::Reply(ReplyTo::Id(m), t) => format!("{}<-{}", m, t),
            MentionStep::Reply(ReplyTo::Saved, t) => format!("saved<-{}", t),
            MentionStep::SaveSetting => "save".to_string(),
        })
        .collect()
}

#[test]
fn mention_steps() {
    assert_eq!(show(&mention_plan("hello", None, None)), vec!["saved<-hello"]);
    assert_eq!(show(&mention_plan("12", Some("hi".to_string()), None)), vec!["12<-hi"]);
    assert_eq!(
        show(&mention_plan("12", Some("hi".to_string()), Some("34".to_string()))),
        vec!["12<-hi", "34<-12", "save"]
    );
    assert_eq!(show(&mention_plan("hey", None, Some("34".to_string()))), vec!["34<-hey", "save"]);
}

#[test]
fn post_plans() {
    match post_plan("m".to_string(), Some("en".to_string())) {
        PostPlan::Translate(l) => assert_eq!(l, "ja"),
        _ => panic!(),
    }
    match post_plan("m".to_string(), None) {
        PostPlan::Post(d) => assert_eq!(d.status, "m"),
        _ => panic!(),
    }
}

#[test]
fn post_translates_to_the_other_language() {
    match post_plan("テスト".to_string(), Some("ja".to_string())) {
        PostPlan::Translate(l) => assert_eq!(l, "en"),
        _ => panic!(),
    }
    assert_eq!(other_lang("en"), "ja");
    assert_eq!(other_lang("ja"), "en");
    assert_eq!(other_lang("de"), "de");
}

#[test]
fn languages() {
    assert_eq!(target_lang(None), "ja");
    assert_eq!(target_lang(Some("en".to_string())), "en");
}

#[test]
fn deepl() {
    let r = deepl_request(&Deep { api: "K".to_string() }, "hello".to_string(), "ja".to_string());
    assert_eq!(r.url, "https://api-free.deepl.com/v2/translate");
    assert_eq!(r.authorization, "DeepL-Auth-Key K");
    assert_eq!(r.content_type, "json");
    assert_eq!(r.text, "hello");
    assert_eq!(r.target_lang, "ja");
    assert_eq!(deepl_outcome(&vec!["こんにちは".to_string()]), ("こんにちは".to_string(), true));
    assert_eq!(deepl_outcome(&vec!["".to_string(), "x".to_string()]), ("".to_string(), false));
}

#[test]
fn follow_plans() {
    assert!(follow_plan(true, true, true) == FollowPlan::OwnFollowers);
    assert!(follow_plan(false, true, true) == FollowPlan::Unfollow);
    assert!(follow_plan(false, false, true) == FollowPlan::ListFollowers);
    assert!(follow_plan(false, false, false) == FollowPlan::Follow);
    assert_eq!(follow_line("1", "ai@x"), "follow : \"1\" \"ai@x\"");
}

#[test]
fn toggles() {
    assert_eq!(toggle_label(true, "reblog"), "\"unreblog\"");
    assert_eq!(toggle_label(false, "fav"), "\"fav\"");
}

#[test]
fn misskey_lines() {
    assert_eq!(misskey_line("ai", Some("hi".to_string())), "<@ai> hi");
    assert_eq!(misskey_line("ai", None), "<@ai> ");
}

#[test]
fn modes() {
    assert!(matches!(status_mode(Some("a".to_string()), Some("b".to_string())), StatusMode::ByUser(u) if u == "a"));
    assert!(matches!(status_mode(None, Some("b".to_string())), StatusMode::ById(u) if u == "b"));
    assert!(matches!(status_mode(None, None), StatusMode::Own));
    assert!(matches!(delete_target(Some("5".to_string())), DeleteTarget::ById(i) if i == "5"));
    assert!(matches!(delete_target(None), DeleteTarget::Latest));
}

#[test]
fn account_shows() {
    match account_show("ai@x", "7", false, true) {
        AccountShow::Line(l) => assert_eq!(l, "\"ai@x\" \"7\""),
        _ => panic!(),
    }
    match account_show("ai@x", "7", true, true) {
        AccountShow::Timeline { header, full } => {
            assert_eq!(header, "\"ai@x\"");
            assert!(full);
        }
        _ => panic!(),
    }
}
