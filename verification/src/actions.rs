//! What the commands do, decided from their arguments: the statuses they
//! post, the requests they send and the lines they print about it.

use vstd::prelude::*;
use vstd::string::*;
use crate::config::Deep;
use crate::external::{debug_quote, opt_view, str_debug};
use crate::lines::{spaced, spaced_spec, strings_view};

verus! {

/// A status to post.
pub struct StatusDraft {
    /// The text.
    pub status: String,
    /// The status it replies to, if any.
    pub in_reply_to_id: Option<String>,
    /// The uploaded media it carries, if any.
    pub media_ids: Option<Vec<String>>,
}

/// The value of the media of a draft.
pub open spec fn media_view(m: Option<Vec<String>>) -> Option<Seq<Seq<char>>> {
    match m {
        Some(v) => Some(strings_view(v@)),
        None => None,
    }
}

impl StatusDraft {
    /// A status with only a text.
    pub fn plain(text: String) -> (r: StatusDraft)
        ensures
            r.status@ == text@,
            r.in_reply_to_id is None,
            r.media_ids is None,
    {
        StatusDraft { status: text, in_reply_to_id: None, media_ids: None }
    }

    /// A reply with the text `text` to the status `mid`.
    pub fn reply(mid: String, text: String) -> (r: StatusDraft)
        ensures
            r.status@ == text@,
            opt_view(r.in_reply_to_id) == Some(mid@),
            r.media_ids is None,
    {
        StatusDraft { status: text, in_reply_to_id: Some(mid), media_ids: None }
    }
}

/// The status that `m` posts with the uploaded media `media_id`: with a
/// text, that text and no reply; else `#media`, in reply to `rid` if given.
pub fn media_draft(text: Option<String>, rid: Option<String>, media_id: String) -> (r: StatusDraft)
    ensures
        media_view(r.media_ids) == Some(seq![media_id@]),
        text matches Some(t) ==> r.status@ == t@ && r.in_reply_to_id is None,
        text is None ==> r.status@ == "#media"@ && opt_view(r.in_reply_to_id) == opt_view(rid),
{
    let mut ids: Vec<String> = Vec::new();
    ids.push(media_id);
    assert(strings_view(ids@) =~= seq![media_id@]);
    match text {
        Some(t) => StatusDraft { status: t, in_reply_to_id: None, media_ids: Some(ids) },
        None => StatusDraft { status: String::from_str("#media"), in_reply_to_id: rid, media_ids: Some(ids) },
    }
}

/// Where a reply of `mm` goes.
pub enum ReplyTo {
    /// To the status with this id.
    Id(String),
    /// To the status saved in `set.toml`.
    Saved,
}

/// One step of `mm`.
pub enum MentionStep {
    /// Post this text as a reply.
    Reply(ReplyTo, String),
    /// Save the `-s` target to `set.toml`.
    SaveSetting,
}

/// The value of a step: a reply to a given id (or to the saved one, `None`)
/// with a text, or saving the target.
pub enum StepView {
    Reply(Option<Seq<char>>, Seq<char>),
    Save,
}

/// The value of a step.
pub open spec fn step_view(s: MentionStep) -> StepView {
    match s {
        MentionStep::Reply(ReplyTo::Id(m), t) => StepView::Reply(Some(m@), t@),
        MentionStep::Reply(ReplyTo::Saved, t) => StepView::Reply(None, t@),
        MentionStep::SaveSetting => StepView::Save,
    }
}

/// The values of a list of steps.
pub open spec fn steps_view(v: Seq<MentionStep>) -> Seq<StepView> {
    v.map_values(|s: MentionStep| step_view(s))
}

/// The steps of `mm arg [-p text] [-s set]`. With `-p`, `arg` is the id of
/// the status replied to: reply `text` to it. With `-s`, `arg` is a text:
/// reply it to `set` and save `set`. With neither, reply `arg` to the saved
/// status.
pub open spec fn mention_plan_of(arg: Seq<char>, text: Option<Seq<char>>, set: Option<Seq<char>>) -> Seq<StepView> {
    let first = match text {
        Some(t) => seq![StepView::Reply(Some(arg), t)],
        None => seq![],
    };
    let second = match set {
        Some(s) => seq![StepView::Reply(Some(s), arg), StepView::Save],
        None => if text is Some {
            seq![]
        } else {
            seq![StepView::Reply(None, arg)]
        },
    };
    first + second
}

/// The steps of `mm`.
pub fn mention_plan(arg: &str, text: Option<String>, set: Option<String>) -> (r: Vec<MentionStep>)
    ensures
        steps_view(r@) == mention_plan_of(arg@, opt_view(text), opt_view(set)),
{
    let mut r: Vec<MentionStep> = Vec::new();
    let ghost tv = opt_view(text);
    let ghost sv = opt_view(set);
    let has_text = text.is_some();
    match text {
        Some(t) => r.push(MentionStep::Reply(ReplyTo::Id(arg.to_owned()), t)),
        None => {},
    }
    match set {
        Some(s) => {
            r.push(MentionStep::Reply(ReplyTo::Id(s), arg.to_owned()));
            r.push(MentionStep::SaveSetting);
        },
        None => if !has_text {
            r.push(MentionStep::Reply(ReplyTo::Saved, arg.to_owned()))
        },
    }
    assert(steps_view(r@) =~= mention_plan_of(arg@, tv, sv));
    r
}

/// What `p` does.
pub enum PostPlan {
    /// Translate the message to this language, then post the translation.
    Translate(String),
    /// Post this status.
    Post(StatusDraft),
}

/// The language that a message written in `lang` is translated to: `ja`
/// for `en`, `en` for `ja`, and `lang` itself for any other.
pub open spec fn other_lang_of(lang: Seq<char>) -> Seq<char> {
    if lang == "en"@ {
        "ja"@
    } else if lang == "ja"@ {
        "en"@
    } else {
        lang
    }
}

/// The language that `p -l lang` translates to.
pub fn other_lang(lang: &str) -> (r: String)
    ensures
        r@ == other_lang_of(lang@),
{
    let l = lang.to_owned();
    if l == String::from_str("en") {
        String::from_str("ja")
    } else if l == String::from_str("ja") {
        String::from_str("en")
    } else {
        l
    }
}

/// What `p message [-l lang]` does: with `-l`, the message is in `lang`;
/// translate it to the other language of English and Japanese and post the
/// translation. Without it, post the message.
pub fn post_plan(message: String, lang: Option<String>) -> (r: PostPlan)
    ensures
        lang matches Some(l) ==> (r matches PostPlan::Translate(x) && x@ == other_lang_of(l@)),
        lang is None ==> (r matches PostPlan::Post(d) && d.status@ == message@ && d.in_reply_to_id is None
            && d.media_ids is None),
{
    match lang {
        Some(l) => PostPlan::Translate(other_lang(l.as_str())),
        None => PostPlan::Post(StatusDraft::plain(message)),
    }
}

/// The language that `tt` translates to: the one given, else Japanese.
pub fn target_lang(lang: Option<String>) -> (r: String)
    ensures
        lang matches Some(l) ==> r@ == l@,
        lang is None ==> r@ == "ja"@,
{
    match lang {
        Some(l) => l,
        None => String::from_str("ja"),
    }
}

/// A translation request to DeepL.
pub struct DeeplRequest {
    pub url: String,
    pub authorization: String,
    pub content_type: String,
    pub text: String,
    pub target_lang: String,
}

/// The request that translates `message` to `lang` with the key of `deep`.
pub fn deepl_request(deep: &Deep, message: String, lang: String) -> (r: DeeplRequest)
    ensures
        r.url@ == "https://api-free.deepl.com/v2/translate"@,
        r.authorization@ == "DeepL-Auth-Key "@ + deep.api@,
        r.content_type@ == "json"@,
        r.text@ == message@,
        r.target_lang@ == lang@,
{
    DeeplRequest {
        url: String::from_str("https://api-free.deepl.com/v2/translate"),
        authorization: deep.auth_header(),
        content_type: String::from_str("json"),
        text: message,
        target_lang: lang,
    }
}

/// What is done with DeepL's answer: the first translation is printed, and
/// kept in `deepl.txt` when it is not empty.
pub fn deepl_outcome(texts: &Vec<String>) -> (r: (String, bool))
    requires
        texts@.len() > 0,
    ensures
        r.0@ == texts@[0]@,
        r.1 == (texts@[0]@.len() > 0),
{
    let t = texts[0].clone();
    let keep = !t.as_str().is_empty();
    (t, keep)
}

/// What `f` does.
#[derive(PartialEq, Eq, Structural, Clone, Copy)]
pub enum FollowPlan {
    /// List the followers of the user's own account.
    OwnFollowers,
    /// Unfollow the account found.
    Unfollow,
    /// List the followers of the account found.
    ListFollowers,
    /// Follow the account found.
    Follow,
}

/// What `f [-l] [-d] [-ll]` does: `-l` comes first, then `-d`, then `-ll`.
pub fn follow_plan(list: bool, delete: bool, ll: bool) -> (r: FollowPlan)
    ensures
        r == (if list {
            FollowPlan::OwnFollowers
        } else if delete {
            FollowPlan::Unfollow
        } else if ll {
            FollowPlan::ListFollowers
        } else {
            FollowPlan::Follow
        }),
{
    if list {
        FollowPlan::OwnFollowers
    } else if delete {
        FollowPlan::Unfollow
    } else if ll {
        FollowPlan::ListFollowers
    } else {
        FollowPlan::Follow
    }
}

/// The line that `f` prints after following: the quoted id and address.
pub fn follow_line(id: &str, acct: &str) -> (r: String)
    ensures
        r@ == spaced_spec("follow :"@, seq![str_debug(id@), str_debug(acct@)]),
{
    let mut parts: Vec<String> = Vec::new();
    parts.push(debug_quote(id));
    parts.push(debug_quote(acct));
    assert(strings_view(parts@) =~= seq![str_debug(id@), str_debug(acct@)]);
    spaced("follow :", &parts)
}

/// The line printed before `r`, `fa` or `f -d` act: the quoted name of the
/// action, prefixed with `un` when it is undone.
pub fn toggle_label(undo: bool, name: &str) -> (r: String)
    ensures
        undo ==> r@ == str_debug("un"@ + name@),
        !undo ==> r@ == str_debug(name@),
{
    if undo {
        let mut n = String::from_str("un");
        n.append(name);
        debug_quote(n.as_str())
    } else {
        debug_quote(name)
    }
}

/// The line printed for a note of the Misskey timeline.
pub fn misskey_line(username: &str, text: Option<String>) -> (r: String)
    ensures
        text matches Some(t) ==> r@ == "<@"@ + username@ + "> "@ + t@,
        text is None ==> r@ == "<@"@ + username@ + "> "@,
{
    let mut r = String::from_str("<@");
    r.append(username);
    r.append("> ");
    match text {
        Some(t) => r.append(t.as_str()),
        None => {},
    }
    r
}

/// What `s` does.
pub enum StatusMode {
    /// Search accounts by this name and dump them.
    ByUser(String),
    /// Search accounts by this address and print each.
    ById(String),
    /// Show the user's own account.
    Own,
}

/// What `s [-u user] [-i id]` does; `-u` comes first.
pub fn status_mode(user: Option<String>, id: Option<String>) -> (r: StatusMode)
    ensures
        user matches Some(u) ==> (r matches StatusMode::ByUser(x) && x@ == u@),
        user is None ==> (id matches Some(i) ==> (r matches StatusMode::ById(x) && x@ == i@)),
        user is None && id is None ==> r is Own,
{
    match user {
        Some(u) => StatusMode::ByUser(u),
        None => match id {
            Some(i) => StatusMode::ById(i),
            None => StatusMode::Own,
        },
    }
}

/// What `d` deletes.
pub enum DeleteTarget {
    /// The status with this id.
    ById(String),
    /// The latest status of the home timeline.
    Latest,
}

/// What `d [-i id]` deletes.
pub fn delete_target(id: Option<String>) -> (r: DeleteTarget)
    ensures
        id matches Some(i) ==> (r matches DeleteTarget::ById(x) && x@ == i@),
        id is None ==> r is Latest,
{
    match id {
        Some(i) => DeleteTarget::ById(i),
        None => DeleteTarget::Latest,
    }
}

/// What `s -i` shows for one account found.
pub enum AccountShow {
    /// This line: the quoted address and id.
    Line(String),
    /// This header (the quoted address), then the account's statuses: all
    /// of them dumped when `full`, else one line each.
    Timeline { header: String, full: bool },
}

/// What `s -i id [-t] [-a]` shows for the account `acct` with id `id`.
pub fn account_show(acct: &str, id: &str, timeline: bool, all: bool) -> (r: AccountShow)
    ensures
        !timeline ==> (r matches AccountShow::Line(l) && l@ == spaced_spec(
            str_debug(acct@),
            seq![str_debug(id@)],
        )),
        timeline ==> (r matches AccountShow::Timeline { header, full } && header@ == str_debug(acct@)
            && full == all),
{
    if timeline {
        AccountShow::Timeline { header: debug_quote(acct), full: all }
    } else {
        AccountShow::Line(crate::timeline::account_line(acct, id))
    }
}

/// `mm` posts each reply once: with `-p` and no `-s` one reply, of the text
/// to the status `arg`; with `-s` and no `-p` one reply, of `arg` to `set`,
/// and `set` is saved; with neither, one reply of `arg` to the saved status.
pub proof fn lemma_mention_plan(arg: Seq<char>, text: Option<Seq<char>>, set: Option<Seq<char>>)
    ensures
        set is None ==> (text matches Some(t) ==> mention_plan_of(arg, text, set) == seq![
            StepView::Reply(Some(arg), t),
        ]),
        text is None ==> (set matches Some(s) ==> mention_plan_of(arg, text, set) == seq![
            StepView::Reply(Some(s), arg),
            StepView::Save,
        ]),
        text is None && set is None ==> mention_plan_of(arg, text, set) == seq![
            StepView::Reply(None, arg),
        ],
{
    match text {
        Some(t) => {
            if set is None {
                assert(mention_plan_of(arg, text, set) =~= seq![StepView::Reply(Some(arg), t)]);
            }
        },
        None => {
            match set {
                Some(s) => {
                    assert(mention_plan_of(arg, text, set) =~= seq![
                        StepView::Reply(Some(s), arg),
                        StepView::Save,
                    ]);
                },
                None => {
                    assert(mention_plan_of(arg, text, set) =~= seq![StepView::Reply(None, arg)]);
                },
            }
        },
    }
}

/// `p -l` translates English into Japanese and Japanese into English, and
/// going to the other language twice comes back to the first.
pub proof fn lemma_other_lang(lang: Seq<char>)
    ensures
        other_lang_of("en"@) == "ja"@,
        other_lang_of("ja"@) == "en"@,
        other_lang_of(other_lang_of(lang)) == lang,
        (lang == "en"@ || lang == "ja"@) ==> other_lang_of(lang) != lang,
{
    reveal_strlit("en");
    reveal_strlit("ja");
    assert("ja"@ != "en"@) by {
        assert("ja"@[0] != "en"@[0]);
    }
}

} // verus!
