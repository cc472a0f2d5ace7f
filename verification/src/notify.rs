//! Notifications: what `nl`, `nls` and `bot` print for them.

use vstd::prelude::*;
use vstd::string::*;
use crate::external::{json_quote, json_string};
use crate::lines::strings_view;

verus! {

/// The kind of a notification.
pub enum NoticeKind {
    Mention,
    Reblog,
    Favourite,
    Follow,
}

/// The status that a notification is about.
pub struct NoticeStatus {
    /// The id of the status.
    pub id: String,
    /// Its body (HTML).
    pub content: String,
}

/// A notification, as far as the client reads it.
pub struct Notice {
    /// The id of the notification.
    pub id: String,
    /// What happened.
    pub kind: NoticeKind,
    /// When it happened, as the client writes dates.
    pub date: String,
    /// The user name of the account that caused it.
    pub username: String,
    /// The URL of that account.
    pub account_url: String,
    /// The status it is about, if any.
    pub status: Option<NoticeStatus>,
}

/// The record that is written as JSON for a notification.
pub struct Address {
    pub user: String,
    pub id: String,
    pub mid: String,
    pub url: String,
    pub date: String,
    pub body: String,
}

/// Which field of a notification a key asks for.
#[derive(PartialEq, Eq, Structural, Clone, Copy)]
pub enum FieldKey {
    Id,
    Mid,
    User,
    Date,
    Body,
    Url,
    Type,
    Status,
    Unknown,
}

/// One line of output: a text, or the full dump of the status of the
/// notification at the given index, which the caller writes.
pub enum OutLine {
    Text(String),
    StatusOf(usize),
}

/// The value of an output line.
pub enum LineView {
    Text(Seq<char>),
    StatusOf(nat),
}

impl View for OutLine {
    type V = LineView;

    open spec fn view(&self) -> LineView {
        match self {
            OutLine::Text(s) => LineView::Text(s@),
            OutLine::StatusOf(i) => LineView::StatusOf(*i as nat),
        }
    }
}

/// The values of a sequence of output lines.
pub open spec fn lines_view(v: Seq<OutLine>) -> Seq<LineView> {
    v.map_values(|o: OutLine| o@)
}

/// The name under which a kind is printed.
pub open spec fn kind_name(k: NoticeKind) -> Seq<char> {
    match k {
        NoticeKind::Mention => "Mention"@,
        NoticeKind::Reblog => "Reblog"@,
        NoticeKind::Favourite => "Favourite"@,
        NoticeKind::Follow => "Follow"@,
    }
}

impl NoticeKind {
    /// The name under which the kind is printed.
    pub fn debug_name(&self) -> (r: String)
        ensures
            r@ == kind_name(*self),
    {
        match self {
            NoticeKind::Mention => String::from_str("Mention"),
            NoticeKind::Reblog => String::from_str("Reblog"),
            NoticeKind::Favourite => String::from_str("Favourite"),
            NoticeKind::Follow => String::from_str("Follow"),
        }
    }
}

/// The text printed for a key that names no field.
pub open spec fn not_matched_text() -> Seq<char> {
    "not matched(id, mid, user, date, body, url, type, status)"@
}

/// The field that `key` asks for.
pub open spec fn field_key_of(key: Seq<char>) -> FieldKey {
    if key == "id"@ {
        FieldKey::Id
    } else if key == "mid"@ {
        FieldKey::Mid
    } else if key == "user"@ {
        FieldKey::User
    } else if key == "date"@ {
        FieldKey::Date
    } else if key == "body"@ {
        FieldKey::Body
    } else if key == "url"@ {
        FieldKey::Url
    } else if key == "type"@ {
        FieldKey::Type
    } else if key == "status"@ {
        FieldKey::Status
    } else {
        FieldKey::Unknown
    }
}

/// Reads the key given on the command line.
pub fn field_key(key: &str) -> (r: FieldKey)
    ensures
        r == field_key_of(key@),
{
    let k = key.to_owned();
    if k == String::from_str("id") {
        FieldKey::Id
    } else if k == String::from_str("mid") {
        FieldKey::Mid
    } else if k == String::from_str("user") {
        FieldKey::User
    } else if k == String::from_str("date") {
        FieldKey::Date
    } else if k == String::from_str("body") {
        FieldKey::Body
    } else if k == String::from_str("url") {
        FieldKey::Url
    } else if k == String::from_str("type") {
        FieldKey::Type
    } else if k == String::from_str("status") {
        FieldKey::Status
    } else {
        FieldKey::Unknown
    }
}

/// The record of a notification that has a status.
pub open spec fn address_spec(n: Notice) -> (Seq<char>, Seq<char>, Seq<char>, Seq<char>, Seq<char>, Seq<char>) {
    (n.username@, n.id@, n.status->0.id@, n.account_url@, n.date@, n.status->0.content@)
}

/// The JSON object of a record, fields in the order user, id, mid, url,
/// date, body.
pub open spec fn address_json_of(
    a: (Seq<char>, Seq<char>, Seq<char>, Seq<char>, Seq<char>, Seq<char>),
) -> Seq<char> {
    "{\"user\":"@ + json_string(a.0) + ",\"id\":"@ + json_string(a.1) + ",\"mid\":"@
        + json_string(a.2) + ",\"url\":"@ + json_string(a.3) + ",\"date\":"@ + json_string(a.4)
        + ",\"body\":"@ + json_string(a.5) + "}"@
}

/// The JSON written for a notification that has a status.
pub open spec fn notice_json(n: Notice) -> Seq<char> {
    address_json_of(address_spec(n))
}

impl Address {
    /// The record of a notification; it must have a status.
    pub fn of(n: &Notice) -> (r: Address)
        requires
            n.status is Some,
        ensures
            (r.user@, r.id@, r.mid@, r.url@, r.date@, r.body@) == address_spec(*n),
    {
        let st = n.status.as_ref().unwrap();
        Address {
            user: n.username.clone(),
            id: n.id.clone(),
            mid: st.id.clone(),
            url: n.account_url.clone(),
            date: n.date.clone(),
            body: st.content.clone(),
        }
    }

    /// The record as a JSON object.
    pub fn to_json(&self) -> (r: String)
        ensures
            r@ == address_json_of((self.user@, self.id@, self.mid@, self.url@, self.date@, self.body@)),
    {
        let mut r = String::from_str("{\"user\":");
        r.append(json_quote(self.user.as_str()).as_str());
        r.append(",\"id\":");
        r.append(json_quote(self.id.as_str()).as_str());
        r.append(",\"mid\":");
        r.append(json_quote(self.mid.as_str()).as_str());
        r.append(",\"url\":");
        r.append(json_quote(self.url.as_str()).as_str());
        r.append(",\"date\":");
        r.append(json_quote(self.date.as_str()).as_str());
        r.append(",\"body\":");
        r.append(json_quote(self.body.as_str()).as_str());
        r.append("}");
        r
    }
}

/// The line printed for field `key` of the notification `n`, found at `index`.
pub open spec fn field_line_of(n: Notice, index: int, key: FieldKey) -> LineView {
    match key {
        FieldKey::Id => LineView::Text(n.id@),
        FieldKey::Mid => LineView::Text(n.status->0.id@),
        FieldKey::User => LineView::Text(n.username@),
        FieldKey::Date => LineView::Text(n.date@),
        FieldKey::Body => LineView::Text(n.status->0.content@),
        FieldKey::Url => LineView::Text(n.account_url@),
        FieldKey::Type => LineView::Text(kind_name(n.kind)),
        FieldKey::Status => LineView::StatusOf(index as nat),
        FieldKey::Unknown => LineView::Text(not_matched_text()),
    }
}

/// The line for field `key` of a notification that has a status.
pub fn field_line(n: &Notice, index: usize, key: FieldKey) -> (r: OutLine)
    requires
        n.status is Some,
    ensures
        r@ == field_line_of(*n, index as int, key),
{
    let st = n.status.as_ref().unwrap();
    match key {
        FieldKey::Id => OutLine::Text(n.id.clone()),
        FieldKey::Mid => OutLine::Text(st.id.clone()),
        FieldKey::User => OutLine::Text(n.username.clone()),
        FieldKey::Date => OutLine::Text(n.date.clone()),
        FieldKey::Body => OutLine::Text(st.content.clone()),
        FieldKey::Url => OutLine::Text(n.account_url.clone()),
        FieldKey::Type => OutLine::Text(n.kind.debug_name()),
        FieldKey::Status => OutLine::StatusOf(index),
        FieldKey::Unknown => OutLine::Text(
            String::from_str("not matched(id, mid, user, date, body, url, type, status)"),
        ),
    }
}

/// The line printed for an empty list of notifications.
pub open spec fn empty_list_line() -> LineView {
    LineView::Text("[]"@)
}

fn empty_list() -> (r: Vec<OutLine>)
    ensures
        lines_view(r@) == seq![empty_list_line()],
{
    let mut r: Vec<OutLine> = Vec::new();
    r.push(OutLine::Text(String::from_str("[]")));
    assert(lines_view(r@) =~= seq![empty_list_line()]);
    r
}

/// What `nl` prints: nothing but `[]` without notifications; otherwise, for
/// the latest one, the field that `key` asks for, or its JSON record.
pub open spec fn latest_lines(notes: Seq<Notice>, key: Option<Seq<char>>) -> Seq<LineView> {
    if notes.len() == 0 {
        seq![empty_list_line()]
    } else {
        match key {
            Some(k) => seq![field_line_of(notes[0], 0, field_key_of(k))],
            None => seq![LineView::Text(notice_json(notes[0]))],
        }
    }
}

/// The lines that `nl` prints. The latest notification must have a status.
pub fn notifylatest(notes: &Vec<Notice>, key: &Option<String>) -> (r: Vec<OutLine>)
    requires
        notes@.len() > 0 ==> notes@[0].status is Some,
    ensures
        lines_view(r@) == latest_lines(notes@, crate::external::opt_view(*key)),
{
    if notes.len() == 0 {
        return empty_list();
    }
    let n = &notes[0];
    let line = match key {
        Some(k) => field_line(n, 0, field_key(k.as_str())),
        None => OutLine::Text(Address::of(n).to_json()),
    };
    let mut r: Vec<OutLine> = Vec::new();
    r.push(line);
    assert(lines_view(r@) =~= latest_lines(notes@, crate::external::opt_view(*key)));
    r
}

/// What `nls` prints for the notification at index `n` of `notes`:
/// nothing if it has no status; with a key, the field the key asks for;
/// without one, its JSON record, preceded by `[` when it is the first of
/// the list and followed by `,`, or by `]` when it is the last.
pub open spec fn second_item(notes: Seq<Notice>, key: Option<Seq<char>>, n: int) -> Seq<LineView> {
    let t = notes[n];
    if t.status is None {
        seq![]
    } else {
        match key {
            Some(k) => seq![field_line_of(t, n, field_key_of(k))],
            None => {
                let open = if n == 0 {
                    seq![LineView::Text("["@)]
                } else {
                    seq![]
                };
                let close = if n != notes.len() - 1 {
                    LineView::Text(","@)
                } else {
                    LineView::Text("]"@)
                };
                open + seq![LineView::Text(notice_json(t))] + seq![close]
            },
        }
    }
}

/// What `nls` prints for the first `k` notifications.
pub open spec fn second_upto(notes: Seq<Notice>, key: Option<Seq<char>>, k: nat) -> Seq<LineView>
    decreases k,
{
    if k == 0 {
        seq![]
    } else {
        second_upto(notes, key, (k - 1) as nat) + second_item(notes, key, k - 1)
    }
}

/// What `nls` prints.
pub open spec fn second_lines(notes: Seq<Notice>, key: Option<Seq<char>>) -> Seq<LineView> {
    if notes.len() == 0 {
        seq![empty_list_line()]
    } else {
        second_upto(notes, key, notes.len())
    }
}

/// The lines that `nls` prints.
pub fn notifysecond(notes: &Vec<Notice>, key: &Option<String>) -> (r: Vec<OutLine>)
    ensures
        lines_view(r@) == second_lines(notes@, crate::external::opt_view(*key)),
{
    let ghost kv = crate::external::opt_view(*key);
    let len = notes.len();
    if len == 0 {
        return empty_list();
    }
    let mut r: Vec<OutLine> = Vec::new();
    let mut n: usize = 0;
    while n < len
        invariant
            len == notes@.len(),
            kv == crate::external::opt_view(*key),
            n <= len,
            lines_view(r@) == second_upto(notes@, kv, n as nat),
        decreases len - n,
    {
        let t = &notes[n];
        let ghost before = r@;
        if t.status.is_some() {
            match key {
                Some(k) => {
                    r.push(field_line(t, n, field_key(k.as_str())));
                },
                None => {
                    if n == 0 {
                        r.push(OutLine::Text(String::from_str("[")));
                    }
                    r.push(OutLine::Text(Address::of(t).to_json()));
                    if n != len - 1 {
                        r.push(OutLine::Text(String::from_str(",")));
                    } else {
                        r.push(OutLine::Text(String::from_str("]")));
                    }
                },
            }
        }
        assert(r@.subrange(0, before.len() as int) =~= before);
        assert(lines_view(r@) =~= lines_view(before) + second_item(notes@, kv, n as int));
        n = n + 1;
    }
    r
}

/// What `bot` prints for the first `k` notifications: the JSON record of
/// each one that has a status.
pub open spec fn bot_upto(notes: Seq<Notice>, k: nat) -> Seq<Seq<char>>
    decreases k,
{
    if k == 0 {
        seq![]
    } else {
        bot_upto(notes, (k - 1) as nat) + if notes[k - 1].status is Some {
            seq![notice_json(notes[k - 1])]
        } else {
            seq![]
        }
    }
}

/// What `bot` prints.
pub open spec fn bot_lines(notes: Seq<Notice>) -> Seq<Seq<char>> {
    if notes.len() == 0 {
        seq!["[]"@]
    } else {
        bot_upto(notes, notes.len())
    }
}

/// The lines that `bot` prints.
pub fn bot_run(notes: &Vec<Notice>) -> (r: Vec<String>)
    ensures
        strings_view(r@) == bot_lines(notes@),
{
    let len = notes.len();
    let mut r: Vec<String> = Vec::new();
    if len == 0 {
        r.push(String::from_str("[]"));
        assert(strings_view(r@) =~= bot_lines(notes@));
        return r;
    }
    let mut n: usize = 0;
    while n < len
        invariant
            len == notes@.len(),
            n <= len,
            strings_view(r@) == bot_upto(notes@, n as nat),
        decreases len - n,
    {
        let t = &notes[n];
        let ghost before = r@;
        if t.status.is_some() {
            r.push(Address::of(t).to_json());
        }
        assert(strings_view(r@) =~= bot_upto(notes@, (n + 1) as nat));
        n = n + 1;
    }
    r
}

/// Whether every notification has a status.
pub open spec fn all_have_status(notes: Seq<Notice>) -> bool {
    forall|i: int| 0 <= i < notes.len() ==> (#[trigger] notes[i]).status is Some
}

/// The lines of a JSON array of the records of the first `k` notifications,
/// before the closing bracket: `[`, then each record followed by `,`.
proof fn lemma_second_prefix(notes: Seq<Notice>, k: nat)
    requires
        all_have_status(notes),
        1 <= k < notes.len(),
    ensures
        second_upto(notes, None, k).len() == 2 * k + 1,
        second_upto(notes, None, k)[0] == LineView::Text("["@),
        forall|i: int|
            0 <= i < k ==> second_upto(notes, None, k)[2 * i + 1] == LineView::Text(
                notice_json(#[trigger] notes[i]),
            ),
        forall|i: int| 0 <= i < k ==> #[trigger] second_upto(notes, None, k)[2 * i + 2] == LineView::Text(","@),
    decreases k,
{
    assert(notes[k - 1].status is Some);
    if k == 1 {
        assert(second_upto(notes, None, 0) =~= seq![]);
    } else {
        lemma_second_prefix(notes, (k - 1) as nat);
        let prev = second_upto(notes, None, (k - 1) as nat);
        let cur = second_upto(notes, None, k);
        let item = second_item(notes, None, k - 1);
        assert(item =~= seq![LineView::Text(notice_json(notes[k - 1])), LineView::Text(","@)]);
        assert(cur == prev + item);
        assert(cur.len() == 2 * k + 1);
        assert forall|i: int| 0 <= i < k implies cur[2 * i + 1] == LineView::Text(notice_json(#[trigger] notes[i])) by {
            if i < k - 1 {
                assert(cur[2 * i + 1] == prev[2 * i + 1]);
            } else {
                assert(cur[2 * i + 1] == item[0]);
            }
        }
        assert forall|i: int| 0 <= i < k implies #[trigger] cur[2 * i + 2] == LineView::Text(","@) by {
            if i < k - 1 {
                assert(cur[2 * i + 2] == prev[2 * i + 2]);
            } else {
                assert(cur[2 * i + 2] == item[1]);
            }
        }
    }
}

/// When every notification has a status and no key is given, `nls` prints a
/// JSON array: `[`, the records separated by lines holding `,`, and `]`.
pub proof fn lemma_notifysecond_is_json_array(notes: Seq<Notice>)
    requires
        all_have_status(notes),
        notes.len() > 0,
    ensures
        second_lines(notes, None).len() == 2 * notes.len() + 1,
        second_lines(notes, None)[0] == LineView::Text("["@),
        forall|i: int|
            0 <= i < notes.len() ==> second_lines(notes, None)[2 * i + 1] == LineView::Text(
                notice_json(#[trigger] notes[i]),
            ),
        forall|i: int|
            0 <= i < notes.len() - 1 ==> #[trigger] second_lines(notes, None)[2 * i + 2]
                == LineView::Text(","@),
        second_lines(notes, None)[2 * notes.len() as int] == LineView::Text("]"@),
{
    let len = notes.len();
    let all = second_lines(notes, None);
    assert(notes[len - 1].status is Some);
    if len == 1 {
        assert(second_upto(notes, None, 0) =~= seq![]);
        assert(all =~= seq![LineView::Text("["@), LineView::Text(notice_json(notes[0])), LineView::Text("]"@)]);
    } else {
        lemma_second_prefix(notes, (len - 1) as nat);
        let prev = second_upto(notes, None, (len - 1) as nat);
        let item = second_item(notes, None, len - 1);
        assert(item =~= seq![LineView::Text(notice_json(notes[len - 1])), LineView::Text("]"@)]);
        assert(all == prev + item);
        assert forall|i: int| 0 <= i < len implies all[2 * i + 1] == LineView::Text(notice_json(#[trigger] notes[i])) by {
            if i < len - 1 {
                assert(all[2 * i + 1] == prev[2 * i + 1]);
            } else {
                assert(all[2 * i + 1] == item[0]);
            }
        }
        assert forall|i: int| 0 <= i < len - 1 implies #[trigger] all[2 * i + 2] == LineView::Text(","@) by {
            assert(all[2 * i + 2] == prev[2 * i + 2]);
        }
        assert(all[2 * len as int] == item[1]);
    }
}

/// When every notification has a status, `bot` prints the JSON record of
/// each, in order.
pub proof fn lemma_bot_prints_every_record(notes: Seq<Notice>)
    requires
        all_have_status(notes),
        notes.len() > 0,
    ensures
        bot_lines(notes) == notes.map_values(|n: Notice| notice_json(n)),
{
    assert forall|k: nat| k <= notes.len() implies #[trigger] bot_upto(notes, k) =~= notes.take(k as int).map_values(
        |n: Notice| notice_json(n),
    ) by {
        lemma_bot_upto(notes, k);
    }
    assert(notes.take(notes.len() as int) =~= notes);
}

proof fn lemma_bot_upto(notes: Seq<Notice>, k: nat)
    requires
        all_have_status(notes),
        k <= notes.len(),
    ensures
        bot_upto(notes, k) =~= notes.take(k as int).map_values(|n: Notice| notice_json(n)),
    decreases k,
{
    if k > 0 {
        lemma_bot_upto(notes, (k - 1) as nat);
        assert(notes[k - 1].status is Some);
        assert(notes.take(k as int).drop_last() =~= notes.take(k - 1));
    }
}

/// With a key, `nl` prints for the latest notification the line that `nls`
/// prints first, when that notification has a status.
pub proof fn lemma_latest_is_first_of_second(notes: Seq<Notice>, k: Seq<char>)
    requires
        notes.len() > 0,
        notes[0].status is Some,
    ensures
        latest_lines(notes, Some(k))[0] == second_lines(notes, Some(k))[0],
{
    lemma_second_upto_starts(notes, Some(k), notes.len());
}

proof fn lemma_second_upto_starts(notes: Seq<Notice>, key: Option<Seq<char>>, j: nat)
    requires
        notes.len() > 0,
        notes[0].status is Some,
        1 <= j <= notes.len(),
    ensures
        second_upto(notes, key, j).len() >= 1,
        second_upto(notes, key, j)[0] == second_item(notes, key, 0)[0],
    decreases j,
{
    if j == 1 {
        assert(second_upto(notes, key, 0) =~= seq![]);
        assert(second_upto(notes, key, 1) =~= second_item(notes, key, 0));
    } else {
        lemma_second_upto_starts(notes, key, (j - 1) as nat);
    }
}

/// Without a key, the record that `nl` prints for the latest notification is
/// the first line that `bot` prints, when that notification has a status.
pub proof fn lemma_latest_is_first_of_bot(notes: Seq<Notice>)
    requires
        notes.len() > 0,
        notes[0].status is Some,
    ensures
        latest_lines(notes, None)[0] == LineView::Text(bot_lines(notes)[0]),
{
    lemma_bot_upto_starts(notes, notes.len());
}

proof fn lemma_bot_upto_starts(notes: Seq<Notice>, j: nat)
    requires
        notes.len() > 0,
        notes[0].status is Some,
        1 <= j <= notes.len(),
    ensures
        bot_upto(notes, j).len() >= 1,
        bot_upto(notes, j)[0] == notice_json(notes[0]),
    decreases j,
{
    if j == 1 {
        assert(bot_upto(notes, 0) =~= seq![]);
    } else {
        lemma_bot_upto_starts(notes, (j - 1) as nat);
    }
}

/// What `nl -o key` and `nls -o key` print for a notification that has a
/// status: for `id` the notification's own id, for `mid` the id of its
/// status, for `user`, `date` and `url` those of the account that caused it
/// and the date, for `body` the body of its status, for `type` the name of
/// its kind, for `status` the dump of its status, and for any other key the
/// list of keys.
pub proof fn lemma_field_lines(n: Notice, i: int, k: Seq<char>)
    requires
        n.status is Some,
        0 <= i,
    ensures
        field_line_of(n, i, field_key_of("id"@)) == LineView::Text(n.id@),
        field_line_of(n, i, field_key_of("mid"@)) == LineView::Text(n.status->0.id@),
        field_line_of(n, i, field_key_of("user"@)) == LineView::Text(n.username@),
        field_line_of(n, i, field_key_of("date"@)) == LineView::Text(n.date@),
        field_line_of(n, i, field_key_of("body"@)) == LineView::Text(n.status->0.content@),
        field_line_of(n, i, field_key_of("url"@)) == LineView::Text(n.account_url@),
        n.kind is Mention ==> field_line_of(n, i, field_key_of("type"@)) == LineView::Text("Mention"@),
        n.kind is Reblog ==> field_line_of(n, i, field_key_of("type"@)) == LineView::Text("Reblog"@),
        n.kind is Favourite ==> field_line_of(n, i, field_key_of("type"@)) == LineView::Text("Favourite"@),
        n.kind is Follow ==> field_line_of(n, i, field_key_of("type"@)) == LineView::Text("Follow"@),
        field_line_of(n, i, field_key_of("status"@)) == LineView::StatusOf(i as nat),
        k != "id"@ && k != "mid"@ && k != "user"@ && k != "date"@ && k != "body"@ && k != "url"@
            && k != "type"@ && k != "status"@ ==> field_line_of(n, i, field_key_of(k))
            == LineView::Text("not matched(id, mid, user, date, body, url, type, status)"@),
{
    reveal_strlit("id");
    reveal_strlit("mid");
    reveal_strlit("user");
    reveal_strlit("date");
    reveal_strlit("body");
    reveal_strlit("url");
    reveal_strlit("type");
    reveal_strlit("status");
    assert("mid"@ != "id"@) by {
        assert("mid"@.len() != "id"@.len());
    }
    assert("user"@ != "id"@) by {
        assert("user"@.len() != "id"@.len());
    }
    assert("user"@ != "mid"@) by {
        assert("user"@.len() != "mid"@.len());
    }
    assert("date"@ != "id"@) by {
        assert("date"@.len() != "id"@.len());
    }
    assert("date"@ != "mid"@) by {
        assert("date"@.len() != "mid"@.len());
    }
    assert("date"@ != "user"@) by {
        assert("date"@[0] != "user"@[0]);
    }
    assert("body"@ != "id"@) by {
        assert("body"@.len() != "id"@.len());
    }
    assert("body"@ != "mid"@) by {
        assert("body"@.len() != "mid"@.len());
    }
    assert("body"@ != "user"@) by {
        assert("body"@[0] != "user"@[0]);
    }
    assert("body"@ != "date"@) by {
        assert("body"@[0] != "date"@[0]);
    }
    assert("url"@ != "id"@) by {
        assert("url"@.len() != "id"@.len());
    }
    assert("url"@ != "mid"@) by {
        assert("url"@[0] != "mid"@[0]);
    }
    assert("url"@ != "user"@) by {
        assert("url"@.len() != "user"@.len());
    }
    assert("url"@ != "date"@) by {
        assert("url"@.len() != "date"@.len());
    }
    assert("url"@ != "body"@) by {
        assert("url"@.len() != "body"@.len());
    }
    assert("type"@ != "id"@) by {
        assert("type"@.len() != "id"@.len());
    }
    assert("type"@ != "mid"@) by {
        assert("type"@.len() != "mid"@.len());
    }
    assert("type"@ != "user"@) by {
        assert("type"@[0] != "user"@[0]);
    }
    assert("type"@ != "date"@) by {
        assert("type"@[0] != "date"@[0]);
    }
    assert("type"@ != "body"@) by {
        assert("type"@[0] != "body"@[0]);
    }
    assert("type"@ != "url"@) by {
        assert("type"@.len() != "url"@.len());
    }
    assert("status"@ != "id"@) by {
        assert("status"@.len() != "id"@.len());
    }
    assert("status"@ != "mid"@) by {
        assert("status"@.len() != "mid"@.len());
    }
    assert("status"@ != "user"@) by {
        assert("status"@.len() != "user"@.len());
    }
    assert("status"@ != "date"@) by {
        assert("status"@.len() != "date"@.len());
    }
    assert("status"@ != "body"@) by {
        assert("status"@.len() != "body"@.len());
    }
    assert("status"@ != "url"@) by {
        assert("status"@.len() != "url"@.len());
    }
    assert("status"@ != "type"@) by {
        assert("status"@.len() != "type"@.len());
    }
}

/// Whether a notification has a status.
pub open spec fn has_status() -> spec_fn(Notice) -> bool {
    |n: Notice| n.status is Some
}

/// The JSON record of a notification.
pub open spec fn record_of() -> spec_fn(Notice) -> Seq<char> {
    |n: Notice| notice_json(n)
}

/// The records of the notifications of a list that have a status, in order.
pub open spec fn records_of(notes: Seq<Notice>) -> Seq<Seq<char>> {
    notes.filter(has_status()).map_values(record_of())
}

proof fn lemma_bot_upto_records(notes: Seq<Notice>, k: nat)
    requires
        k <= notes.len(),
    ensures
        bot_upto(notes, k) == records_of(notes.take(k as int)),
    decreases k,
{
    if k == 0 {
        assert(notes.take(0) =~= Seq::<Notice>::empty());
        assert(records_of(notes.take(0)) =~= Seq::<Seq<char>>::empty());
    } else {
        lemma_bot_upto_records(notes, (k - 1) as nat);
        let prev = notes.take(k - 1);
        let x = notes[k - 1];
        assert(notes.take(k as int) =~= prev.push(x));
        prev.lemma_filter_push(x, has_status());
        prev.filter(has_status()).lemma_push_map_commute(record_of(), x);
        assert(records_of(notes.take(k as int)) == records_of(prev) + if x.status is Some {
            seq![notice_json(x)]
        } else {
            seq![]
        }) by {
            if x.status is Some {
                assert(records_of(prev).push(notice_json(x)) =~= records_of(prev) + seq![notice_json(x)]);
            } else {
                assert(records_of(prev) =~= records_of(prev) + Seq::<Seq<char>>::empty());
            }
        }
    }
}

/// For any list of notifications, `bot` prints the record of each one that
/// has a status, in order, and nothing for one without; it prints `[]` only
/// for an empty list.
pub proof fn lemma_bot_prints_records_with_status(notes: Seq<Notice>)
    ensures
        notes.len() > 0 ==> bot_lines(notes) == records_of(notes),
        notes.len() == 0 ==> bot_lines(notes) == seq!["[]"@],
{
    if notes.len() > 0 {
        lemma_bot_upto_records(notes, notes.len());
        assert(notes.take(notes.len() as int) =~= notes);
    }
}

/// The indices of the notifications of a list that have a status, in order.
pub open spec fn status_indices(notes: Seq<Notice>, j: int) -> Seq<int> {
    Seq::new(j as nat, |i: int| i).filter(|i: int| 0 <= i < notes.len() && notes[i].status is Some)
}

/// The line for `key` of the notification at index `i`.
pub open spec fn line_at(notes: Seq<Notice>, key: FieldKey) -> spec_fn(int) -> LineView {
    |i: int| field_line_of(notes[i], i, key)
}

proof fn lemma_status_indices_step(notes: Seq<Notice>, j: int)
    requires
        1 <= j <= notes.len(),
    ensures
        status_indices(notes, j) == if notes[j - 1].status is Some {
            status_indices(notes, j - 1).push(j - 1)
        } else {
            status_indices(notes, j - 1)
        },
{
    let p = |i: int| 0 <= i < notes.len() && notes[i].status is Some;
    let a = Seq::new(j as nat, |i: int| i);
    let b = Seq::new((j - 1) as nat, |i: int| i);
    assert(a =~= b.push(j - 1));
    b.lemma_filter_push(j - 1, p);
}

proof fn lemma_second_key_upto(notes: Seq<Notice>, k: Seq<char>, j: nat)
    requires
        j <= notes.len(),
    ensures
        second_upto(notes, Some(k), j) == status_indices(notes, j as int).map_values(
            line_at(notes, field_key_of(k)),
        ),
    decreases j,
{
    let f = line_at(notes, field_key_of(k));
    if j == 0 {
        assert(status_indices(notes, 0) =~= Seq::<int>::empty());
        assert(status_indices(notes, 0).map_values(f) =~= Seq::<LineView>::empty());
    } else {
        lemma_second_key_upto(notes, k, (j - 1) as nat);
        lemma_status_indices_step(notes, j as int);
        let prev = status_indices(notes, j - 1);
        if notes[j - 1].status is Some {
            prev.lemma_push_map_commute(f, j - 1);
            assert(prev.map_values(f).push(f(j - 1)) =~= prev.map_values(f) + second_item(
                notes,
                Some(k),
                j - 1,
            ));
        } else {
            assert(prev.map_values(f) =~= prev.map_values(f) + second_item(notes, Some(k), j - 1));
        }
    }
}

/// With a key, for any non-empty list, `nls` prints the line of that key
/// for each notification that has a status, in the order of the list, and
/// nothing for one without; `[]` is printed only for an empty list.
pub proof fn lemma_second_with_key(notes: Seq<Notice>, k: Seq<char>)
    ensures
        notes.len() > 0 ==> second_lines(notes, Some(k)) == status_indices(
            notes,
            notes.len() as int,
        ).map_values(line_at(notes, field_key_of(k))),
        notes.len() == 0 ==> second_lines(notes, Some(k)) == seq![LineView::Text("[]"@)],
{
    if notes.len() > 0 {
        lemma_second_key_upto(notes, k, notes.len());
    }
}

proof fn lemma_json_escape_plain(s: Seq<char>)
    requires
        forall|i: int| 0 <= i < s.len() ==> 'a' <= #[trigger] s[i] <= 'z',
    ensures
        crate::external::json_escape(s) == s,
    decreases s.len(),
{
    if s.len() > 0 {
        lemma_json_escape_plain(s.drop_last());
        assert(s.drop_last().push(s.last()) =~= s);
    }
}

proof fn lemma_json_key(key: Seq<char>)
    requires
        forall|i: int| 0 <= i < key.len() ==> 'a' <= #[trigger] key[i] <= 'z',
    ensures
        json_string(key) == seq!['"'] + key + seq!['"'],
{
    lemma_json_escape_plain(key);
}

/// The text before a member: `{` or `,`, then the key as a JSON string and `:`.
pub open spec fn member_head(sep: char, key: Seq<char>) -> Seq<char> {
    seq![sep] + json_string(key) + seq![':']
}

proof fn lemma_heads()
    ensures
        "{\"user\":"@ == member_head('{', "user"@),
        ",\"id\":"@ == member_head(',', "id"@),
        ",\"mid\":"@ == member_head(',', "mid"@),
        ",\"url\":"@ == member_head(',', "url"@),
        ",\"date\":"@ == member_head(',', "date"@),
        ",\"body\":"@ == member_head(',', "body"@),
{
    reveal_strlit("user");
    reveal_strlit("id");
    reveal_strlit("mid");
    reveal_strlit("url");
    reveal_strlit("date");
    reveal_strlit("body");
    reveal_strlit("{\"user\":");
    reveal_strlit(",\"id\":");
    reveal_strlit(",\"mid\":");
    reveal_strlit(",\"url\":");
    reveal_strlit(",\"date\":");
    reveal_strlit(",\"body\":");
    lemma_json_key("user"@);
    lemma_json_key("id"@);
    lemma_json_key("mid"@);
    lemma_json_key("url"@);
    lemma_json_key("date"@);
    lemma_json_key("body"@);
    assert("{\"user\":"@ =~= member_head('{', "user"@));
    assert(",\"id\":"@ =~= member_head(',', "id"@));
    assert(",\"mid\":"@ =~= member_head(',', "mid"@));
    assert(",\"url\":"@ =~= member_head(',', "url"@));
    assert(",\"date\":"@ =~= member_head(',', "date"@));
    assert(",\"body\":"@ =~= member_head(',', "body"@));
}

/// The record of a notification is a JSON object with the members `user`,
/// `id`, `mid`, `url`, `date` and `body`, in that order, each key and value
/// written as a JSON string: the user name, the notification's id, the id
/// of its status, the account's URL, the date and the body of its status.
pub proof fn lemma_record_members(n: Notice)
    ensures
        notice_json(n) == member_head('{', "user"@) + json_string(n.username@) + member_head(
            ',',
            "id"@,
        ) + json_string(n.id@) + member_head(',', "mid"@) + json_string(n.status->0.id@)
            + member_head(',', "url"@) + json_string(n.account_url@) + member_head(',', "date"@)
            + json_string(n.date@) + member_head(',', "body"@) + json_string(n.status->0.content@)
            + seq!['}'],
{
    lemma_heads();
    reveal_strlit("}");
    assert("}"@ =~= seq!['}']);
}

} // verus!
