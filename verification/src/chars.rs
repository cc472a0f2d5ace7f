//! Cutting a long text into pieces that fit in a post.

use vstd::prelude::*;
use vstd::string::*;
use crate::external::{push_char, pop_char};
use crate::lines::strings_view;

verus! {



/// The number of characters after which `char_c` stops, when no limit is given.
pub const DEFAULT_LIMIT: i32 = 490;

/// Length of one piece in `char_cl`.
pub const LINE_PIECE: usize = 450;

/// The characters of `text`, in order.
pub fn chars_of(text: &str) -> (v: Vec<char>)
    ensures
        v@ == text@,
{
    let mut v: Vec<char> = Vec::new();
    for c in it: text.chars()
        invariant
            it.seq() == text@,
            v@ == it.seq().take(it.index() as int),
    {
        v.push(c);
        assert(v@ == it.seq().take(it.index() + 1));
    }
    assert(v@ == text@);
    v
}

/// The index of the last character that `char_c` keeps: one less than the
/// limit that was given, or `DEFAULT_LIMIT` without one.
pub fn char_l(limit: Option<isize>) -> (l: i32)
    requires
        limit matches Some(v) ==> i32::MIN < v <= i32::MAX,
    ensures
        limit matches Some(v) ==> l == v - 1,
        limit is None ==> l == DEFAULT_LIMIT,
{
    match limit {
        Some(v) => {
            let w: i32 = v as i32;
            w - 1
        },
        None => DEFAULT_LIMIT,
    }
}

/// The first `l + 1` characters of `text` (all of them if it is shorter).
pub open spec fn truncated(text: Seq<char>, l: int) -> Seq<char> {
    if text.len() <= l + 1 {
        text
    } else if l + 1 < 0 {
        seq![]
    } else {
        text.take(l + 1)
    }
}

/// Keeps the characters of `text` whose index is at most `l`.
pub fn char_c(text: &str, l: i32) -> (r: String)
    requires
        l >= 0 || text@.len() == 0,
    ensures
        r@ == truncated(text@, l as int),
{
    let n = text.unicode_len();
    if n == 0 {
        assert(text@ =~= Seq::<char>::empty());
        return String::new();
    }
    let keep: usize = l as usize + 1;
    let k: usize = if keep < n { keep } else { n };
    let r = text.substring_char(0, k).to_owned();
    assert(k == n ==> text@.subrange(0, k as int) == text@);
    r
}

/// The pieces that `char_cn` cuts a text into.
pub struct Segments {
    /// Characters 0 to 450.
    pub first: String,
    /// Characters 451 to 950.
    pub second: String,
    /// Characters 951 to 1450.
    pub third: String,
    /// Characters 1451 to 1950.
    pub fourth: String,
    /// Everything after character 1950.
    pub rest: String,
}

/// The characters of `text` with index in `lo .. hi`, clipped to its length.
pub open spec fn clipped(text: Seq<char>, lo: int, hi: int) -> Seq<char> {
    let a = if lo < text.len() { lo } else { text.len() as int };
    let b = if hi < text.len() { hi } else { text.len() as int };
    text.subrange(a, b)
}

fn clip(n: usize, i: usize) -> (r: usize)
    ensures
        r == if i < n { i } else { n },
{
    if i < n { i } else { n }
}

/// Cuts `text` into four pieces of at most 451, 500, 500 and 500 characters
/// and what remains after them.
pub fn char_cn(text: &str) -> (r: Segments)
    ensures
        r.first@ == clipped(text@, 0, 451),
        r.second@ == clipped(text@, 451, 951),
        r.third@ == clipped(text@, 951, 1451),
        r.fourth@ == clipped(text@, 1451, 1951),
        r.rest@ == clipped(text@, 1951, text@.len() as int),
        r.first@ + r.second@ + r.third@ + r.fourth@ + r.rest@ == text@,
{
    let n = text.unicode_len();
    let b1 = clip(n, 451);
    let b2 = clip(n, 951);
    let b3 = clip(n, 1451);
    let b4 = clip(n, 1951);
    let r = Segments {
        first: text.substring_char(0, b1).to_owned(),
        second: text.substring_char(b1, b2).to_owned(),
        third: text.substring_char(b2, b3).to_owned(),
        fourth: text.substring_char(b3, b4).to_owned(),
        rest: text.substring_char(b4, n).to_owned(),
    };
    assert(r.first@ + r.second@ + r.third@ + r.fourth@ + r.rest@ =~= text@);
    r
}

impl Segments {
    /// The pieces that are posted: the four pieces that are not empty, in order.
    pub open spec fn posts_spec(&self) -> Seq<Seq<char>> {
        seq![self.first@, self.second@, self.third@, self.fourth@].filter(
            |p: Seq<char>| p.len() > 0,
        )
    }

    /// The pieces that `char_cn` posts, in order.
    pub fn posts(&self) -> (r: Vec<String>)
        ensures
            strings_view(r@) == self.posts_spec(),
    {
        let ghost all = seq![self.first@, self.second@, self.third@, self.fourth@];
        let ghost pred = |p: Seq<char>| p.len() > 0;
        let mut r: Vec<String> = Vec::new();
        reveal_with_fuel(Seq::<_>::filter, 5);
        assert(all.take(0).filter(pred) =~= Seq::<Seq<char>>::empty());
        if self.first.as_str().unicode_len() > 0 {
            r.push(self.first.clone());
        }
        assert(all.take(1) =~= seq![self.first@]);
        assert(strings_view(r@) =~= all.take(1).filter(pred));
        if self.second.as_str().unicode_len() > 0 {
            r.push(self.second.clone());
        }
        assert(all.take(2).drop_last() =~= all.take(1));
        assert(strings_view(r@) =~= all.take(2).filter(pred));
        if self.third.as_str().unicode_len() > 0 {
            r.push(self.third.clone());
        }
        assert(all.take(3).drop_last() =~= all.take(2));
        assert(strings_view(r@) =~= all.take(3).filter(pred));
        if self.fourth.as_str().unicode_len() > 0 {
            r.push(self.fourth.clone());
        }
        assert(all.take(4).drop_last() =~= all.take(3));
        assert(all.take(4) =~= all);
        assert(strings_view(r@) =~= all.filter(pred));
        r
    }
}

/// One thing that `char_cl` does when it reaches the end of a piece: it
/// prints the text gathered so far and posts its last character, which it
/// removes from the gathered text.
pub struct ClEvent {
    /// The gathered text at that moment, as printed.
    pub printed: String,
    /// The character that is posted.
    pub posted: char,
}

/// The gathered text and the events so far, as values.
pub type ClState = (Seq<char>, Seq<(Seq<char>, char)>);

/// `char_cl` looking at character `n` in pass `counter`.
pub open spec fn cl_step(text: Seq<char>, counter: int, has_mid: bool, st: ClState, n: int) -> ClState {
    if n == 450 * counter {
        if has_mid && st.0.len() > 0 {
            (st.0.drop_last(), st.1.push((st.0, st.0.last())))
        } else {
            st
        }
    } else {
        (st.0.push(text[n]), st.1)
    }
}

/// The state after pass `counter` has looked at the first `k` characters.
pub open spec fn cl_pass(text: Seq<char>, counter: int, has_mid: bool, st: ClState, k: nat) -> ClState
    decreases k,
{
    if k == 0 {
        st
    } else {
        cl_step(text, counter, has_mid, cl_pass(text, counter, has_mid, st, (k - 1) as nat), k - 1)
    }
}

/// The state before pass `c` (passes are numbered from 1).
pub open spec fn cl_run(text: Seq<char>, has_mid: bool, c: nat) -> ClState
    decreases c,
{
    if c <= 1 {
        (seq![], seq![])
    } else {
        cl_pass(text, c - 1, has_mid, cl_run(text, has_mid, (c - 1) as nat), text.len())
    }
}

/// The events of `char_cl` on `text`: passes 1 up to `len / 450 - 1` over
/// the whole text.
pub open spec fn cl_events(text: Seq<char>, has_mid: bool) -> Seq<(Seq<char>, char)> {
    cl_run(text, has_mid, text.len() / 450).1
}

/// The view of an event.
pub open spec fn cl_event_view(e: ClEvent) -> (Seq<char>, char) {
    (e.printed@, e.posted)
}

/// The views of a sequence of events.
pub open spec fn cl_views(evs: Seq<ClEvent>) -> Seq<(Seq<char>, char)> {
    evs.map_values(|e: ClEvent| cl_event_view(e))
}

/// Appending an event appends its view.
proof fn lemma_views_push(evs: Seq<ClEvent>, e: ClEvent)
    ensures
        cl_views(evs.push(e)) == cl_views(evs).push(cl_event_view(e)),
{
    let l = cl_views(evs.push(e));
    let r = cl_views(evs).push(cl_event_view(e));
    assert(l.len() == r.len());
    assert forall|i: int| 0 <= i < l.len() implies l[i] == r[i] by {
        if i < evs.len() {
            assert(evs.push(e)[i] == evs[i]);
        }
    }
    assert(l =~= r);
}

/// Prints the gathered text and posts its last character.
fn cl_emit(s: &mut String, events: &mut Vec<ClEvent>)
    requires
        old(s)@.len() > 0,
    ensures
        final(s)@ == old(s)@.drop_last(),
        cl_views(final(events)@) == cl_views(old(events)@).push((old(s)@, old(s)@.last())),
{
    let printed = s.as_str().to_owned();
    let t = pop_char(s);
    let posted = t.unwrap();
    let ghost ev = ClEvent { printed, posted };
    events.push(ClEvent { printed, posted });
    assert(events@ == old(events)@.push(ev));
    assert(cl_event_view(ev) == (old(s)@, old(s)@.last()));
    proof {
        lemma_views_push(old(events)@, ev);
    }
    assert(cl_views(events@) =~= cl_views(old(events)@).push((old(s)@, old(s)@.last())));
}

/// Walks `text` in passes; in pass `counter` it gathers every character
/// except the one at index `450 * counter`, where, if a reply target is set
/// (`has_mid`) and the gathered text is not empty, it prints the gathered
/// text and posts (and removes) its last character. Passes run for
/// `counter` from 1 while `counter` differs from `len / 450`; a text of
/// fewer than 450 characters never ends, and is left out.
pub fn char_cl(text: &str, has_mid: bool) -> (r: Vec<ClEvent>)
    requires
        text@.len() >= LINE_PIECE,
    ensures
        cl_views(r@) == cl_events(text@, has_mid),
{
    let chars = chars_of(text);
    let max = chars.len();
    let nn = max / LINE_PIECE;
    let mut s = String::new();
    let mut events: Vec<ClEvent> = Vec::new();
    let mut counter: usize = 1;
    while counter != nn
        invariant
            chars@ == text@,
            max == text@.len(),
            nn == max / 450,
            1 <= counter <= nn,
            s@ == cl_run(text@, has_mid, counter as nat).0,
            cl_views(events@) == cl_run(text@, has_mid, counter as nat).1,
        decreases nn - counter,
    {
        let ghost start = cl_run(text@, has_mid, counter as nat);
        let mut n: usize = 0;
        while n < max
            invariant
                chars@ == text@,
                max == text@.len(),
                nn == max / 450,
                1 <= counter < nn,
                n <= max,
                s@ == cl_pass(text@, counter as int, has_mid, start, n as nat).0,
                cl_views(events@) == cl_pass(
                    text@,
                    counter as int,
                    has_mid,
                    start,
                    n as nat,
                ).1,
            decreases max - n,
        {
            let ghost before = cl_pass(text@, counter as int, has_mid, start, n as nat);
            assert(counter * 450 <= max) by (nonlinear_arith)
                requires counter < nn, nn == max / 450;
            if n == LINE_PIECE * counter {
                if has_mid && !s.as_str().is_empty() {
                    cl_emit(&mut s, &mut events);
                }
            } else {
                push_char(&mut s, chars[n]);
            }
            n = n + 1;
        }
        counter = counter + 1;
    }
    events
}

proof fn lemma_cl_pass_silent(text: Seq<char>, counter: int, st: ClState, k: nat)
    ensures
        cl_pass(text, counter, false, st, k).1 == st.1,
    decreases k,
{
    if k > 0 {
        lemma_cl_pass_silent(text, counter, st, (k - 1) as nat);
    }
}

proof fn lemma_cl_run_silent(text: Seq<char>, c: nat)
    ensures
        cl_run(text, false, c).1 == Seq::<(Seq<char>, char)>::empty(),
    decreases c,
{
    if c > 1 {
        lemma_cl_run_silent(text, (c - 1) as nat);
        lemma_cl_pass_silent(text, c - 1, cl_run(text, false, (c - 1) as nat), text.len());
    }
}

/// Without a reply target, `char_cl` prints and posts nothing.
pub proof fn lemma_char_cl_silent_without_mid(text: Seq<char>)
    ensures
        cl_events(text, false) == Seq::<(Seq<char>, char)>::empty(),
{
    lemma_cl_run_silent(text, text.len() / 450);
}

/// A text of 450 to 899 characters makes `char_cl` print and post nothing.
pub proof fn lemma_char_cl_one_piece_is_silent(text: Seq<char>, has_mid: bool)
    requires
        450 <= text.len() < 900,
    ensures
        cl_events(text, has_mid) == Seq::<(Seq<char>, char)>::empty(),
{
    assert(text.len() / 450 == 1);
}

/// Each piece that `char_cn` posts holds at most 500 characters (the first
/// at most 451), and only the rest of a text longer than 1951 characters is
/// left unposted.
pub proof fn lemma_char_cn_pieces_fit(text: Seq<char>)
    ensures
        clipped(text, 0, 451).len() <= 451,
        clipped(text, 451, 951).len() <= 500,
        clipped(text, 951, 1451).len() <= 500,
        clipped(text, 1451, 1951).len() <= 500,
        text.len() <= 1951 ==> clipped(text, 1951, text.len() as int).len() == 0,
{
}

/// The text that `char_cl` has gathered before pass `c` when a reply
/// target is set: for each earlier pass `j`, the text before character
/// `450 * j - 1` and the text after character `450 * j`.
pub open spec fn cl_gathered(text: Seq<char>, c: nat) -> Seq<char>
    decreases c,
{
    if c <= 1 {
        seq![]
    } else {
        let j = c - 1;
        cl_gathered(text, (c - 1) as nat) + text.take(450 * j - 1) + text.subrange(
            450 * j + 1,
            text.len() as int,
        )
    }
}

/// What pass `c` of `char_cl` prints and posts when a reply target is set:
/// the gathered text followed by the first `450 * c` characters, and the
/// character at index `450 * c - 1`.
pub open spec fn cl_event_at(text: Seq<char>, c: nat) -> (Seq<char>, char) {
    (cl_gathered(text, c) + text.take(450 * c as int), text[450 * c - 1])
}

/// Pass `c` of `char_cl` with a reply target, after `k` characters.
proof fn lemma_cl_pass_mid(text: Seq<char>, c: int, st: ClState, k: nat)
    requires
        c >= 1,
        450 * c < text.len(),
        k <= text.len(),
    ensures
        k <= 450 * c ==> cl_pass(text, c, true, st, k) == (st.0 + text.take(k as int), st.1),
        k > 450 * c ==> cl_pass(text, c, true, st, k) == (
            st.0 + text.take(450 * c - 1) + text.subrange(450 * c + 1, k as int),
            st.1.push((st.0 + text.take(450 * c), text[450 * c - 1])),
        ),
    decreases k,
{
    if k == 0 {
        assert(st.0 + text.take(0) =~= st.0);
    } else {
        lemma_cl_pass_mid(text, c, st, (k - 1) as nat);
        let n = k - 1;
        if n < 450 * c {
            assert((st.0 + text.take(n)).push(text[n]) =~= st.0 + text.take(k as int));
        } else if n == 450 * c {
            let g = st.0 + text.take(450 * c);
            assert(g.len() > 0);
            assert(g.last() == text[450 * c - 1]);
            assert(g.drop_last() =~= st.0 + text.take(450 * c - 1) + text.subrange(
                450 * c + 1,
                k as int,
            ));
        } else {
            let g = st.0 + text.take(450 * c - 1) + text.subrange(450 * c + 1, n);
            assert(g.push(text[n]) =~= st.0 + text.take(450 * c - 1) + text.subrange(
                450 * c + 1,
                k as int,
            ));
        }
    }
}

proof fn lemma_cl_run_mid(text: Seq<char>, c: nat)
    requires
        1 <= c,
        450 * c <= text.len(),
    ensures
        cl_run(text, true, c).0 == cl_gathered(text, c),
        cl_run(text, true, c).1.len() == c - 1,
        forall|j: nat| 1 <= j < c ==> cl_run(text, true, c).1[j - 1] == #[trigger] cl_event_at(text, j),
    decreases c,
{
    if c > 1 {
        let j = (c - 1) as nat;
        lemma_cl_run_mid(text, j);
        let prev = cl_run(text, true, j);
        lemma_cl_pass_mid(text, j as int, prev, text.len());
        let cur = cl_run(text, true, c);
        assert(cur.1 == prev.1.push(cl_event_at(text, j)));
        assert forall|i: nat| 1 <= i < c implies cur.1[i - 1] == #[trigger] cl_event_at(text, i) by {
            if i < j {
                assert(cur.1[i - 1] == prev.1[i - 1]);
            }
        }
    }
}

/// With a reply target, `char_cl` on a text of `len` characters acts
/// `len / 450 - 1` times; the `c`-th time it prints the gathered text
/// followed by the first `450 * c` characters and posts the character at
/// index `450 * c - 1`.
pub proof fn lemma_char_cl_events_with_mid(text: Seq<char>)
    requires
        text.len() >= 450,
    ensures
        cl_events(text, true).len() == text.len() / 450 - 1,
        forall|c: nat|
            1 <= c < text.len() / 450 ==> cl_events(text, true)[c - 1] == #[trigger] cl_event_at(
                text,
                c,
            ),
{
    let n = (text.len() / 450) as nat;
    assert(450 * n <= text.len());
    assert(n >= 1);
    lemma_cl_run_mid(text, n);
}

/// `p` as a list of one post when it is not empty, else no post.
pub open spec fn piece_post(p: Seq<char>) -> Seq<Seq<char>> {
    if p.len() > 0 {
        seq![p]
    } else {
        seq![]
    }
}

proof fn lemma_flatten_piece(p: Seq<char>, rest: Seq<Seq<char>>)
    ensures
        (piece_post(p) + rest).flatten() == p + rest.flatten(),
{
    if p.len() > 0 {
        let x = piece_post(p) + rest;
        assert(x.first() == p);
        assert(x.drop_first() =~= rest);
    } else {
        assert(piece_post(p) + rest =~= rest);
        assert(p + rest.flatten() =~= rest.flatten());
    }
}

/// `char_cn` posts the pieces that are not empty, each once and in order:
/// the first, then the second, the third and the fourth; joined, the posts
/// give back the four pieces.
pub proof fn lemma_posts_are_nonempty_pieces(s: Segments)
    ensures
        s.posts_spec() == piece_post(s.first@) + (piece_post(s.second@) + (piece_post(s.third@)
            + piece_post(s.fourth@))),
        forall|i: int| 0 <= i < s.posts_spec().len() ==> (#[trigger] s.posts_spec()[i]).len() > 0,
        s.posts_spec().flatten() == s.first@ + s.second@ + s.third@ + s.fourth@,
{
    let all = seq![s.first@, s.second@, s.third@, s.fourth@];
    reveal_with_fuel(Seq::<_>::filter, 5);
    assert(all.drop_last() =~= seq![s.first@, s.second@, s.third@]);
    assert(all.drop_last().drop_last() =~= seq![s.first@, s.second@]);
    assert(all.drop_last().drop_last().drop_last() =~= seq![s.first@]);
    assert(all.drop_last().drop_last().drop_last().drop_last() =~= Seq::<Seq<char>>::empty());
    let expected = piece_post(s.first@) + (piece_post(s.second@) + (piece_post(s.third@)
        + piece_post(s.fourth@)));
    assert(s.posts_spec() =~= expected);
    let e = Seq::<Seq<char>>::empty();
    assert(piece_post(s.fourth@) =~= piece_post(s.fourth@) + e);
    assert(e.flatten() == Seq::<char>::empty());
    lemma_flatten_piece(s.fourth@, e);
    lemma_flatten_piece(s.third@, piece_post(s.fourth@));
    lemma_flatten_piece(s.second@, piece_post(s.third@) + piece_post(s.fourth@));
    lemma_flatten_piece(
        s.first@,
        piece_post(s.second@) + (piece_post(s.third@) + piece_post(s.fourth@)),
    );
    assert(s.first@ + (s.second@ + (s.third@ + (s.fourth@ + Seq::<char>::empty())))
        =~= s.first@ + s.second@ + s.third@ + s.fourth@);
}

/// The posts of `char_cn` on `text`, joined, are its first 1951 characters
/// (all of it when it is shorter).
pub proof fn lemma_char_cn_posts_cover(text: Seq<char>, s: Segments)
    requires
        s.first@ == clipped(text, 0, 451),
        s.second@ == clipped(text, 451, 951),
        s.third@ == clipped(text, 951, 1451),
        s.fourth@ == clipped(text, 1451, 1951),
    ensures
        s.posts_spec().flatten() == if text.len() <= 1951 {
            text
        } else {
            text.take(1951)
        },
{
    lemma_posts_are_nonempty_pieces(s);
    if text.len() <= 1951 {
        assert(s.first@ + s.second@ + s.third@ + s.fourth@ =~= text);
    } else {
        assert(s.first@ + s.second@ + s.third@ + s.fourth@ =~= text.take(1951));
    }
}

/// `char` prints a prefix of the text: its first `l + 1` characters, or the
/// whole text when it is shorter.
pub proof fn lemma_char_c_prefix(text: Seq<char>, l: int)
    requires
        l >= 0,
    ensures
        truncated(text, l).len() == if text.len() <= l + 1 {
            text.len() as int
        } else {
            l + 1
        },
        forall|i: int| 0 <= i < truncated(text, l).len() ==> #[trigger] truncated(text, l)[i] == text[i],
{
}

} // verus!
