//! Statuses of a timeline: the lines printed for them and the avatar files
//! shown beside them.

use vstd::prelude::*;
use vstd::string::*;
use crate::external::{debug_quote, path_extension, path_extension_of, str_debug};
use crate::lines::{spaced, spaced_spec, strings_view, lemma_strings_view_push};

verus! {

/// The status that a reblog shares.
pub struct Reblogged {
    /// Its Fediverse-wide id.
    pub uri: String,
    /// Its body.
    pub content: String,
}

/// A status of a timeline, as far as the client reads it.
pub struct Post {
    /// The id of the status.
    pub id: String,
    /// The user name of its author.
    pub username: String,
    /// Its body; empty for a reblog.
    pub content: String,
    /// The URL of the author's static avatar.
    pub avatar_static: String,
    /// The status it reblogs, if any.
    pub reblog: Option<Reblogged>,
}

/// A status whose line can be written: one with an empty body must be a reblog.
pub open spec fn readable(p: Post) -> bool {
    p.content@.len() == 0 ==> p.reblog is Some
}

/// The line of `t`: the author and the quoted body and id, or for a reblog
/// `re:` and the author, then the quoted id and body of the reblogged
/// status and the quoted id.
pub open spec fn timeline_line_of(p: Post) -> Seq<char> {
    if p.content@.len() == 0 {
        spaced_spec(
            "re:"@ + p.username@,
            seq![str_debug(p.reblog->0.uri@), str_debug(p.reblog->0.content@), str_debug(p.id@)],
        )
    } else {
        spaced_spec(p.username@, seq![str_debug(p.content@), str_debug(p.id@)])
    }
}

/// The line of `i`: as `t` writes it, without the id.
pub open spec fn icon_line_of(p: Post) -> Seq<char> {
    if p.content@.len() == 0 {
        spaced_spec(
            "re:"@ + p.username@,
            seq![str_debug(p.reblog->0.uri@), str_debug(p.reblog->0.content@)],
        )
    } else {
        spaced_spec(p.username@, seq![str_debug(p.content@)])
    }
}

/// The line of `s -i -t`: the quoted id and the quoted body, or the quoted
/// body of the reblogged status when the body is empty.
pub open spec fn status_line_of(p: Post) -> Seq<char> {
    if p.content@.len() != 0 {
        spaced_spec(str_debug(p.id@), seq![str_debug(p.content@)])
    } else {
        spaced_spec(str_debug(p.id@), seq![str_debug(p.reblog->0.content@)])
    }
}

/// The lines of `t` for a list of statuses.
pub open spec fn timeline_view(ps: Seq<Post>) -> Seq<Seq<char>> {
    ps.map_values(|p: Post| timeline_line_of(p))
}

/// The lines of `s -i -t` for a list of statuses.
pub open spec fn status_view(ps: Seq<Post>) -> Seq<Seq<char>> {
    ps.map_values(|p: Post| status_line_of(p))
}

proof fn lemma_views_take_succ(ps: Seq<Post>, i: int)
    requires
        0 <= i < ps.len(),
    ensures
        timeline_view(ps.take(i + 1)) == timeline_view(ps.take(i)).push(timeline_line_of(ps[i])),
        status_view(ps.take(i + 1)) == status_view(ps.take(i)).push(status_line_of(ps[i])),
{
    assert(ps.take(i + 1) =~= ps.take(i).push(ps[i]));
    let a = timeline_view(ps.take(i + 1));
    let b = timeline_view(ps.take(i)).push(timeline_line_of(ps[i]));
    assert forall|j: int| 0 <= j < a.len() implies a[j] == b[j] by {}
    assert(a =~= b);
    let c = status_view(ps.take(i + 1));
    let d = status_view(ps.take(i)).push(status_line_of(ps[i]));
    assert forall|j: int| 0 <= j < c.len() implies c[j] == d[j] by {}
    assert(c =~= d);
}

/// Whether every status of a list can be written.
pub open spec fn all_readable(ps: Seq<Post>) -> bool {
    forall|i: int| 0 <= i < ps.len() ==> readable(#[trigger] ps[i])
}

fn two(a: String, b: String) -> (r: Vec<String>)
    ensures
        strings_view(r@) == seq![a@, b@],
{
    let mut r: Vec<String> = Vec::new();
    r.push(a);
    r.push(b);
    assert(strings_view(r@) =~= seq![a@, b@]);
    r
}

fn three(a: String, b: String, c: String) -> (r: Vec<String>)
    ensures
        strings_view(r@) == seq![a@, b@, c@],
{
    let mut r: Vec<String> = Vec::new();
    r.push(a);
    r.push(b);
    r.push(c);
    assert(strings_view(r@) =~= seq![a@, b@, c@]);
    r
}

fn one(a: String) -> (r: Vec<String>)
    ensures
        strings_view(r@) == seq![a@],
{
    let mut r: Vec<String> = Vec::new();
    r.push(a);
    assert(strings_view(r@) =~= seq![a@]);
    r
}

/// The line that `t` prints for one status.
pub fn timeline_line(p: &Post) -> (r: String)
    requires
        readable(*p),
    ensures
        r@ == timeline_line_of(*p),
{
    if p.content.as_str().is_empty() {
        let rb = p.reblog.as_ref().unwrap();
        let mut head = String::from_str("re:");
        head.append(p.username.as_str());
        spaced(
            head.as_str(),
            &three(
                debug_quote(rb.uri.as_str()),
                debug_quote(rb.content.as_str()),
                debug_quote(p.id.as_str()),
            ),
        )
    } else {
        spaced(
            p.username.as_str(),
            &two(debug_quote(p.content.as_str()), debug_quote(p.id.as_str())),
        )
    }
}

/// The line that `i` prints for one status.
pub fn icon_line(p: &Post) -> (r: String)
    requires
        readable(*p),
    ensures
        r@ == icon_line_of(*p),
{
    if p.content.as_str().is_empty() {
        let rb = p.reblog.as_ref().unwrap();
        let mut head = String::from_str("re:");
        head.append(p.username.as_str());
        spaced(
            head.as_str(),
            &two(debug_quote(rb.uri.as_str()), debug_quote(rb.content.as_str())),
        )
    } else {
        spaced(p.username.as_str(), &one(debug_quote(p.content.as_str())))
    }
}

/// The line that `s -i -t` prints for one status.
pub fn status_line(p: &Post) -> (r: String)
    requires
        readable(*p),
    ensures
        r@ == status_line_of(*p),
{
    let id = debug_quote(p.id.as_str());
    if !p.content.as_str().is_empty() {
        spaced(id.as_str(), &one(debug_quote(p.content.as_str())))
    } else {
        let rb = p.reblog.as_ref().unwrap();
        spaced(id.as_str(), &one(debug_quote(rb.content.as_str())))
    }
}

/// The lines that `t` prints for the home timeline.
pub fn timeline(posts: &Vec<Post>) -> (r: Vec<String>)
    requires
        all_readable(posts@),
    ensures
        strings_view(r@) == timeline_view(posts@),
{
    let mut r: Vec<String> = Vec::new();
    for i in 0..posts.len()
        invariant
            all_readable(posts@),
            strings_view(r@) == timeline_view(posts@.take(i as int)),
    {
        assert(readable(posts@[i as int]));
        let line = timeline_line(&posts[i]);
        proof {
            lemma_strings_view_push(r@, line);
            lemma_views_take_succ(posts@, i as int);
        }
        r.push(line);
    }
    assert(posts@.take(posts.len() as int) =~= posts@);
    r
}

/// The lines that `s -i -t` prints for the statuses of an account.
pub fn status_lines(posts: &Vec<Post>) -> (r: Vec<String>)
    requires
        all_readable(posts@),
    ensures
        strings_view(r@) == status_view(posts@),
{
    let mut r: Vec<String> = Vec::new();
    for i in 0..posts.len()
        invariant
            all_readable(posts@),
            strings_view(r@) == status_view(posts@.take(i as int)),
    {
        assert(readable(posts@[i as int]));
        let line = status_line(&posts[i]);
        proof {
            lemma_strings_view_push(r@, line);
            lemma_views_take_succ(posts@, i as int);
        }
        r.push(line);
    }
    assert(posts@.take(posts.len() as int) =~= posts@);
    r
}

/// The line that `d` prints before deleting the latest status: the author
/// and the quoted body.
pub fn delete_line(p: &Post) -> (r: String)
    ensures
        r@ == spaced_spec("delete -> "@ + p.username@, seq![str_debug(p.content@)]),
{
    let mut head = String::from_str("delete -> ");
    head.append(p.username.as_str());
    spaced(head.as_str(), &one(debug_quote(p.content.as_str())))
}

/// The line of `s -i` for an account: its quoted address and quoted id.
pub fn account_line(acct: &str, id: &str) -> (r: String)
    ensures
        r@ == spaced_spec(str_debug(acct@), seq![str_debug(id@)]),
{
    let a = debug_quote(acct);
    spaced(a.as_str(), &one(debug_quote(id)))
}

/// The name of the avatar file of `user`: the user name, a dot and the
/// extension of the avatar's URL.
pub open spec fn icon_file_name_of(user: Seq<char>, avatar: Seq<char>) -> Option<Seq<char>> {
    match path_extension_of(avatar) {
        Some(e) => Some(user + "."@ + e),
        None => None,
    }
}

/// The name of a file of `user` with the extension `ext`.
pub fn dotted(user: &str, ext: &str) -> (r: String)
    ensures
        r@ == user@ + "."@ + ext@,
{
    let mut f = user.to_owned();
    f.append(".");
    f.append(ext);
    f
}

/// The name of the avatar file of `user`, or `None` when the avatar's URL
/// has no extension.
pub fn icon_file_name(user: &str, avatar: &str) -> (r: Option<String>)
    ensures
        crate::external::opt_view(r) == icon_file_name_of(user@, avatar@),
{
    match path_extension(avatar) {
        Some(e) => Some(dotted(user, e.as_str())),
        None => None,
    }
}

/// The kind of operating system, as the program that shows images is chosen.
pub enum OsKind {
    Unknown,
    Redhat,
    Osx,
    Ubuntu,
    Debian,
    Arch,
    Manjaro,
    CentOS,
    OpenSuse,
    Alpine,
    Deepin,
    NixOs,
    Kali,
}

/// A program to run, with its arguments.
pub struct IconCommand {
    pub program: String,
    pub args: Vec<String>,
}

/// Whether the system is a Linux distribution.
pub open spec fn is_linux(os: OsKind) -> bool {
    !(os is Osx) && !(os is Unknown)
}

/// The program that shows the image at `path` and its arguments: `imgcat`
/// on macOS, `img2sixel` with `-h 25` on Linux and Windows, and nothing
/// elsewhere.
pub open spec fn icon_command_of(os: OsKind, windows: bool, path: Seq<char>) -> Option<(Seq<char>, Seq<Seq<char>>)> {
    if os is Osx {
        Some(("imgcat"@, seq![path]))
    } else if is_linux(os) || windows {
        Some(("img2sixel"@, seq![path, "-h 25"@]))
    } else {
        None
    }
}

/// The value of a command.
pub open spec fn command_view(c: Option<IconCommand>) -> Option<(Seq<char>, Seq<Seq<char>>)> {
    match c {
        Some(c) => Some((c.program@, strings_view(c.args@))),
        None => None,
    }
}

fn sixel(path: &str) -> (r: IconCommand)
    ensures
        r.program@ == "img2sixel"@,
        strings_view(r.args@) == seq![path@, "-h 25"@],
{
    IconCommand {
        program: String::from_str("img2sixel"),
        args: two(path.to_owned(), String::from_str("-h 25")),
    }
}

/// Chooses how to show the image at `path`.
pub fn icon_command(os: &OsKind, windows: bool, path: &str) -> (r: Option<IconCommand>)
    ensures
        command_view(r) == icon_command_of(*os, windows, path@),
{
    match os {
        OsKind::Osx => Some(IconCommand { program: String::from_str("imgcat"), args: one(path.to_owned()) }),
        OsKind::Unknown => if windows {
            Some(sixel(path))
        } else {
            None
        },
        _ => Some(sixel(path)),
    }
}

/// On every Linux distribution the avatar is shown with `img2sixel`, with
/// its path and `-h 25`; on macOS with `imgcat` and its path.
pub proof fn lemma_icon_command_on_linux(os: OsKind, windows: bool, path: Seq<char>)
    ensures
        !(os is Osx) && !(os is Unknown) ==> icon_command_of(os, windows, path) == Some(
            ("img2sixel"@, seq![path, "-h 25"@]),
        ),
        os is Osx ==> icon_command_of(os, windows, path) == Some(("imgcat"@, seq![path])),
        os is Unknown && !windows ==> icon_command_of(os, windows, path) is None,
{
}

} // verus!
