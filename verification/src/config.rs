//! The settings the client reads, and the files under `~/.config/msr/`.

use vstd::prelude::*;
use vstd::string::*;
use crate::external::{expand_tilde, opt_view, tilde_expanded, toml_entry, toml_entry_doc, is_bare_key};

verus! {

/// The Mastodon account: the settings of `config.toml`.
pub struct Data {
    pub base: String,
    pub token: String,
    pub client_id: String,
    pub client_secret: String,
    pub redirect: String,
}

/// The Misskey account: its settings sit in `config.toml` beside those of
/// the Mastodon account.
pub struct Datam {
    pub misskey_base: String,
    pub misskey_api: String,
    pub misskey_stream: String,
    pub misskey_token: String,
}

/// The status that replies go to by default: the setting of `set.toml`.
pub struct Sets {
    pub mid: String,
}

/// The DeepL key: the setting of `deepl.toml`.
pub struct Deep {
    pub api: String,
}

/// The path of the file `name` in the client's directory, for the home
/// directory `home`; without a home directory the path keeps its `~`.
pub open spec fn msr_path_of(name: Seq<char>, home: Option<Seq<char>>) -> Seq<char> {
    match home {
        Some(h) => h + "/.config/msr/"@ + name,
        None => "~/.config/msr/"@ + name,
    }
}

/// The path of the file `name` in `~/.config/msr/`, with `~` expanded to
/// `home`.
pub fn msr_path(name: &str, home: Option<String>) -> (r: String)
    ensures
        r@ == msr_path_of(name@, opt_view(home)),
{
    let mut input = String::from_str("~/.config/msr/");
    input.append(name);
    let ghost hv = opt_view(home);
    proof {
        reveal_strlit("~/.config/msr/");
        reveal_strlit("/.config/msr/");
        assert(input@[0] == '~');
        assert(input@[1] == '/');
        assert(input@.drop_first() =~= "/.config/msr/"@ + name@);
    }
    let r = expand_tilde(input.as_str(), home);
    assert(r@ == tilde_expanded(input@, hv));
    r
}

impl Data {
    /// Where the Mastodon settings are read from.
    pub fn config_path(home: Option<String>) -> (r: String)
        ensures
            r@ == msr_path_of("config.toml"@, opt_view(home)),
    {
        msr_path("config.toml", home)
    }

    /// The shell line that `a` writes to `msr.zsh`: the instance of the account.
    pub fn zsh_export(&self) -> (r: String)
        ensures
            r@ == "export MASTODON_BASE="@ + self.base@ + "\n"@,
    {
        let mut r = String::from_str("export MASTODON_BASE=");
        r.append(self.base.as_str());
        r.append("\n");
        r
    }
}

impl Datam {
    /// Where the Misskey settings are read from: `config.toml`.
    pub fn config_path(home: Option<String>) -> (r: String)
        ensures
            r@ == msr_path_of("config.toml"@, opt_view(home)),
    {
        msr_path("config.toml", home)
    }
}

impl Sets {
    /// Where the default reply target is read from and written to.
    pub fn config_path(home: Option<String>) -> (r: String)
        ensures
            r@ == msr_path_of("set.toml"@, opt_view(home)),
    {
        msr_path("set.toml", home)
    }

    /// What is written to `set.toml` for the reply target `mid`: nothing when
    /// it is empty, else the TOML entry `mid = "..."`.
    pub fn file_content(mid: &str) -> (r: Option<String>)
        ensures
            mid@.len() == 0 ==> r is None,
            mid@.len() > 0 ==> opt_view(r) == Some(toml_entry_doc("mid"@, mid@)),
    {
        if mid.is_empty() {
            None
        } else {
            proof {
                reveal_strlit("mid");
            }
            assert(is_bare_key("mid"@));
            Some(toml_entry("mid", mid))
        }
    }
}

impl Deep {
    /// Where the DeepL key is read from and written to.
    pub fn config_path(home: Option<String>) -> (r: String)
        ensures
            r@ == msr_path_of("deepl.toml"@, opt_view(home)),
    {
        msr_path("deepl.toml", home)
    }

    /// The `Authorization` header of a DeepL request.
    pub fn auth_header(&self) -> (r: String)
        ensures
            r@ == "DeepL-Auth-Key "@ + self.api@,
    {
        let mut r = String::from_str("DeepL-Auth-Key ");
        r.append(self.api.as_str());
        r
    }

    /// What `tt -a` writes to `deepl.toml` for the key `api`.
    pub fn file_content(api: &str) -> (r: String)
        ensures
            r@ == "api='"@ + api@ + "'"@,
    {
        let mut r = String::from_str("api='");
        r.append(api);
        r.append("'");
        r
    }
}

/// Where the last translation is kept.
pub fn deepl_text_path(home: Option<String>) -> (r: String)
    ensures
        r@ == msr_path_of("deepl.txt"@, opt_view(home)),
{
    msr_path("deepl.txt", home)
}

/// Where `a` writes the shell settings.
pub fn zsh_path(home: Option<String>) -> (r: String)
    ensures
        r@ == msr_path_of("msr.zsh"@, opt_view(home)),
{
    msr_path("msr.zsh", home)
}

/// The directory of the avatar files.
pub fn icon_dir(home: Option<String>) -> (r: String)
    ensures
        r@ == msr_path_of("icon/"@, opt_view(home)),
{
    msr_path("icon/", home)
}

/// The path of the avatar file `file`.
pub fn icon_path(file: &str, home: Option<String>) -> (r: String)
    ensures
        r@ == msr_path_of("icon/"@ + file@, opt_view(home)),
{
    let mut name = String::from_str("icon/");
    name.append(file);
    msr_path(name.as_str(), home)
}

/// The file that `a` copies over `config.toml`: `setting.toml` for `-d`,
/// `social.toml` for `-s`, and otherwise the path given.
pub open spec fn account_source_of(arg: Seq<char>, home: Option<Seq<char>>) -> Seq<char> {
    if arg == "-d"@ {
        msr_path_of("setting.toml"@, home)
    } else if arg == "-s"@ {
        msr_path_of("social.toml"@, home)
    } else {
        arg
    }
}

/// The source and the destination of the copy that `a` makes.
pub fn account_paths(arg: &str, home: Option<String>) -> (r: (String, String))
    ensures
        r.0@ == account_source_of(arg@, opt_view(home)),
        r.1@ == msr_path_of("config.toml"@, opt_view(home)),
{
    let a = arg.to_owned();
    let dst = Data::config_path(home.clone());
    let src = if a == String::from_str("-d") {
        msr_path("setting.toml", home)
    } else if a == String::from_str("-s") {
        msr_path("social.toml", home)
    } else {
        a
    };
    (src, dst)
}

/// `a` copies the file named on the command line itself, wherever it is and
/// whatever the home directory, unless it is `-d` or `-s`, which name
/// `setting.toml` and `social.toml` in the client's directory.
pub proof fn lemma_account_source(arg: Seq<char>, home: Option<Seq<char>>, other: Option<Seq<char>>)
    ensures
        arg != "-d"@ && arg != "-s"@ ==> account_source_of(arg, home) == arg,
        arg != "-d"@ && arg != "-s"@ ==> account_source_of(arg, home) == account_source_of(arg, other),
        arg == "-d"@ ==> account_source_of(arg, home) == msr_path_of("setting.toml"@, home),
        arg == "-s"@ ==> account_source_of(arg, home) == msr_path_of("social.toml"@, home),
        home matches Some(h) ==> msr_path_of("config.toml"@, home) == h + "/.config/msr/config.toml"@,
{
    reveal_strlit("-d");
    reveal_strlit("-s");
    assert("-s"@ != "-d"@) by {
        assert("-s"@[1] != "-d"@[1]);
    }
    reveal_strlit("/.config/msr/");
    reveal_strlit("config.toml");
    reveal_strlit("/.config/msr/config.toml");
    if let Some(h) = home {
        assert(h + "/.config/msr/"@ + "config.toml"@ =~= h + "/.config/msr/config.toml"@);
    }
}

} // verus!
