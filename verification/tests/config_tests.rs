use msr::config::{
    account_paths, deepl_text_path, icon_dir, icon_path, msr_path, zsh_path, Data, Datam, Deep,
    Sets,
};

fn home() -> Option<String> {
    Some("/home/u".to_string())
}

#[test]
fn paths_under_home() {
    assert_eq!(msr_path("config.toml", home()), "/home/u/.config/msr/config.toml");
    assert_eq!(Data::config_path(home()), "/home/u/.config/msr/config.toml");
    assert_eq!(Datam::config_path(home()), "/home/u/.config/msr/config.toml");
    assert_eq!(Sets::config_path(home()), "/home/u/.config/msr/set.toml");
    assert_eq!(Deep::config_path(home()), "/home/u/.config/msr/deepl.toml");
    assert_eq!(deepl_text_path(home()), "/home/u/.config/msr/deepl.txt");
    assert_eq!(zsh_path(home()), "/home/u/.config/msr/msr.zsh");
    assert_eq!(icon_dir(home()), "/home/u/.config/msr/icon/");
    assert_eq!(icon_path("ai.png", home()), "/home/u/.config/msr/icon/ai.png");
}

#[test]
fn paths_without_home_keep_tilde() {
    assert_eq!(msr_path("config.toml", None), "~/.config/msr/config.toml");
}

#[test]
fn account_switching() {
    let (s, d) = account_paths("-d", home());
    assert_eq!(s, "/home/u/.config/msr/setting.toml");
    assert_eq!(d, "/home/u/.config/msr/config.toml");
    assert_eq!(account_paths("-s", home()).0, "/home/u/.config/msr/social.toml");
    assert_eq!(account_paths("/tmp/x.toml", home()).0, "/tmp/x.toml");
}

#[test]
fn zsh_export_line() {
    let d = Data {
        base: "https://mstdn.example".to_string(),
        token: String::new(),
        client_id: String::new(),
        client_secret: String::new(),
        redirect: String::new(),
    };
    assert_eq!(d.zsh_export(), "export MASTODON_BASE=https://mstdn.example\n");
}

#[test]
fn deepl_settings() {
    let d = Deep { api: "k-1".to_string() };
    assert_eq!(d.auth_header(), "DeepL-Auth-Key k-1");
    assert_eq!(Deep::file_content("k-1"), "api='k-1'");
}

#[test]
fn set_file_content() {
    assert_eq!(Sets::file_content("109"), Some("mid = \"109\"\n".to_string()));
    assert_eq!(Sets::file_content(""), None);
    assert_eq!(Sets::file_content("a\"b\\c\n"), Some("mid = \"a\\\"b\\\\c\\n\"\n".to_string()));
    assert_eq!(Sets::file_content("x\u{1}\u{7f}"), Some("mid = \"x\\u0001\\u007F\"\n".to_string()));
}
