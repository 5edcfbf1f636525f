use cjk_font_selector::lookup::{alias_file_path, Category};
use cjk_font_selector::path::{config_dir, config_file_path, join_path};

#[test]
fn xdg_config_home_selects_the_user_directory() {
    assert_eq!(
        config_file_path(false, Some("/x"), None),
        "/x/fontconfig/conf.d/69-language-selector-ja-jp.conf"
    );
}

#[test]
fn xdg_config_home_wins_over_home() {
    assert_eq!(
        config_file_path(false, Some("/x"), Some("/home/u")),
        "/x/fontconfig/conf.d/69-language-selector-ja-jp.conf"
    );
}

#[test]
fn home_is_used_when_xdg_config_home_is_unset() {
    assert_eq!(
        config_file_path(false, None, Some("/home/u")),
        "/home/u/.config/fontconfig/conf.d/69-language-selector-ja-jp.conf"
    );
}

#[test]
fn neither_variable_falls_back_to_the_system_path() {
    assert_eq!(
        config_file_path(false, None, None),
        "/etc/fonts/conf.d/69-language-selector-ja-jp.conf"
    );
}

#[test]
fn system_wide_ignores_the_environment() {
    assert_eq!(
        config_file_path(true, Some("/x"), Some("/home/u")),
        "/etc/fonts/conf.d/69-language-selector-ja-jp.conf"
    );
}

#[test]
fn config_dir_is_the_parent_of_the_file() {
    assert_eq!(config_dir(false, Some("/x/"), None), "/x/fontconfig/conf.d");
    assert_eq!(config_dir(true, None, None), "/etc/fonts/conf.d");
}

#[test]
fn empty_xdg_config_home_gives_a_relative_path() {
    assert_eq!(config_dir(false, Some(""), None), "fontconfig/conf.d");
}

#[test]
fn join_adds_one_separator() {
    assert_eq!(join_path("/a", "b"), "/a/b");
    assert_eq!(join_path("/a/", "b"), "/a/b");
    assert_eq!(join_path("", "b"), "b");
    assert_eq!(join_path("/a", ""), "/a/");
}

#[test]
fn join_with_an_absolute_component_replaces_the_base() {
    assert_eq!(join_path("/a", "/b/c"), "/b/c");
}

#[test]
fn alias_files_lie_under_their_category() {
    assert_eq!(
        alias_file_path("/opt/sel/aliases", Category::Sans, "noto"),
        "/opt/sel/aliases/sans/noto"
    );
    assert_eq!(
        alias_file_path("/opt/sel/aliases", Category::Serif, "noto"),
        "/opt/sel/aliases/serif/noto"
    );
    assert_eq!(
        alias_file_path("/opt/sel/aliases/", Category::Monospace, "ipa"),
        "/opt/sel/aliases/monospace/ipa"
    );
}

#[test]
fn alias_identifiers_are_used_verbatim() {
    assert_eq!(
        alias_file_path("/r", Category::Sans, "../serif/x"),
        "/r/sans/../serif/x"
    );
}

#[test]
fn category_names() {
    assert_eq!(Category::Sans.name(), "sans");
    assert_eq!(Category::Serif.name(), "serif");
    assert_eq!(Category::Monospace.name(), "monospace");
}
