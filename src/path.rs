//! Paths as text: joining components, and where the configuration is written.
use vstd::prelude::*;

verus! {

/// Directory of the system-wide font configuration.
pub const SYSTEM_FONT_DIR: &'static str = "/etc/fonts";

/// Directory, under a user's configuration root, of fontconfig's files.
pub const FONTCONFIG_DIR: &'static str = "fontconfig";

/// Directory, under a home directory, that stands in for an unset
/// `XDG_CONFIG_HOME`.
pub const HOME_CONFIG_DIR: &'static str = ".config";

/// Directory, under a fontconfig directory, of the rule files.
pub const RULES_DIR: &'static str = "conf.d";

/// Name of the generated configuration file.
pub const CONFIG_FILE_NAME: &'static str = "69-language-selector-ja-jp.conf";

/// `base` extended by `component` as a Unix path: an absolute component
/// replaces `base`; otherwise one `/` separates the two unless `base` is
/// empty or already ends in `/`.
pub open spec fn joined(base: Seq<char>, component: Seq<char>) -> Seq<char> {
    if component.len() > 0 && component[0] == '/' {
        component
    } else if base.len() == 0 || base.last() == '/' {
        base + component
    } else {
        base + seq!['/'] + component
    }
}

/// Extends the path `base` by `component`.
pub fn join_path(base: &str, component: &str) -> (r: String)
    ensures
        r@ == joined(base@, component@),
{
    let component_len = component.unicode_len();
    if component_len > 0 && component.get_char(0) == '/' {
        return String::from_str(component);
    }
    let base_len = base.unicode_len();
    let mut r = String::from_str(base);
    if base_len > 0 && base.get_char(base_len - 1) != '/' {
        r.append("/");
        proof {
            reveal_strlit("/");
        }
    }
    r.append(component);
    r
}

/// The text of an optional path, if present.
pub open spec fn opt_view(o: Option<&str>) -> Option<Seq<char>> {
    match o {
        Some(s) => Some(s@),
        None => None,
    }
}

/// Root of the font configuration: the system-wide directory, or the
/// user's `fontconfig` directory under `XDG_CONFIG_HOME`, else under
/// `HOME/.config`, else the system-wide directory again.
pub open spec fn config_root(
    is_system_wide: bool,
    xdg_config_home: Option<Seq<char>>,
    home: Option<Seq<char>>,
) -> Seq<char> {
    if is_system_wide {
        SYSTEM_FONT_DIR@
    } else if xdg_config_home is Some {
        joined(xdg_config_home->0, FONTCONFIG_DIR@)
    } else if home is Some {
        joined(joined(home->0, HOME_CONFIG_DIR@), FONTCONFIG_DIR@)
    } else {
        SYSTEM_FONT_DIR@
    }
}

/// The directory that holds the generated configuration file.
pub open spec fn config_dir_of(
    is_system_wide: bool,
    xdg_config_home: Option<Seq<char>>,
    home: Option<Seq<char>>,
) -> Seq<char> {
    joined(config_root(is_system_wide, xdg_config_home, home), RULES_DIR@)
}

/// The path of the generated configuration file.
pub open spec fn config_file_of(
    is_system_wide: bool,
    xdg_config_home: Option<Seq<char>>,
    home: Option<Seq<char>>,
) -> Seq<char> {
    joined(config_dir_of(is_system_wide, xdg_config_home, home), CONFIG_FILE_NAME@)
}

/// The directory that must exist before the configuration file is written,
/// given the values of `XDG_CONFIG_HOME` and `HOME` (`None` where unset).
pub fn config_dir(is_system_wide: bool, xdg_config_home: Option<&str>, home: Option<&str>) -> (r:
    String)
    ensures
        r@ == config_dir_of(is_system_wide, opt_view(xdg_config_home), opt_view(home)),
{
    let root = if is_system_wide {
        String::from_str(SYSTEM_FONT_DIR)
    } else {
        match xdg_config_home {
            Some(config) => join_path(config, FONTCONFIG_DIR),
            None => match home {
                Some(home) => {
                    let config = join_path(home, HOME_CONFIG_DIR);
                    join_path(config.as_str(), FONTCONFIG_DIR)
                },
                None => String::from_str(SYSTEM_FONT_DIR),
            },
        }
    };
    join_path(root.as_str(), RULES_DIR)
}

/// The path of the configuration file, given the values of
/// `XDG_CONFIG_HOME` and `HOME` (`None` where unset).
pub fn config_file_path(is_system_wide: bool, xdg_config_home: Option<&str>, home: Option<&str>) -> (r:
    String)
    ensures
        r@ == config_file_of(is_system_wide, opt_view(xdg_config_home), opt_view(home)),
{
    let dir = config_dir(is_system_wide, xdg_config_home, home);
    join_path(dir.as_str(), CONFIG_FILE_NAME)
}

} // verus!
