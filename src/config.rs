//! Where the settings, styles, plugins and scripts live, and the settings'
//! defaults.

use vstd::prelude::*;
use crate::model::Look;
use crate::text::cat;

verus! {

/// The window width used where the settings give none.
pub const DEFAULT_WIDTH: u32 = 600;

/// The narrowest window allowed.
pub const MIN_WIDTH: u32 = 100;

pub open spec fn opt_view(o: Option<String>) -> Option<Seq<char>> {
    match o {
        Some(s) => Some(s@),
        None => None,
    }
}

/// `part` joined onto path `base` as `PathBuf::join` does: an absolute
/// `part` replaces `base`; otherwise a `/` goes between them unless `base`
/// is empty or already ends in one.
pub open spec fn join_path(base: Seq<char>, part: Seq<char>) -> Seq<char> {
    if part.len() > 0 && part[0] == '/' {
        part
    } else if base.len() == 0 || base.last() == '/' {
        base + part
    } else {
        base + "/"@ + part
    }
}

/// The configuration directory: `$XDG_CONFIG_HOME` joined with `fsearch`,
/// else `$HOME` joined with `.config` and `fsearch`, else none.
pub open spec fn config_dir_of(xdg: Option<Seq<char>>, home: Option<Seq<char>>) -> Option<
    Seq<char>,
> {
    match xdg {
        Some(x) => Some(join_path(x, "fsearch"@)),
        None => match home {
            Some(h) => Some(join_path(join_path(h, ".config"@), "fsearch"@)),
            None => None,
        },
    }
}

/// `name` joined onto the configuration directory, if there is one.
pub open spec fn config_file_of(
    xdg: Option<Seq<char>>,
    home: Option<Seq<char>>,
    name: Seq<char>,
) -> Option<Seq<char>> {
    match config_dir_of(xdg, home) {
        Some(d) => Some(join_path(d, name)),
        None => None,
    }
}

/// Joins `part` onto path `base`.
pub fn join(base: &str, part: &str) -> (r: String)
    ensures
        r@ == join_path(base@, part@),
{
    if part.unicode_len() > 0 && part.get_char(0) == '/' {
        return part.to_string();
    }
    let n = base.unicode_len();
    if n == 0 || base.get_char(n - 1) == '/' {
        return cat(base, part);
    }
    let b = cat(base, "/");
    cat(b.as_str(), part)
}

/// The configuration directory, from the values of `XDG_CONFIG_HOME` and
/// `HOME` (`None` where a variable is unset).
pub fn config_dir(xdg: &Option<String>, home: &Option<String>) -> (r: Option<String>)
    ensures
        opt_view(r) == config_dir_of(opt_view(*xdg), opt_view(*home)),
{
    match xdg {
        Some(x) => Some(join(x.as_str(), "fsearch")),
        None => match home {
            Some(h) => {
                let c = join(h.as_str(), ".config");
                Some(join(c.as_str(), "fsearch"))
            },
            None => None,
        },
    }
}

/// `name` joined onto the configuration directory.
pub fn config_file(xdg: &Option<String>, home: &Option<String>, name: &str) -> (r: Option<String>)
    ensures
        opt_view(r) == config_file_of(opt_view(*xdg), opt_view(*home), name@),
{
    match config_dir(xdg, home) {
        Some(d) => Some(join(d.as_str(), name)),
        None => None,
    }
}

/// The scripts directory that `@script:` refers to; empty where neither
/// variable is set.
pub fn get_scripts_dir(xdg: &Option<String>, home: &Option<String>) -> (r: String)
    ensures
        match config_file_of(opt_view(*xdg), opt_view(*home), "scripts"@) {
            Some(d) => r@ == d,
            None => r@.len() == 0,
        },
{
    match config_file(xdg, home, "scripts") {
        Some(d) => d,
        None => String::new(),
    }
}

/// A plugin descriptor is a `.toml` file.
pub fn is_plugin_file(file_name: &str) -> (r: bool)
    ensures
        r == (".toml"@.is_suffix_of(file_name@)),
{
    let n = file_name.unicode_len();
    proof {
        reveal_strlit(".toml");
    }
    if n < 5 {
        return false;
    }
    let end = file_name.substring_char(n - 5, n);
    let r = crate::classify::same_text(end, ".toml");
    assert(file_name@.subrange(n - 5, n as int) == end@);
    r
}

impl Look {
    /// The window's initial width: the configured one, else the default,
    /// and never under the minimum.
    pub fn width(&self) -> (r: u32)
        ensures
            r == (match self.initial_width {
                Some(w) => if w < MIN_WIDTH {
                    MIN_WIDTH
                } else {
                    w
                },
                None => DEFAULT_WIDTH,
            }),
    {
        match self.initial_width {
            Some(w) => if w < MIN_WIDTH {
                MIN_WIDTH
            } else {
                w
            },
            None => DEFAULT_WIDTH,
        }
    }
}

/// The arguments of the `config` subcommand.
#[derive(Debug)]
pub struct ConfigArgs {
    /// The path of the `.toml` settings file.
    pub config: Option<String>,
    /// The path of the CSS file.
    pub css: Option<String>,
}

impl ConfigArgs {
    /// The subcommand needs at least one of its two paths.
    pub fn has_any(&self) -> (r: bool)
        ensures
            r == (self.config is Some || self.css is Some),
    {
        self.config.is_some() || self.css.is_some()
    }
}

/// The subcommands of the launcher.
#[derive(Debug)]
pub enum Entity {
    /// Start the daemon.
    Daemon,
    /// Get the daemon's status.
    Status,
    /// Stop the daemon.
    Stop,
    /// Apply specific configuration.
    Config(ConfigArgs),
}

} // verus!
