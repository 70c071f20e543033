//! Where the configuration file is looked for.
//!
//! The search order is: the platform's application configuration directory,
//! then the current working directory.  Paths are handled as text; the
//! caller supplies the platform's base directories, its path separator and,
//! for each candidate, whether a file exists there.
use vstd::prelude::*;

use vstd::string::StringExecFns;

use crate::text::{opt_chars, str_chars, string_push};

verus! {

/// The directory name of the application.
pub const APP_NAME: &'static str = "keymapperd";

/// The name of the configuration file.
pub const CONFIG_FILE: &'static str = "config.yaml";

/// `c` separates path components: `/` everywhere, and `sep` (the platform's
/// main separator, `\` on Windows).
pub open spec fn is_separator(c: char, sep: char) -> bool {
    c == '/' || c == sep
}

/// `dir` joined with the relative path `name` (as `Path::join` does):
/// `name` alone when `dir` is empty, no separator added when `dir` already
/// ends in one.
pub open spec fn joined(dir: Seq<char>, name: Seq<char>, sep: char) -> Seq<char> {
    if dir.len() == 0 {
        name
    } else if is_separator(dir.last(), sep) {
        dir + name
    } else {
        dir.push(sep) + name
    }
}

/// Joins the relative path `name` onto `dir`.
pub fn join_path(dir: &str, name: &str, sep: char) -> (r: String)
    ensures
        r@ == joined(dir@, name@, sep),
{
    let v = str_chars(dir);
    let mut out = String::from_str(dir);
    if v.len() > 0 && v[v.len() - 1] != '/' && v[v.len() - 1] != sep {
        string_push(&mut out, sep);
    }
    out.append(name);
    out
}

/// macOS: `~/Library/Application Support/keymapperd`.
pub open spec fn macos_dir(home: Seq<char>, sep: char) -> Seq<char> {
    joined(joined(joined(home, "Library"@, sep), "Application Support"@, sep), APP_NAME@, sep)
}

/// The application directory on macOS, under the home directory.
pub fn macos_config_dir(home: Option<String>, sep: char) -> (r: Option<String>)
    ensures
        r is Some <==> home is Some,
        r is Some ==> r.unwrap()@ == macos_dir(home.unwrap()@, sep),
{
    match home {
        Some(h) => {
            let lib = join_path(h.as_str(), "Library", sep);
            let support = join_path(lib.as_str(), "Application Support", sep);
            Some(join_path(support.as_str(), APP_NAME, sep))
        },
        None => None,
    }
}

/// Linux: `$XDG_CONFIG_HOME/keymapperd`, or `~/.config/keymapperd` when the
/// variable is not set.
pub open spec fn linux_dir(xdg_config_home: Option<Seq<char>>, home: Option<Seq<char>>, sep: char) -> Option<Seq<char>> {
    match xdg_config_home {
        Some(x) => Some(joined(x, APP_NAME@, sep)),
        None => match home {
            Some(h) => Some(joined(joined(h, ".config"@, sep), APP_NAME@, sep)),
            None => None,
        },
    }
}

/// The application directory on Linux.
pub fn linux_config_dir(xdg_config_home: Option<String>, home: Option<String>, sep: char) -> (r: Option<String>)
    ensures
        r is Some <==> linux_dir(opt_chars(xdg_config_home), opt_chars(home), sep) is Some,
        r is Some ==> r.unwrap()@ == linux_dir(opt_chars(xdg_config_home), opt_chars(home), sep).unwrap(),
{
    match xdg_config_home {
        Some(x) => Some(join_path(x.as_str(), APP_NAME, sep)),
        None => match home {
            Some(h) => {
                let config = join_path(h.as_str(), ".config", sep);
                Some(join_path(config.as_str(), APP_NAME, sep))
            },
            None => None,
        },
    }
}

/// The application directory on Windows, under the roaming application data
/// directory.
pub fn windows_config_dir(config_dir: Option<String>, sep: char) -> (r: Option<String>)
    ensures
        r is Some <==> config_dir is Some,
        r is Some ==> r.unwrap()@ == joined(config_dir.unwrap()@, APP_NAME@, sep),
{
    match config_dir {
        Some(d) => Some(join_path(d.as_str(), APP_NAME, sep)),
        None => None,
    }
}

/// The places searched, in order: the configuration file in the platform
/// directory (when there is one), then in the current directory.
pub open spec fn candidates(platform_dir: Option<Seq<char>>, sep: char) -> Seq<Seq<char>> {
    match platform_dir {
        Some(d) => seq![joined(d, CONFIG_FILE@, sep), joined("."@, CONFIG_FILE@, sep)],
        None => seq![joined("."@, CONFIG_FILE@, sep)],
    }
}

/// The candidate configuration paths, in search order.
pub fn config_candidates(platform_dir: Option<String>, sep: char) -> (r: Vec<String>)
    ensures
        r@.map_values(|s: String| s@) == candidates(opt_chars(platform_dir), sep),
{
    let mut out: Vec<String> = Vec::new();
    match platform_dir {
        Some(d) => {
            out.push(join_path(d.as_str(), CONFIG_FILE, sep));
        },
        None => {},
    }
    out.push(join_path(".", CONFIG_FILE, sep));
    assert(out@.map_values(|s: String| s@) =~= candidates(opt_chars(platform_dir), sep));
    out
}

/// The first candidate path at which a file exists: `found[i]` tells
/// whether `paths[i]` is a file.  `None` when there is none.
pub fn find_config_path(paths: &Vec<String>, found: &Vec<bool>) -> (r: Option<String>)
    requires
        paths@.len() == found@.len(),
    ensures
        r is None <==> forall|i: int| 0 <= i < found@.len() ==> !found@[i],
        r is Some ==> exists|i: int|
            0 <= i < found@.len() && found@[i] && r.unwrap()@ == paths@[i]@ && forall|j: int|
                0 <= j < i ==> !found@[j],
{
    let mut i: usize = 0;
    while i < paths.len()
        invariant
            i <= paths@.len() == found@.len(),
            forall|j: int| 0 <= j < i ==> !found@[j],
        decreases paths@.len() - i,
    {
        if found[i] {
            return Some(paths[i].clone());
        }
        i = i + 1;
    }
    None
}

/// The lines telling where a configuration file is looked for.
pub open spec fn search_lines(platform_dir: Option<Seq<char>>) -> Seq<Seq<char>> {
    let head = "No configuration file found (config.yaml). Please create it in one of the following locations:"@;
    let cwd = "  2. Current working directory"@;
    match platform_dir {
        Some(d) => seq![head, "  1. "@ + d, cwd],
        None => seq![head, cwd],
    }
}

/// The lines printed when no configuration file is found.
pub fn search_location_lines(platform_dir: Option<String>) -> (r: Vec<String>)
    ensures
        r@.map_values(|s: String| s@) == search_lines(opt_chars(platform_dir)),
{
    let mut lines: Vec<String> = Vec::new();
    lines.push(
        String::from_str(
            "No configuration file found (config.yaml). Please create it in one of the following locations:",
        ),
    );
    match platform_dir {
        Some(d) => {
            let mut line = String::from_str("  1. ");
            line.append(d.as_str());
            lines.push(line);
        },
        None => {},
    }
    lines.push(String::from_str("  2. Current working directory"));
    assert(lines@.map_values(|s: String| s@) =~= search_lines(opt_chars(platform_dir)));
    lines
}

} // verus!
