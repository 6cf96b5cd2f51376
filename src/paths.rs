//! Where things live under the application's data directory, and the
//! handling of user-supplied install paths and the `PATH` variable.
//! `windows` selects the layout and separators of that system.

use vstd::prelude::*;
use vstd::string::StringExecFns;

use crate::text::{chars_of, join_path, joined, push_str, string_of, trim, trim_chars, trimmed};

verus! {

pub open spec fn node_root(app: Seq<char>, windows: bool) -> Seq<char> {
    joined(app, "node"@, windows)
}

pub open spec fn node_bin(app: Seq<char>, windows: bool) -> Seq<char> {
    if windows {
        node_root(app, windows)
    } else {
        joined(node_root(app, windows), "bin"@, windows)
    }
}

pub open spec fn openclaw_global(app: Seq<char>, windows: bool) -> Seq<char> {
    joined(app, "openclaw_global"@, windows)
}

/// Root of the bundled runtime.
pub fn node_root_dir(app_data_dir: &str, windows: bool) -> (r: String)
    ensures
        r@ == node_root(app_data_dir@, windows),
{
    join_path(app_data_dir, "node", windows)
}

/// Directory holding the bundled runtime's executables.
pub fn node_bin_dir(app_data_dir: &str, windows: bool) -> (r: String)
    ensures
        r@ == node_bin(app_data_dir@, windows),
{
    let root = node_root_dir(app_data_dir, windows);
    if windows {
        root
    } else {
        join_path(root.as_str(), "bin", windows)
    }
}

pub fn node_binary_path(app_data_dir: &str, windows: bool) -> (r: String)
    ensures
        r@ == (if windows {
            joined(node_root(app_data_dir@, windows), "node.exe"@, windows)
        } else {
            joined(node_bin(app_data_dir@, windows), "node"@, windows)
        }),
{
    if windows {
        let root = node_root_dir(app_data_dir, windows);
        join_path(root.as_str(), "node.exe", windows)
    } else {
        let bin = node_bin_dir(app_data_dir, windows);
        join_path(bin.as_str(), "node", windows)
    }
}

pub fn npm_binary_path(app_data_dir: &str, windows: bool) -> (r: String)
    ensures
        r@ == (if windows {
            joined(node_root(app_data_dir@, windows), "npm.cmd"@, windows)
        } else {
            joined(node_bin(app_data_dir@, windows), "npm"@, windows)
        }),
{
    if windows {
        let root = node_root_dir(app_data_dir, windows);
        join_path(root.as_str(), "npm.cmd", windows)
    } else {
        let bin = node_bin_dir(app_data_dir, windows);
        join_path(bin.as_str(), "npm", windows)
    }
}

/// Install prefix of the managed tool.
pub fn openclaw_global_dir(app_data_dir: &str, windows: bool) -> (r: String)
    ensures
        r@ == openclaw_global(app_data_dir@, windows),
{
    join_path(app_data_dir, "openclaw_global", windows)
}

pub fn openclaw_binary_path(app_data_dir: &str, windows: bool) -> (r: String)
    ensures
        r@ == (if windows {
            joined(openclaw_global(app_data_dir@, windows), "openclaw.cmd"@, windows)
        } else {
            joined(
                joined(openclaw_global(app_data_dir@, windows), "bin"@, windows),
                "openclaw"@,
                windows,
            )
        }),
{
    let prefix = openclaw_global_dir(app_data_dir, windows);
    if windows {
        join_path(prefix.as_str(), "openclaw.cmd", windows)
    } else {
        let bin = join_path(prefix.as_str(), "bin", windows);
        join_path(bin.as_str(), "openclaw", windows)
    }
}

/// The credentials file.
pub fn keys_file_path(app_data_dir: &str, windows: bool) -> (r: String)
    ensures
        r@ == joined(app_data_dir@, "keys.json"@, windows),
{
    join_path(app_data_dir, "keys.json", windows)
}

/// A `PATH` value with `prefix` first, followed by `existing` unless that is
/// absent or blank; entries are separated by `;` on Windows, `:` elsewhere.
pub open spec fn prepended_path(prefix: Seq<char>, existing: Option<Seq<char>>, windows: bool) -> Seq<
    char,
> {
    match existing {
        Some(e) => if trim(e).len() > 0 {
            prefix + seq![if windows { ';' } else { ':' }] + e
        } else {
            prefix
        },
        None => prefix,
    }
}

/// Puts `prefix` in front of the search path `existing`.
pub fn prepend_path_env(prefix: &str, existing: Option<&str>, windows: bool) -> (r: String)
    ensures
        r@ == prepended_path(
            prefix@,
            match existing {
                Some(e) => Some(e@),
                None => None,
            },
            windows,
        ),
{
    let mut out: Vec<char> = Vec::new();
    push_str(&mut out, prefix);
    assert(out@ =~= prefix@);
    match existing {
        Some(e) => {
            let t = trim_chars(&chars_of(e));
            if t.len() > 0 {
                out.push(if windows {
                    ';'
                } else {
                    ':'
                });
                push_str(&mut out, e);
            }
        },
        None => {},
    }
    string_of(out.as_slice())
}

/// The stored install-path override, where one is set and not blank.
pub fn install_path_override(setting: Option<String>) -> (r: Option<String>)
    ensures
        r matches Some(p) ==> setting matches Some(s) && s@ == p@ && trim(s@).len() > 0,
        r is None ==> setting matches None || trim(setting->0@).len() == 0,
{
    match setting {
        Some(s) => {
            let t = trim_chars(&chars_of(s.as_str()));
            if t.len() > 0 {
                Some(s)
            } else {
                None
            }
        },
        None => None,
    }
}

pub open spec fn empty_path_message() -> Seq<char> {
    "installation path cannot be empty"@
}

/// A user-supplied install path with surrounding whitespace removed; a
/// blank one is refused.
pub fn trim_user_path(path: &str) -> (r: Result<String, String>)
    ensures
        r matches Ok(p) ==> p@ == trim(path@) && p@.len() > 0,
        r matches Err(m) ==> trim(path@).len() == 0 && m@ == empty_path_message(),
{
    let t = trimmed(path);
    if t.as_str().unicode_len() == 0 {
        return Err(String::from_str("installation path cannot be empty"));
    }
    Ok(t)
}

/// The locations offered and used for installs.
pub struct InstallPathState {
    pub default_path: String,
    pub selected_path: Option<String>,
    pub effective_path: String,
}

} // verus!
