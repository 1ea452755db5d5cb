//! Where the app keeps its data, per operating system:
//! `%APPDATA%/girl-agent` on Windows, `~/Library/Application Support/girl-agent`
//! on macOS, and `$XDG_DATA_HOME/girl-agent` (or
//! `~/.local/share/girl-agent`) elsewhere, falling back to `.`.
//!
//! Reading the environment and creating the folders is left to the
//! application; this module decides the path's components from the values
//! read.

use vstd::prelude::*;

use crate::runtime_client::texts;
use crate::text::owned;

verus! {

/// The operating-system families the layout distinguishes.
#[derive(Debug, Clone, Copy, PartialEq, Eq, Structural)]
pub enum OsKind {
    Windows,
    MacOs,
    Other,
}

/// The components of the app's data folder, given the values of `APPDATA`,
/// `HOME` and `XDG_DATA_HOME`.
pub open spec fn app_dir_spec(
    os: OsKind,
    appdata: Option<String>,
    home: Option<String>,
    xdg: Option<String>,
) -> Seq<Seq<char>> {
    match os {
        OsKind::Windows => match appdata {
            Some(a) => seq![a@, "girl-agent"@],
            None => seq!["."@],
        },
        OsKind::MacOs => match home {
            Some(h) => seq![h@, "Library"@, "Application Support"@, "girl-agent"@],
            None => seq!["."@],
        },
        OsKind::Other => match xdg {
            Some(x) => seq![x@, "girl-agent"@],
            None => match home {
                Some(h) => seq![h@, ".local"@, "share"@, "girl-agent"@],
                None => seq!["."@],
            },
        },
    }
}

/// The components of the app's data folder (`app_dir`), to be joined in
/// order.
pub fn app_dir_parts(
    os: OsKind,
    appdata: Option<String>,
    home: Option<String>,
    xdg: Option<String>,
) -> (r: Vec<String>)
    ensures
        texts(r@) == app_dir_spec(os, appdata, home, xdg),
{
    let r = match os {
        OsKind::Windows => match appdata {
            Some(a) => vec![a, owned("girl-agent")],
            None => vec![owned(".")],
        },
        OsKind::MacOs => match home {
            Some(h) => vec![h, owned("Library"), owned("Application Support"), owned("girl-agent")],
            None => vec![owned(".")],
        },
        OsKind::Other => match xdg {
            Some(x) => vec![x, owned("girl-agent")],
            None => match home {
                Some(h) => vec![h, owned(".local"), owned("share"), owned("girl-agent")],
                None => vec![owned(".")],
            },
        },
    };
    assert(texts(r@) =~= app_dir_spec(os, appdata, home, xdg));
    r
}

} // verus!
