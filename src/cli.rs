//! What the command line asks the host to do, once its flags are parsed.
use crate::manifest::Browser;
use crate::types::BookmarkId;
use vstd::prelude::*;

verus! {

/// A task given on the command line, in place of serving the browser.
#[derive(Clone, Debug)]
pub enum Argument {
    /// Install the host for a browser; the second piece of data is an optional
    /// custom installation directory.
    InstallBrowserHost(Browser, Option<String>),
    /// Print every bookmark.
    ListBookmarks,
    /// Open the bookmarks with these identifiers in the web browser.
    OpenBookmarks(Vec<BookmarkId>),
}

/// The flags found on the command line.
#[derive(Clone, Debug)]
pub struct CliFlags {
    /// The identifiers given to `--open`.
    pub open: Option<Vec<BookmarkId>>,
    /// Whether `--list` was given.
    pub list: bool,
    /// The directory given to `--install-dir`.
    pub install_dir: Option<String>,
    pub install_chrome: bool,
    pub install_chromium: bool,
    pub install_firefox: bool,
    pub install_librewolf: bool,
    pub install_brave: bool,
    pub install_vivaldi: bool,
    pub install_edge: bool,
}

/// The browser to install for: the first install flag given, in the order
/// Chrome, Chromium, Firefox, LibreWolf, Brave, Vivaldi, Edge.
pub open spec fn install_target(f: CliFlags) -> Option<Browser> {
    if f.install_chrome {
        Some(Browser::Chrome)
    } else if f.install_chromium {
        Some(Browser::Chromium)
    } else if f.install_firefox {
        Some(Browser::Firefox)
    } else if f.install_librewolf {
        Some(Browser::LibreWolf)
    } else if f.install_brave {
        Some(Browser::Brave)
    } else if f.install_vivaldi {
        Some(Browser::Vivaldi)
    } else if f.install_edge {
        Some(Browser::Edge)
    } else {
        None
    }
}

/// Which task the flags select: opening wins over listing, which wins over
/// installing; with none of them the host serves the browser.
pub fn resolve_argument(flags: CliFlags) -> (r: Option<Argument>)
    ensures
        match flags.open {
            Some(ids) => r matches Some(Argument::OpenBookmarks(x)) && x == ids,
            None => if flags.list {
                r matches Some(Argument::ListBookmarks)
            } else {
                match install_target(flags) {
                    Some(b) => r matches Some(Argument::InstallBrowserHost(x, dir)) && x == b && dir
                        == flags.install_dir,
                    None => r is None,
                }
            },
        },
{
    if let Some(ids) = flags.open {
        return Some(Argument::OpenBookmarks(ids));
    }
    if flags.list {
        return Some(Argument::ListBookmarks);
    }
    let dir = flags.install_dir;
    if flags.install_chrome {
        return Some(Argument::InstallBrowserHost(Browser::Chrome, dir));
    }
    if flags.install_chromium {
        return Some(Argument::InstallBrowserHost(Browser::Chromium, dir));
    }
    if flags.install_firefox {
        return Some(Argument::InstallBrowserHost(Browser::Firefox, dir));
    }
    if flags.install_librewolf {
        return Some(Argument::InstallBrowserHost(Browser::LibreWolf, dir));
    }
    if flags.install_brave {
        return Some(Argument::InstallBrowserHost(Browser::Brave, dir));
    }
    if flags.install_vivaldi {
        return Some(Argument::InstallBrowserHost(Browser::Vivaldi, dir));
    }
    if flags.install_edge {
        return Some(Argument::InstallBrowserHost(Browser::Edge, dir));
    }
    None
}

} // verus!
