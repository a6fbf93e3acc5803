//! Where Buku keeps its database, chosen the way Buku itself chooses it.
use crate::manifest::Os;
use vstd::prelude::*;

verus! {

/// A path to the database: a directory taken from the environment, and the
/// path below it.
#[derive(Clone, Debug)]
pub struct DbLocation {
    pub base: String,
    pub relative: &'static str,
}

/// The database's path below its data directory.
pub const DB_FILE: &'static str = "buku/bookmarks.db";

/// The database's path below the home directory, when the home directory is
/// the one used.
pub const HOME_DB_FILE: &'static str = ".local/share/buku/bookmarks.db";

/// Where the database is, given what the environment holds: on Windows below
/// `APPDATA`; elsewhere below `XDG_DATA_HOME`, else below `~/.local/share`,
/// else below the working directory.
pub fn buku_db_location(
    os: &Os,
    appdata: Option<String>,
    xdg_data_home: Option<String>,
    home: Option<String>,
    cwd: Option<String>,
) -> (r: Option<DbLocation>)
    ensures
        match *os {
            Os::Windows => match appdata {
                Some(a) => r matches Some(l) && l.base == a && l.relative == DB_FILE,
                None => r is None,
            },
            _ => match (xdg_data_home, home, cwd) {
                (Some(x), _, _) => r matches Some(l) && l.base == x && l.relative == DB_FILE,
                (None, Some(h), _) => r matches Some(l) && l.base == h && l.relative
                    == HOME_DB_FILE,
                (None, None, Some(c)) => r matches Some(l) && l.base == c && l.relative == DB_FILE,
                (None, None, None) => r is None,
            },
        },
{
    match os {
        Os::Windows => match appdata {
            Some(a) => Some(DbLocation { base: a, relative: DB_FILE }),
            None => None,
        },
        _ => {
            if let Some(x) = xdg_data_home {
                Some(DbLocation { base: x, relative: DB_FILE })
            } else if let Some(h) = home {
                Some(DbLocation { base: h, relative: HOME_DB_FILE })
            } else if let Some(c) = cwd {
                Some(DbLocation { base: c, relative: DB_FILE })
            } else {
                None
            }
        },
    }
}

} // verus!
