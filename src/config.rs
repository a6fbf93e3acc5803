//! Names under which the host presents itself.
use vstd::prelude::*;

verus! {

/// This string uniquely identifies Bukubrow in the browser.
pub const NAME: &'static str = "com.samhh.bukubrow";

pub const DESC: &'static str = "Bukubrow is a WebExtension for Buku, a command-line bookmark manager. This is the corresponding host that facilitates interfacing with the Buku database via native messaging.";

/// The version of this host, which the browser asks for.
pub const BINARY_VERSION: &'static str = "5.4.0";

} // verus!
