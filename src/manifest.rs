//! Where, and with what manifest, each browser looks for a native messaging
//! host.
use crate::config::{DESC, NAME};
use vstd::prelude::*;
use vstd::string::StringExecFns;

verus! {

/// The browsers the host can be installed for.
#[derive(Clone, Copy, Debug, PartialEq, Eq, Structural)]
pub enum Browser {
    Chrome,
    Chromium,
    Brave,
    Firefox,
    LibreWolf,
    Vivaldi,
    Edge,
}

/// The operating system the host runs on, as far as installation cares.
#[derive(Clone, Debug)]
pub enum Os {
    Linux,
    OpenBSD,
    FreeBSD,
    MacOS,
    Windows,
    /// Any other system, by its name.
    Other(String),
}

/// The name of a browser, as messages give it.
pub open spec fn browser_name(browser: Browser) -> &'static str {
    match browser {
        Browser::Chrome => "Chrome",
        Browser::Chromium => "Chromium",
        Browser::Brave => "Brave",
        Browser::Firefox => "Firefox",
        Browser::LibreWolf => "LibreWolf",
        Browser::Vivaldi => "Vivaldi",
        Browser::Edge => "Edge",
    }
}

/// The directory, relative to the home directory, where a browser looks for
/// native messaging manifests; or why there is none.
pub open spec fn manifest_dir(os: Os, browser: Browser) -> Result<&'static str, Seq<char>> {
    match os {
        Os::Linux | Os::OpenBSD | Os::FreeBSD => Ok(
            match browser {
                Browser::Chrome => ".config/google-chrome/NativeMessagingHosts/",
                Browser::Chromium => ".config/chromium/NativeMessagingHosts/",
                Browser::Brave => ".config/BraveSoftware/Brave-Browser/NativeMessagingHosts/",
                Browser::Firefox => ".mozilla/native-messaging-hosts/",
                Browser::LibreWolf => ".librewolf/native-messaging-hosts/",
                Browser::Vivaldi => ".config/vivaldi/NativeMessagingHosts/",
                Browser::Edge => ".config/microsoft-edge-dev/NativeMessagingHosts/",
            },
        ),
        Os::MacOS => Ok(
            match browser {
                Browser::Chrome => "Library/Application Support/Google/Chrome/NativeMessagingHosts/",
                Browser::Chromium => "Library/Application Support/Chromium/NativeMessagingHosts/",
                Browser::Brave =>
                    "Library/Application Support/BraveSoftware/Brave-Browser/NativeMessagingHosts/",
                Browser::Firefox => "Library/Application Support/Mozilla/NativeMessagingHosts/",
                Browser::LibreWolf => "Library/Application Support/LibreWolf/NativeMessagingHosts/",
                Browser::Vivaldi => "Library/Application Support/Vivaldi/NativeMessagingHosts/",
                Browser::Edge => "Library/Microsoft/Edge/NativeMessagingHosts/",
            },
        ),
        Os::Windows => match browser {
            Browser::Firefox | Browser::LibreWolf => Ok("AppData\\Roaming\\Mozilla\\NativeMessagingHosts\\"),
            _ => Err(browser_name(browser)@ + " is not yet supported on Windows."@),
        },
        Os::Other(name) => Err("Platform \""@ + name@ + "\" is not yet supported."@),
    }
}

fn name_of(browser: &Browser) -> (r: &'static str)
    ensures
        r == browser_name(*browser),
{
    match browser {
        Browser::Chrome => "Chrome",
        Browser::Chromium => "Chromium",
        Browser::Brave => "Brave",
        Browser::Firefox => "Firefox",
        Browser::LibreWolf => "LibreWolf",
        Browser::Vivaldi => "Vivaldi",
        Browser::Edge => "Edge",
    }
}

/// The directory, relative to the home directory, where the browser looks for
/// native messaging manifests on the given system.
pub fn get_manifest_path(os: &Os, browser: &Browser) -> (r: Result<&'static str, String>)
    ensures
        match r {
            Ok(dir) => manifest_dir(*os, *browser) == Ok::<&'static str, Seq<char>>(dir),
            Err(msg) => manifest_dir(*os, *browser) == Err::<&'static str, Seq<char>>(msg@),
        },
{
    match os {
        Os::Linux | Os::OpenBSD | Os::FreeBSD => Ok(
            match browser {
                Browser::Chrome => ".config/google-chrome/NativeMessagingHosts/",
                Browser::Chromium => ".config/chromium/NativeMessagingHosts/",
                Browser::Brave => ".config/BraveSoftware/Brave-Browser/NativeMessagingHosts/",
                Browser::Firefox => ".mozilla/native-messaging-hosts/",
                Browser::LibreWolf => ".librewolf/native-messaging-hosts/",
                Browser::Vivaldi => ".config/vivaldi/NativeMessagingHosts/",
                Browser::Edge => ".config/microsoft-edge-dev/NativeMessagingHosts/",
            },
        ),
        Os::MacOS => Ok(
            match browser {
                Browser::Chrome => "Library/Application Support/Google/Chrome/NativeMessagingHosts/",
                Browser::Chromium => "Library/Application Support/Chromium/NativeMessagingHosts/",
                Browser::Brave =>
                    "Library/Application Support/BraveSoftware/Brave-Browser/NativeMessagingHosts/",
                Browser::Firefox => "Library/Application Support/Mozilla/NativeMessagingHosts/",
                Browser::LibreWolf => "Library/Application Support/LibreWolf/NativeMessagingHosts/",
                Browser::Vivaldi => "Library/Application Support/Vivaldi/NativeMessagingHosts/",
                Browser::Edge => "Library/Microsoft/Edge/NativeMessagingHosts/",
            },
        ),
        Os::Windows => match browser {
            Browser::Firefox | Browser::LibreWolf => Ok("AppData\\Roaming\\Mozilla\\NativeMessagingHosts\\"),
            _ => {
                let msg = name_of(browser).to_owned();
                Err(msg.concat(" is not yet supported on Windows."))
            },
        },
        Os::Other(name) => {
            let msg = "Platform \"".to_owned();
            let msg = msg.concat(name.as_str());
            Err(msg.concat("\" is not yet supported."))
        },
    }
}

/// The registry key, under the current user, where a browser looks for native
/// messaging hosts on Windows.
pub fn get_regkey_path(browser: &Browser) -> (r: Option<&'static str>)
    ensures
        r == match *browser {
            Browser::Firefox | Browser::LibreWolf => Some(
                "Software\\Mozilla\\NativeMessagingHosts",
            ),
            _ => None::<&'static str>,
        },
{
    match browser {
        Browser::Firefox | Browser::LibreWolf => Some("Software\\Mozilla\\NativeMessagingHosts"),
        _ => None,
    }
}

/// The manifest that Blink- and WebKit-based browsers read.
#[derive(Clone, Debug)]
pub struct ChromeHost {
    pub name: &'static str,
    pub description: &'static str,
    pub path: String,
    pub host_type: &'static str,
    pub allowed_origins: [&'static str; 1],
}

/// `h` is the Chrome manifest for the host executable at `path`.
pub open spec fn is_chrome_host(h: ChromeHost, path: String) -> bool {
    &&& h.name == NAME
    &&& h.description == DESC
    &&& h.path == path
    &&& h.host_type == "stdio"
    &&& h.allowed_origins@.len() == 1
    &&& h.allowed_origins[0] == "chrome-extension://ghniladkapjacfajiooekgkfopkjblpn/"
}

impl ChromeHost {
    pub fn new(path: String) -> (r: Self)
        ensures
            is_chrome_host(r, path),
    {
        ChromeHost {
            name: NAME,
            description: DESC,
            path,
            host_type: "stdio",
            allowed_origins: ["chrome-extension://ghniladkapjacfajiooekgkfopkjblpn/"],
        }
    }
}

/// The manifest that Firefox and its derivatives read.
#[derive(Clone, Debug)]
pub struct FirefoxHost {
    pub name: &'static str,
    pub description: &'static str,
    pub path: String,
    pub host_type: &'static str,
    pub allowed_extensions: [&'static str; 1],
}

/// `h` is the Firefox manifest for the host executable at `path`.
pub open spec fn is_firefox_host(h: FirefoxHost, path: String) -> bool {
    &&& h.name == NAME
    &&& h.description == DESC
    &&& h.path == path
    &&& h.host_type == "stdio"
    &&& h.allowed_extensions@.len() == 1
    &&& h.allowed_extensions[0] == "bukubrow@samhh.com"
}

impl FirefoxHost {
    pub fn new(path: String) -> (r: Self)
        ensures
            is_firefox_host(r, path),
    {
        FirefoxHost {
            name: NAME,
            description: DESC,
            path,
            host_type: "stdio",
            allowed_extensions: ["bukubrow@samhh.com"],
        }
    }
}

/// A manifest of either shape.
#[derive(Clone, Debug)]
pub enum HostManifest {
    Chrome(ChromeHost),
    Firefox(FirefoxHost),
}

/// The manifest to install for a browser, pointing at the host executable.
pub fn host_manifest(browser: &Browser, exe_path: String) -> (r: HostManifest)
    ensures
        match *browser {
            Browser::Firefox | Browser::LibreWolf => r matches HostManifest::Firefox(h)
                && is_firefox_host(h, exe_path),
            _ => r matches HostManifest::Chrome(h) && is_chrome_host(h, exe_path),
        },
{
    match browser {
        Browser::Firefox | Browser::LibreWolf => HostManifest::Firefox(FirefoxHost::new(exe_path)),
        _ => HostManifest::Chrome(ChromeHost::new(exe_path)),
    }
}

/// The file name of the manifest.
pub fn manifest_file_name() -> (r: String)
    ensures
        r@ == NAME@ + ".json"@,
{
    NAME.to_owned().concat(".json")
}

} // verus!
