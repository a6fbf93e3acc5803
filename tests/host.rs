use bukubrow::cli::{resolve_argument, Argument, CliFlags};
use bukubrow::config::NAME;
use bukubrow::location::buku_db_location;
use bukubrow::manifest::{
    get_manifest_path, get_regkey_path, host_manifest, manifest_file_name, Browser, ChromeHost,
    FirefoxHost, HostManifest, Os,
};
use bukubrow::matching::{deconstruct_success, fuzzy_match_string_multi, match_bookmark, MatchSuccess};
use bukubrow::types::{BookmarkFilter, SavedBookmark};

fn bookmark(title: &str, desc: &str, url: &str) -> SavedBookmark {
    SavedBookmark {
        id: 1,
        url: url.to_string(),
        metadata: title.to_string(),
        tags: String::new(),
        desc: desc.to_string(),
        flags: 0,
    }
}

fn filter(name: Option<&str>, desc: Option<&str>, url: Option<&str>) -> BookmarkFilter {
    BookmarkFilter {
        name: name.map(|s| s.to_string()),
        desc: desc.map(|s| s.to_string()),
        url: url.map(|s| s.to_string()),
        tags: None,
        wildcard: None,
    }
}

#[test]
fn bookmark_matches_when_every_searched_field_matches() {
    let bm = bookmark("axbycz", "hello world", "https://example.com");
    let m = match_bookmark(&filter(Some("abc"), None, Some("exa")), &bm).unwrap();
    assert_eq!(m.name.as_ref().unwrap().1, vec![0, 2, 4]);
    assert!(m.name.unwrap().0 > 0);
    assert!(m.desc.is_none());
    assert!(m.url.is_some());
    assert!(m.tags.is_none());
}

#[test]
fn bookmark_fails_when_a_searched_field_fails() {
    let bm = bookmark("axbycz", "hello world", "https://example.com");
    assert!(match_bookmark(&filter(Some("abc"), Some("zzz"), None), &bm).is_none());
    assert!(match_bookmark(&filter(Some("cba"), None, None), &bm).is_none());
}

#[test]
fn empty_filter_matches_anything() {
    let bm = bookmark("", "", "");
    let m = match_bookmark(&filter(None, None, None), &bm).unwrap();
    assert!(m.name.is_none() && m.desc.is_none() && m.url.is_none());
    let m = match_bookmark(&filter(Some(""), None, None), &bm).unwrap();
    assert_eq!(m.name, Some((0, vec![])));
}

#[test]
fn multi_match_keeps_the_best() {
    let searches = vec!["zz".to_string(), "ac".to_string(), "abc".to_string()];
    let best = fuzzy_match_string_multi("abc", &searches).unwrap();
    assert_eq!(best.1, vec![0, 1, 2]);
    assert!(fuzzy_match_string_multi("abc", &vec!["zz".to_string()]).is_none());
    assert!(fuzzy_match_string_multi("abc", &vec![]).is_none());
}

#[test]
fn deconstructing_a_success() {
    assert_eq!(deconstruct_success(MatchSuccess::Unneeded), None);
    assert_eq!(deconstruct_success(MatchSuccess::Required((3, vec![1]))), Some((3, vec![1])));
}

#[test]
fn manifest_directories() {
    assert_eq!(
        get_manifest_path(&Os::Linux, &Browser::Chrome),
        Ok(".config/google-chrome/NativeMessagingHosts/")
    );
    assert_eq!(
        get_manifest_path(&Os::FreeBSD, &Browser::LibreWolf),
        Ok(".librewolf/native-messaging-hosts/")
    );
    assert_eq!(
        get_manifest_path(&Os::MacOS, &Browser::Edge),
        Ok("Library/Microsoft/Edge/NativeMessagingHosts/")
    );
    assert_eq!(
        get_manifest_path(&Os::Windows, &Browser::LibreWolf),
        Ok(r"AppData\Roaming\Mozilla\NativeMessagingHosts\")
    );
    assert_eq!(
        get_manifest_path(&Os::Windows, &Browser::Brave),
        Err("Brave is not yet supported on Windows.".to_string())
    );
    assert_eq!(
        get_manifest_path(&Os::Other("android".to_string()), &Browser::Firefox),
        Err("Platform \"android\" is not yet supported.".to_string())
    );
}

#[test]
fn registry_keys() {
    assert_eq!(get_regkey_path(&Browser::Firefox), Some(r"Software\Mozilla\NativeMessagingHosts"));
    assert_eq!(get_regkey_path(&Browser::LibreWolf), Some(r"Software\Mozilla\NativeMessagingHosts"));
    assert_eq!(get_regkey_path(&Browser::Chrome), None);
}

#[test]
fn manifests() {
    let c = ChromeHost::new("/bin/host".to_string());
    assert_eq!(c.name, NAME);
    assert_eq!(c.path, "/bin/host");
    assert_eq!(c.host_type, "stdio");
    assert_eq!(c.allowed_origins, ["chrome-extension://ghniladkapjacfajiooekgkfopkjblpn/"]);
    let f = FirefoxHost::new("/bin/host".to_string());
    assert_eq!(f.allowed_extensions, ["bukubrow@samhh.com"]);
    assert!(matches!(host_manifest(&Browser::LibreWolf, "p".to_string()), HostManifest::Firefox(_)));
    assert!(matches!(host_manifest(&Browser::Vivaldi, "p".to_string()), HostManifest::Chrome(_)));
    assert_eq!(manifest_file_name(), "com.samhh.bukubrow.json");
}

fn no_flags() -> CliFlags {
    CliFlags {
        open: None,
        list: false,
        install_dir: None,
        install_chrome: false,
        install_chromium: false,
        install_firefox: false,
        install_librewolf: false,
        install_brave: false,
        install_vivaldi: false,
        install_edge: false,
    }
}

#[test]
fn command_line_precedence() {
    assert!(resolve_argument(no_flags()).is_none());

    let mut f = no_flags();
    f.install_edge = true;
    f.install_brave = true;
    f.install_dir = Some("/tmp/x".to_string());
    match resolve_argument(f.clone()) {
        Some(Argument::InstallBrowserHost(b, dir)) => {
            assert_eq!(b, Browser::Brave);
            assert_eq!(dir, Some("/tmp/x".to_string()));
        }
        _ => panic!("expected an installation"),
    }

    f.list = true;
    assert!(matches!(resolve_argument(f.clone()), Some(Argument::ListBookmarks)));

    f.open = Some(vec![3, 1]);
    match resolve_argument(f) {
        Some(Argument::OpenBookmarks(ids)) => assert_eq!(ids, vec![3, 1]),
        _ => panic!("expected bookmarks to open"),
    }
}

#[test]
fn database_location_precedence() {
    let s = |x: &str| Some(x.to_string());

    let l = buku_db_location(&Os::Linux, s("/a"), s("/x"), s("/h"), s("/c")).unwrap();
    assert_eq!((l.base.as_str(), l.relative), ("/x", "buku/bookmarks.db"));
    let l = buku_db_location(&Os::MacOS, None, None, s("/h"), s("/c")).unwrap();
    assert_eq!((l.base.as_str(), l.relative), ("/h", ".local/share/buku/bookmarks.db"));
    let l = buku_db_location(&Os::FreeBSD, None, None, None, s("/c")).unwrap();
    assert_eq!((l.base.as_str(), l.relative), ("/c", "buku/bookmarks.db"));
    assert!(buku_db_location(&Os::Linux, s("/a"), None, None, None).is_none());

    let l = buku_db_location(&Os::Windows, s("/a"), s("/x"), s("/h"), s("/c")).unwrap();
    assert_eq!((l.base.as_str(), l.relative), ("/a", "buku/bookmarks.db"));
    assert!(buku_db_location(&Os::Windows, None, s("/x"), s("/h"), s("/c")).is_none());
}
