use vacs::external::{profile_changed, WatchEvent, WatchEventKind};
use vacs::external::{starts_with_path, strip_app_dir, url_to_open, OpenUrlError};

fn bytes(s: &str) -> Vec<u8> {
    s.as_bytes().to_vec()
}

#[test]
fn strips_app_dir_entries() {
    let app_dir = bytes("/tmp/.mount_vacs");
    let path = bytes("/tmp/.mount_vacs/usr/bin:/usr/bin:/tmp/.mount_vacs/usr/sbin");
    assert_eq!(strip_app_dir(&path, &app_dir), Some(bytes("/usr/bin")));
}

#[test]
fn reports_nothing_left_to_keep() {
    let app_dir = bytes("/tmp/.mount_vacs");
    let path = bytes("/tmp/.mount_vacs/usr/lib:/tmp/.mount_vacs/usr/lib64");
    assert_eq!(strip_app_dir(&path, &app_dir), None);
}

#[test]
fn keeps_paths_that_only_share_a_prefix() {
    let app_dir = bytes("/tmp/.mount_vacs");
    let path = bytes("/tmp/.mount_vacs-other/usr/bin:/usr/bin");
    assert_eq!(
        strip_app_dir(&path, &app_dir),
        Some(bytes("/tmp/.mount_vacs-other/usr/bin:/usr/bin"))
    );
}

#[test]
fn keeps_non_utf8_entries_intact() {
    let app_dir = bytes("/tmp/.mount_vacs");
    let path = b"/tmp/.mount_vacs/usr/bin:/opt/\xff/bin".to_vec();
    assert_eq!(strip_app_dir(&path, &app_dir), Some(b"/opt/\xff/bin".to_vec()));
}

#[test]
fn drops_empty_entries() {
    let app_dir = bytes("/tmp/.mount_vacs");
    let path = bytes("/usr/bin::/usr/local/bin");
    assert_eq!(
        strip_app_dir(&path, &app_dir),
        Some(bytes("/usr/bin:/usr/local/bin"))
    );
}

#[test]
fn component_prefixes_ignore_repeated_and_trailing_separators() {
    assert!(starts_with_path(&bytes("/tmp//.mount_vacs/./usr"), &bytes("/tmp/.mount_vacs/")));
    assert!(!starts_with_path(&bytes("tmp/.mount_vacs/usr"), &bytes("/tmp/.mount_vacs")));
    assert!(starts_with_path(&bytes("./a/b"), &bytes("./a")));
    assert!(!starts_with_path(&bytes("a/b"), &bytes("./a")));
}

#[test]
fn only_web_and_mail_urls_are_opened() {
    assert_eq!(url_to_open("https://vacs.network").unwrap(), "https://vacs.network/");
    assert_eq!(url_to_open("mailto:a@b.c").unwrap(), "mailto:a@b.c");
    assert!(matches!(url_to_open("not a url"), Err(OpenUrlError::Unparsable)));
    match url_to_open("tel:+431234") {
        Err(OpenUrlError::RefusedScheme(s)) => assert_eq!(s, "tel"),
        _ => panic!("expected a refused scheme"),
    }
    assert_eq!(url_to_open("\thttp://example.com/a b").unwrap(), "http://example.com/a%20b");
}

#[test]
fn profile_changes_are_noticed_by_path() {
    let profile = bytes("/home/me/profiles/test.toml");
    let events = vec![
        WatchEvent {
            kind: WatchEventKind::Other,
            paths: vec![bytes("/home/me/profiles/test.toml")],
        },
        WatchEvent {
            kind: WatchEventKind::Modify,
            paths: vec![bytes("/home/me/profiles/other.toml")],
        },
    ];
    assert!(!profile_changed(&events, &profile));
    let events = vec![WatchEvent {
        kind: WatchEventKind::Create,
        paths: vec![bytes("/home/me//profiles/test.toml")],
    }];
    assert!(profile_changed(&events, &profile));
}
