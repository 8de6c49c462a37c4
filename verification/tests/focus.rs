use spacemouse_proxy::focus::{allow_list, is_target_app_frontmost, starts_with};

#[test]
fn allow_list_holds_the_targets_in_order() {
    assert_eq!(
        allow_list(),
        vec![
            "com.figma.Desktop",
            "com.google.Chrome",
            "com.apple.Safari",
            "org.mozilla.firefox",
            "company.thebrowser.Browser",
            "com.microsoft.edgemac",
            "com.brave.Browser",
            "com.operasoftware.Opera",
            "com.vivaldi.Vivaldi",
            "org.chromium.Chromium",
        ]
    );
}

#[test]
fn starts_with_compares_byte_for_byte() {
    assert!(starts_with(b"abcdef", b"abc"));
    assert!(starts_with(b"abc", b"abc"));
    assert!(starts_with(b"abc", b""));
    assert!(starts_with(b"", b""));
    assert!(!starts_with(b"ab", b"abc"));
    assert!(!starts_with(b"abd", b"abc"));
    assert!(!starts_with(b"", b"a"));
    assert!(!starts_with(b"xabc", b"abc"));
}

#[test]
fn every_target_is_in_front_when_named() {
    for id in allow_list() {
        assert!(is_target_app_frontmost(Some(id.as_bytes())));
    }
}

#[test]
fn identifier_is_matched_by_prefix() {
    assert!(is_target_app_frontmost(Some(b"com.google.Chrome.canary")));
    assert!(is_target_app_frontmost(Some(b"com.apple.SafariTechnologyPreview")));
    assert!(is_target_app_frontmost(Some(b"org.chromium.Chromium\xff")));
}

#[test]
fn other_applications_are_not_targets() {
    assert!(!is_target_app_frontmost(Some(b"com.apple.finder")));
    assert!(!is_target_app_frontmost(Some(b"com.apple.Terminal")));
    assert!(!is_target_app_frontmost(Some(b"x.com.figma.Desktop")));
}

#[test]
fn identifier_shorter_than_every_prefix_is_no_target() {
    assert!(!is_target_app_frontmost(Some(b"com.figma")));
    assert!(!is_target_app_frontmost(Some(b"")));
}

#[test]
fn match_is_case_sensitive() {
    assert!(!is_target_app_frontmost(Some(b"com.figma.desktop")));
    assert!(!is_target_app_frontmost(Some(b"COM.GOOGLE.CHROME")));
}

#[test]
fn no_frontmost_application_is_no_target() {
    assert!(!is_target_app_frontmost(None));
}
