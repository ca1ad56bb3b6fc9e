use gruenerator_shell::deeplink::{auth_callback_prefix, auth_event_name, is_auth_callback_url, route_deep_link_batch};
use gruenerator_shell::menu::{
    dispatch_menu, event_name, handle_menu_event, url_for, zoom_payload, MenuDispatch,
    Notification, UrlTarget, ZoomDirection,
};
use gruenerator_shell::settings::{
    autostart_action, parse_theme_request, theme_changed_event_name, theme_label, AutostartAction,
    ThemeChoice, ThemeReading,
};
use gruenerator_shell::update::{normalize_update_outcome, UpdateOutcome};
use gruenerator_shell::windows::{WindowState, Windows};

fn win(visible: bool, fullscreen: bool, focused: bool) -> WindowState {
    WindowState {
        visible,
        fullscreen,
        focused,
    }
}

fn both(main: Option<WindowState>) -> Windows {
    Windows {
        splash: None,
        main,
    }
}

#[test]
fn menu_emit_identifiers() {
    let mut w = both(Some(win(true, false, true)));
    let before = w;
    let cases = [
        ("new", Notification::MenuNew),
        ("settings", Notification::MenuSettings),
        ("reload", Notification::MenuReload),
        ("zoom_in", Notification::MenuZoom(ZoomDirection::In)),
        ("zoom_out", Notification::MenuZoom(ZoomDirection::Out)),
        ("zoom_reset", Notification::MenuZoom(ZoomDirection::Reset)),
        ("docs", Notification::MenuOpenUrl(UrlTarget::Docs)),
        ("feedback", Notification::MenuOpenUrl(UrlTarget::Feedback)),
        ("about", Notification::MenuAbout),
        ("check_updates", Notification::MenuCheckUpdates),
    ];
    for (id, expected) in cases {
        assert_eq!(handle_menu_event(id, &mut w), Some(expected));
        assert_eq!(w, before);
    }
}

#[test]
fn menu_unknown_identifier_is_noop() {
    let mut w = both(Some(win(true, true, true)));
    let before = w;
    for id in ["", "quit", "copy", "fullscreen2", "zoom", "unknown-id"] {
        assert_eq!(handle_menu_event(id, &mut w), None);
        assert_eq!(w, before);
    }
}

#[test]
fn menu_fullscreen_toggles_when_fullscreen() {
    // Main window in fullscreen: the activation leaves it windowed.
    let mut w = both(Some(win(true, true, true)));
    let n = handle_menu_event("fullscreen", &mut w);
    assert_eq!(n, None);
    assert_eq!(w.main, Some(win(true, false, true)));
}

#[test]
fn menu_fullscreen_toggles_when_windowed() {
    let mut w = both(Some(win(true, false, false)));
    assert_eq!(handle_menu_event("fullscreen", &mut w), None);
    assert_eq!(w.main, Some(win(true, true, false)));
}

#[test]
fn menu_fullscreen_with_absent_main_is_noop() {
    let mut w = both(None);
    assert_eq!(handle_menu_event("fullscreen", &mut w), None);
    assert_eq!(w, both(None));
    assert_eq!(dispatch_menu("fullscreen", &None), MenuDispatch::NoOp);
}

#[test]
fn menu_dispatch_reads_fullscreen_state() {
    assert_eq!(
        dispatch_menu("fullscreen", &Some(win(true, true, true))),
        MenuDispatch::SetMainFullscreen(false)
    );
    assert_eq!(
        dispatch_menu("fullscreen", &Some(win(true, false, true))),
        MenuDispatch::SetMainFullscreen(true)
    );
}

#[test]
fn notification_event_names() {
    assert_eq!(event_name(&Notification::MenuNew), "menu-new");
    assert_eq!(event_name(&Notification::MenuSettings), "menu-settings");
    assert_eq!(event_name(&Notification::MenuReload), "menu-reload");
    assert_eq!(
        event_name(&Notification::MenuZoom(ZoomDirection::In)),
        "menu-zoom"
    );
    assert_eq!(
        event_name(&Notification::MenuOpenUrl(UrlTarget::Docs)),
        "menu-open-url"
    );
    assert_eq!(event_name(&Notification::MenuAbout), "menu-about");
    assert_eq!(
        event_name(&Notification::MenuCheckUpdates),
        "menu-check-updates"
    );
}

#[test]
fn zoom_payloads_and_urls() {
    assert_eq!(zoom_payload(&ZoomDirection::In), "in");
    assert_eq!(zoom_payload(&ZoomDirection::Out), "out");
    assert_eq!(zoom_payload(&ZoomDirection::Reset), "reset");
    assert_eq!(url_for(&UrlTarget::Docs), "https://gruenerator.de/");
    assert_eq!(
        url_for(&UrlTarget::Feedback),
        "https://gitlab.com/Netzbegruenung/gruenerator/-/issues"
    );
}

#[test]
fn deep_link_batch_keeps_matches_in_order() {
    let urls = vec![
        "gruenerator://auth/callback?code=1".to_string(),
        "https://example.org/".to_string(),
        "gruenerator://auth/callback".to_string(),
        "gruenerator://other/path".to_string(),
        "gruenerator://auth/callback/extra".to_string(),
    ];
    let out = route_deep_link_batch(&urls);
    assert_eq!(
        out,
        vec![
            "gruenerator://auth/callback?code=1".to_string(),
            "gruenerator://auth/callback".to_string(),
            "gruenerator://auth/callback/extra".to_string(),
        ]
    );
}

#[test]
fn deep_link_empty_and_non_matching() {
    assert_eq!(route_deep_link_batch(&Vec::new()), Vec::<String>::new());
    let urls = vec![
        "".to_string(),
        "gruenerator://auth/callbac".to_string(),
        "Gruenerator://auth/callback".to_string(),
        "xgruenerator://auth/callback".to_string(),
    ];
    assert_eq!(route_deep_link_batch(&urls), Vec::<String>::new());
}

#[test]
fn deep_link_single_url_checks() {
    assert!(is_auth_callback_url("gruenerator://auth/callback?a=b"));
    assert!(is_auth_callback_url(auth_callback_prefix()));
    assert!(!is_auth_callback_url("gruenerator://auth"));
    assert!(!is_auth_callback_url(""));
    assert_eq!(auth_event_name(), "deep-link-auth");
}

#[test]
fn update_not_found_is_bare() {
    // "Not found" always yields available=false with no version and no notes.
    let r = normalize_update_outcome(UpdateOutcome::NotFound, "0.9.0".to_string()).unwrap();
    assert!(!r.available);
    assert_eq!(r.version, None);
    assert_eq!(r.body, None);
    assert_eq!(r.current_version, "0.9.0");
}

#[test]
fn update_found_carries_version_and_notes() {
    let r = normalize_update_outcome(
        UpdateOutcome::Found {
            version: "1.2.3".to_string(),
            body: Some("fixes".to_string()),
        },
        "1.0.0".to_string(),
    )
    .unwrap();
    assert!(r.available);
    assert_eq!(r.version, Some("1.2.3".to_string()));
    assert_eq!(r.body, Some("fixes".to_string()));
    assert_eq!(r.current_version, "1.0.0");
}

#[test]
fn update_found_without_notes() {
    let r = normalize_update_outcome(
        UpdateOutcome::Found {
            version: "2.0.0".to_string(),
            body: None,
        },
        "1.0.0".to_string(),
    )
    .unwrap();
    assert!(r.available);
    assert_eq!(r.version, Some("2.0.0".to_string()));
    assert_eq!(r.body, None);
}

#[test]
fn update_failure_is_surfaced() {
    let r = normalize_update_outcome(
        UpdateOutcome::Failed {
            message: "network unreachable".to_string(),
        },
        "1.0.0".to_string(),
    );
    assert_eq!(r, Err("network unreachable".to_string()));
}

#[test]
fn theme_labels() {
    assert_eq!(theme_label(&ThemeReading::Dark), "dark");
    assert_eq!(theme_label(&ThemeReading::Light), "light");
    assert_eq!(theme_label(&ThemeReading::Unknown), "light");
    assert_eq!(theme_changed_event_name(), "system-theme-changed");
}

#[test]
fn theme_requests() {
    assert_eq!(parse_theme_request("dark"), ThemeChoice::Dark);
    assert_eq!(parse_theme_request("light"), ThemeChoice::Light);
    assert_eq!(parse_theme_request("auto"), ThemeChoice::FollowSystem);
    assert_eq!(parse_theme_request(""), ThemeChoice::FollowSystem);
}

#[test]
fn autostart_requests() {
    assert_eq!(autostart_action(true), AutostartAction::Enable);
    assert_eq!(autostart_action(false), AutostartAction::Disable);
}
