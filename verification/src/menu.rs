use vstd::prelude::*;
use crate::text::str_eq_check;
use crate::windows::{WindowState, Windows};

verus! {

/// Direction payload of a zoom notification.
#[derive(Clone, Copy, PartialEq, Eq, Structural, Debug)]
pub enum ZoomDirection {
    In,
    Out,
    Reset,
}

/// Target of a "open this URL" notification; the literal address stands in
/// `url_for`.
#[derive(Clone, Copy, PartialEq, Eq, Structural, Debug)]
pub enum UrlTarget {
    Docs,
    Feedback,
}

/// An outbound notification the menu router owes the UI layer.
#[derive(Clone, Copy, PartialEq, Eq, Structural, Debug)]
pub enum Notification {
    MenuNew,
    MenuSettings,
    MenuReload,
    MenuZoom(ZoomDirection),
    MenuOpenUrl(UrlTarget),
    MenuAbout,
    MenuCheckUpdates,
}

/// What one menu activation dispatches to: an outbound notification, a
/// fullscreen change of the main window, or nothing.
#[derive(Clone, Copy, PartialEq, Eq, Structural, Debug)]
pub enum MenuDispatch {
    Notify(Notification),
    SetMainFullscreen(bool),
    NoOp,
}

/// The identifiers the router acts on. Anything else — predefined host items
/// and identifiers of future menu definitions alike — is ignored.
pub open spec fn spec_is_routed_menu_id(id: Seq<char>) -> bool {
    ||| id == "new"@
    ||| id == "settings"@
    ||| id == "reload"@
    ||| id == "fullscreen"@
    ||| id == "zoom_in"@
    ||| id == "zoom_out"@
    ||| id == "zoom_reset"@
    ||| id == "docs"@
    ||| id == "feedback"@
    ||| id == "about"@
    ||| id == "check_updates"@
}

/// The menu routing decision as a pure function of the activated identifier
/// and the main window's observed state.
pub open spec fn spec_menu_route(id: Seq<char>, main: Option<WindowState>) -> MenuDispatch {
    if id == "new"@ {
        MenuDispatch::Notify(Notification::MenuNew)
    } else if id == "settings"@ {
        MenuDispatch::Notify(Notification::MenuSettings)
    } else if id == "reload"@ {
        MenuDispatch::Notify(Notification::MenuReload)
    } else if id == "fullscreen"@ {
        match main {
            Option::None => MenuDispatch::NoOp,
            Option::Some(m) => MenuDispatch::SetMainFullscreen(!m.fullscreen),
        }
    } else if id == "zoom_in"@ {
        MenuDispatch::Notify(Notification::MenuZoom(ZoomDirection::In))
    } else if id == "zoom_out"@ {
        MenuDispatch::Notify(Notification::MenuZoom(ZoomDirection::Out))
    } else if id == "zoom_reset"@ {
        MenuDispatch::Notify(Notification::MenuZoom(ZoomDirection::Reset))
    } else if id == "docs"@ {
        MenuDispatch::Notify(Notification::MenuOpenUrl(UrlTarget::Docs))
    } else if id == "feedback"@ {
        MenuDispatch::Notify(Notification::MenuOpenUrl(UrlTarget::Feedback))
    } else if id == "about"@ {
        MenuDispatch::Notify(Notification::MenuAbout)
    } else if id == "check_updates"@ {
        MenuDispatch::Notify(Notification::MenuCheckUpdates)
    } else {
        MenuDispatch::NoOp
    }
}

/// Decide what one menu activation does. The decision is a pure function of
/// the identifier and the main window's state; the router keeps no state of
/// its own between activations.
pub fn dispatch_menu(id: &str, main: &Option<WindowState>) -> (d: MenuDispatch)
    ensures
        d == spec_menu_route(id@, *main),
        !spec_is_routed_menu_id(id@) ==> d is NoOp,
{
    if str_eq_check(id, "new") {
        MenuDispatch::Notify(Notification::MenuNew)
    } else if str_eq_check(id, "settings") {
        MenuDispatch::Notify(Notification::MenuSettings)
    } else if str_eq_check(id, "reload") {
        MenuDispatch::Notify(Notification::MenuReload)
    } else if str_eq_check(id, "fullscreen") {
        match main {
            None => MenuDispatch::NoOp,
            Some(m) => MenuDispatch::SetMainFullscreen(!m.fullscreen),
        }
    } else if str_eq_check(id, "zoom_in") {
        MenuDispatch::Notify(Notification::MenuZoom(ZoomDirection::In))
    } else if str_eq_check(id, "zoom_out") {
        MenuDispatch::Notify(Notification::MenuZoom(ZoomDirection::Out))
    } else if str_eq_check(id, "zoom_reset") {
        MenuDispatch::Notify(Notification::MenuZoom(ZoomDirection::Reset))
    } else if str_eq_check(id, "docs") {
        MenuDispatch::Notify(Notification::MenuOpenUrl(UrlTarget::Docs))
    } else if str_eq_check(id, "feedback") {
        MenuDispatch::Notify(Notification::MenuOpenUrl(UrlTarget::Feedback))
    } else if str_eq_check(id, "about") {
        MenuDispatch::Notify(Notification::MenuAbout)
    } else if str_eq_check(id, "check_updates") {
        MenuDispatch::Notify(Notification::MenuCheckUpdates)
    } else {
        MenuDispatch::NoOp
    }
}

/// The registry after one dispatch is applied: only a fullscreen dispatch
/// changes anything, and only the main window's fullscreen flag.
pub open spec fn spec_windows_after_menu(d: MenuDispatch, w: Windows) -> Windows {
    match d {
        MenuDispatch::SetMainFullscreen(on) => (Windows {
            main: match w.main {
                Option::None => Option::None,
                Option::Some(m) => Option::Some(WindowState { fullscreen: on, ..m }),
            },
            ..w
        }),
        _ => w,
    }
}

/// The notification one dispatch emits, if any.
pub open spec fn spec_menu_notification(d: MenuDispatch) -> Option<Notification> {
    match d {
        MenuDispatch::Notify(n) => Option::Some(n),
        _ => Option::None,
    }
}

/// Apply one dispatch to the registry model and hand back the notification
/// it emits, if any. A fullscreen dispatch against an absent main window is
/// a no-op, not an error.
pub fn apply_menu_dispatch(d: &MenuDispatch, w: &mut Windows) -> (n: Option<Notification>)
    ensures
        *final(w) == spec_windows_after_menu(*d, *old(w)),
        n == spec_menu_notification(*d),
{
    match d {
        MenuDispatch::Notify(x) => Some(*x),
        MenuDispatch::SetMainFullscreen(on) => {
            let cur = w.main;
            match cur {
                None => {},
                Some(m) => {
                    w.main = Some(WindowState { fullscreen: *on, ..m });
                },
            }
            None
        },
        MenuDispatch::NoOp => None,
    }
}

/// Route one menu activation against the registry model: decide on the
/// identifier and the main window's state, apply the decision, and hand back
/// the notification owed to the UI layer, if any. An unknown identifier is a
/// no-op that emits nothing; a fullscreen activation flips the main window's
/// fullscreen flag when the window is present and does nothing when it is
/// absent; no activation touches visibility, focus, or the splash window.
pub fn handle_menu_event(id: &str, w: &mut Windows) -> (n: Option<Notification>)
    ensures
        *final(w) == spec_windows_after_menu(
            spec_menu_route(id@, old(w).main),
            *old(w),
        ),
        n == spec_menu_notification(spec_menu_route(id@, old(w).main)),
        !spec_is_routed_menu_id(id@) ==> n is None && *final(w) == *old(w),
        id@ == "fullscreen"@ && old(w).main is Some ==> n is None && final(w).main is Some
            && final(w).main->0.fullscreen == !old(w).main->0.fullscreen,
        id@ == "fullscreen"@ && old(w).main is None ==> n is None && *final(w) == *old(w),
        final(w).splash == old(w).splash,
        old(w).main is Some ==> final(w).main is Some
            && final(w).main->0.visible == old(w).main->0.visible
            && final(w).main->0.focused == old(w).main->0.focused,
        old(w).main is None ==> final(w).main is None,
{
    proof {
        reveal_strlit("fullscreen");
        reveal_strlit("new");
        reveal_strlit("settings");
        reveal_strlit("reload");
        assert("fullscreen"@.len() == 10);
        assert("new"@.len() == 3);
        assert("settings"@.len() == 8);
        assert("reload"@.len() == 6);
    }
    let d = dispatch_menu(id, &w.main);
    apply_menu_dispatch(&d, w)
}

/// Name under which a notification is delivered to the UI layer.
pub fn event_name(n: &Notification) -> (s: &'static str)
    ensures
        *n is MenuNew ==> s@ == "menu-new"@,
        *n is MenuSettings ==> s@ == "menu-settings"@,
        *n is MenuReload ==> s@ == "menu-reload"@,
        *n is MenuZoom ==> s@ == "menu-zoom"@,
        *n is MenuOpenUrl ==> s@ == "menu-open-url"@,
        *n is MenuAbout ==> s@ == "menu-about"@,
        *n is MenuCheckUpdates ==> s@ == "menu-check-updates"@,
{
    match n {
        Notification::MenuNew => "menu-new",
        Notification::MenuSettings => "menu-settings",
        Notification::MenuReload => "menu-reload",
        Notification::MenuZoom(_) => "menu-zoom",
        Notification::MenuOpenUrl(_) => "menu-open-url",
        Notification::MenuAbout => "menu-about",
        Notification::MenuCheckUpdates => "menu-check-updates",
    }
}

/// Payload of a zoom notification.
pub fn zoom_payload(d: &ZoomDirection) -> (s: &'static str)
    ensures
        *d is In ==> s@ == "in"@,
        *d is Out ==> s@ == "out"@,
        *d is Reset ==> s@ == "reset"@,
{
    match d {
        ZoomDirection::In => "in",
        ZoomDirection::Out => "out",
        ZoomDirection::Reset => "reset",
    }
}

/// Literal address carried by an open-URL notification.
pub fn url_for(t: &UrlTarget) -> (s: &'static str)
    ensures
        *t is Docs ==> s@ == "https://gruenerator.de/"@,
        *t is Feedback ==> s@ == "https://gitlab.com/Netzbegruenung/gruenerator/-/issues"@,
{
    match t {
        UrlTarget::Docs => "https://gruenerator.de/",
        UrlTarget::Feedback => "https://gitlab.com/Netzbegruenung/gruenerator/-/issues",
    }
}

} // verus!
