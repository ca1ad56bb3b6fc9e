use vstd::prelude::*;

verus! {

/// Observable state of one platform window, as the core reads it through the
/// host layer: whether it is shown, whether it is in fullscreen, and whether
/// it holds focus.
#[derive(Clone, Copy, PartialEq, Eq, Structural, Debug)]
pub struct WindowState {
    pub visible: bool,
    pub fullscreen: bool,
    pub focused: bool,
}

/// The window registry: the two logical windows the shell knows by name,
/// "splashscreen" and "main". `None` stands for an absent window — not yet
/// created, or already closed. Every operation of the core tolerates absence.
#[derive(Clone, Copy, PartialEq, Eq, Structural, Debug)]
pub struct Windows {
    pub splash: Option<WindowState>,
    pub main: Option<WindowState>,
}

/// What the visibility controller decides to do with the main window on a
/// tray toggle.
#[derive(Clone, Copy, PartialEq, Eq, Structural, Debug)]
pub enum VisibilityAction {
    /// The window is visible: hide it.
    Hide,
    /// The window is hidden: show it and request focus.
    ShowAndFocus,
    /// The window is absent: do nothing.
    NoOp,
}

/// The toggle decision as a pure function of the main window's observed state.
pub open spec fn spec_toggle_action(main: Option<WindowState>) -> VisibilityAction {
    match main {
        Option::None => VisibilityAction::NoOp,
        Option::Some(m) => if m.visible {
            VisibilityAction::Hide
        } else {
            VisibilityAction::ShowAndFocus
        },
    }
}

/// The registry after one visibility toggle of the main window.
pub open spec fn spec_after_toggle(w: Windows) -> Windows {
    match w.main {
        Option::None => w,
        Option::Some(m) => (Windows {
            main: Option::Some(
                if m.visible {
                    (WindowState { visible: false, ..m })
                } else {
                    (WindowState { visible: true, focused: true, ..m })
                },
            ),
            ..w
        }),
    }
}

/// Decide what a visibility toggle must do to the main window. Absence of the
/// window is not an error: the action is then a no-op.
pub fn toggle_action(main: &Option<WindowState>) -> (a: VisibilityAction)
    ensures
        a == spec_toggle_action(*main),
{
    match main {
        None => VisibilityAction::NoOp,
        Some(m) => {
            if m.visible {
                VisibilityAction::Hide
            } else {
                VisibilityAction::ShowAndFocus
            }
        },
    }
}

/// Apply one visibility toggle to the registry model: hide the main window if
/// it is visible, else show it and give it focus; do nothing if it is absent.
/// The splash window and the main window's fullscreen state are untouched.
pub fn toggle_main_visibility(w: &mut Windows)
    ensures
        *final(w) == spec_after_toggle(*old(w)),
{
    let cur = w.main;
    match cur {
        None => {},
        Some(m) => {
            if m.visible {
                w.main = Some(WindowState { visible: false, ..m });
            } else {
                w.main = Some(WindowState { visible: true, focused: true, ..m });
            }
        },
    }
}

/// Law: while the main window is present, one toggle flips its visibility —
/// visible becomes hidden, hidden becomes visible and focused — and a second
/// toggle restores the visibility it started with. The splash window and the main
/// window's fullscreen state are preserved by any number of toggles.
pub proof fn lemma_toggle_round_trip(w: Windows)
    requires
        w.main is Some,
    ensures
        spec_after_toggle(w).main is Some,
        spec_after_toggle(w).main->0.visible == !w.main->0.visible,
        spec_after_toggle(spec_after_toggle(w)).main->0.visible == w.main->0.visible,
        spec_after_toggle(w).splash == w.splash,
        spec_after_toggle(w).main->0.fullscreen == w.main->0.fullscreen,
{
}

} // verus!
