use vstd::prelude::*;
use crate::text::str_eq_check;

verus! {

/// Mouse button of a tray icon click.
#[derive(Clone, Copy, PartialEq, Eq, Structural, Debug)]
pub enum TrayButton {
    Left,
    Right,
    Middle,
}

/// Press phase of a tray icon click.
#[derive(Clone, Copy, PartialEq, Eq, Structural, Debug)]
pub enum TrayButtonPhase {
    Up,
    Down,
}

/// A tray icon interaction as the host layer delivers it. `Other` covers
/// every non-click event (double click, hover, movement).
#[derive(Clone, Copy, PartialEq, Eq, Structural, Debug)]
pub enum TrayIconInput {
    Click { button: TrayButton, phase: TrayButtonPhase },
    Other,
}

/// What the tray controller decides to do.
#[derive(Clone, Copy, PartialEq, Eq, Structural, Debug)]
pub enum TrayAction {
    /// Toggle the main window's visibility through the visibility
    /// controller.
    ToggleMainVisibility,
    /// Terminate the process immediately with the carried exit code,
    /// bypassing normal window-close teardown.
    Quit { exit_code: i32 },
    /// Ignore the input.
    NoOp,
}

/// The tray click decision: only the release of a primary-button click
/// toggles; every other input does nothing.
pub open spec fn spec_tray_icon_action(input: TrayIconInput) -> TrayAction {
    match input {
        TrayIconInput::Click { button: TrayButton::Left, phase: TrayButtonPhase::Up } =>
            TrayAction::ToggleMainVisibility,
        _ => TrayAction::NoOp,
    }
}

/// Decide how to react to a tray icon interaction.
pub fn dispatch_tray_icon_event(input: &TrayIconInput) -> (a: TrayAction)
    ensures
        a == spec_tray_icon_action(*input),
        (a is ToggleMainVisibility) == (*input matches TrayIconInput::Click {
            button: TrayButton::Left,
            phase: TrayButtonPhase::Up,
        }),
        !(a is Quit),
{
    match input {
        TrayIconInput::Click { button: TrayButton::Left, phase: TrayButtonPhase::Up } =>
            TrayAction::ToggleMainVisibility,
        _ => TrayAction::NoOp,
    }
}

/// The tray menu decision as a pure function of the activated identifier.
pub open spec fn spec_tray_menu_action(id: Seq<char>) -> TrayAction {
    if id == "tray_show_hide"@ {
        TrayAction::ToggleMainVisibility
    } else if id == "tray_quit"@ {
        TrayAction::Quit { exit_code: 0 }
    } else {
        TrayAction::NoOp
    }
}

/// Decide how to react to a tray menu activation: the show/hide item
/// toggles, the quit item terminates the process with exit code 0, and any
/// other identifier — the disabled separator included — does nothing.
pub fn dispatch_tray_menu(id: &str) -> (a: TrayAction)
    ensures
        a == spec_tray_menu_action(id@),
        a matches TrayAction::Quit { exit_code } ==> exit_code == 0,
{
    if str_eq_check(id, "tray_show_hide") {
        TrayAction::ToggleMainVisibility
    } else if str_eq_check(id, "tray_quit") {
        TrayAction::Quit { exit_code: 0 }
    } else {
        TrayAction::NoOp
    }
}

} // verus!
