use vstd::prelude::*;
use crate::text::str_eq_check;

verus! {

/// A window theme as the host layer reports it. `Unknown` covers both a
/// theme the core does not recognize and a failed read.
#[derive(Clone, Copy, PartialEq, Eq, Structural, Debug)]
pub enum ThemeReading {
    Dark,
    Light,
    Unknown,
}

/// A theme requested by the UI layer. `FollowSystem` clears any override and
/// lets the platform decide.
#[derive(Clone, Copy, PartialEq, Eq, Structural, Debug)]
pub enum ThemeChoice {
    Dark,
    Light,
    FollowSystem,
}

/// What a UI request to change the autostart setting asks of the host layer.
#[derive(Clone, Copy, PartialEq, Eq, Structural, Debug)]
pub enum AutostartAction {
    Enable,
    Disable,
}

/// The label under which a theme reading is reported to the UI layer: "dark"
/// for a dark theme, "light" for everything else, failed reads included.
pub fn theme_label(t: &ThemeReading) -> (s: &'static str)
    ensures
        *t is Dark ==> s@ == "dark"@,
        !(*t is Dark) ==> s@ == "light"@,
{
    match t {
        ThemeReading::Dark => "dark",
        _ => "light",
    }
}

/// The requested theme as a pure function of the request string.
pub open spec fn spec_parse_theme(s: Seq<char>) -> ThemeChoice {
    if s == "dark"@ {
        ThemeChoice::Dark
    } else if s == "light"@ {
        ThemeChoice::Light
    } else {
        ThemeChoice::FollowSystem
    }
}

/// Parse a UI theme request: "dark" and "light" select that theme, any other
/// string falls back to following the system.
pub fn parse_theme_request(s: &str) -> (c: ThemeChoice)
    ensures
        c == spec_parse_theme(s@),
        s@ == "dark"@ ==> c is Dark,
        s@ == "light"@ ==> c is Light,
        s@ != "dark"@ && s@ != "light"@ ==> c is FollowSystem,
{
    proof {
        reveal_strlit("dark");
        reveal_strlit("light");
        assert("dark"@.len() == 4);
        assert("light"@.len() == 5);
    }
    if str_eq_check(s, "dark") {
        ThemeChoice::Dark
    } else if str_eq_check(s, "light") {
        ThemeChoice::Light
    } else {
        ThemeChoice::FollowSystem
    }
}

/// Decide what an autostart request asks of the host layer: enable on
/// `true`, disable on `false`.
pub fn autostart_action(enabled: bool) -> (a: AutostartAction)
    ensures
        (a is Enable) == enabled,
        (a is Disable) == !enabled,
{
    if enabled {
        AutostartAction::Enable
    } else {
        AutostartAction::Disable
    }
}

/// Name of the outbound notification that reports a system theme change; its
/// payload is the changed theme's label.
pub fn theme_changed_event_name() -> (s: &'static str)
    ensures
        s@ == "system-theme-changed"@,
{
    "system-theme-changed"
}

} // verus!
