use vstd::prelude::*;
use crate::windows::{WindowState, Windows};

verus! {

/// How long the fallback timer waits before it forces the splash-to-main
/// transition, in seconds.
pub const STARTUP_FALLBACK_SECS: u64 = 3;

/// The registry after the startup transition: the splash window is closed
/// (absent), and the main window — if present — is visible. Focus and
/// fullscreen of the main window are untouched; an absent main window stays
/// absent.
pub open spec fn spec_after_startup(w: Windows) -> Windows {
    Windows {
        splash: Option::None,
        main: match w.main {
            Option::None => Option::None,
            Option::Some(m) => Option::Some(WindowState { visible: true, ..m }),
        },
    }
}

/// Perform the splash-to-main startup transition on the registry model:
/// close the splash window if present, show the main window if present.
/// Either trigger — the explicit application-ready signal or the fallback
/// timer — runs exactly this step; absence of either window is not an error.
pub fn startup_transition(w: &mut Windows)
    ensures
        *final(w) == spec_after_startup(*old(w)),
{
    w.splash = None;
    let cur = w.main;
    match cur {
        None => {},
        Some(m) => {
            w.main = Some(WindowState { visible: true, ..m });
        },
    }
}

/// Law: whichever trigger fires first, the end state is exactly "splash
/// absent, main visible (when present)", and firing the second trigger
/// afterwards changes nothing — the transition is idempotent, so it neither
/// reopens the splash nor hides the main window.
pub proof fn lemma_startup_idempotent(w: Windows)
    ensures
        spec_after_startup(spec_after_startup(w)) == spec_after_startup(w),
        spec_after_startup(w).splash is None,
        w.main is Some ==> spec_after_startup(w).main is Some
            && spec_after_startup(w).main->0.visible,
        w.main is None ==> spec_after_startup(w).main is None,
{
}

} // verus!
