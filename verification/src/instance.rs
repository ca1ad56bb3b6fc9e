use vstd::prelude::*;
use crate::windows::{WindowState, Windows};

verus! {

/// Exit code with which a second process launch terminates after forwarding
/// its activation to the instance that holds the single-instance claim.
pub const SECOND_LAUNCH_EXIT_CODE: i32 = 0;

/// The registry of the claim-holding instance after a second launch has been
/// forwarded to it: the main window — if present — is shown and focused;
/// everything else is untouched.
pub open spec fn spec_after_second_launch(w: Windows) -> Windows {
    Windows {
        main: match w.main {
            Option::None => Option::None,
            Option::Some(m) => Option::Some(WindowState { visible: true, focused: true, ..m }),
        },
        ..w
    }
}

/// React, in the instance that holds the single-instance claim, to a second
/// process launch: show and focus the main window if present; absence is not
/// an error. No window of the new process is involved — the new process
/// exits with `SECOND_LAUNCH_EXIT_CODE` without creating one.
pub fn on_second_launch(w: &mut Windows)
    ensures
        *final(w) == spec_after_second_launch(*old(w)),
        old(w).main is Some ==> final(w).main is Some && final(w).main->0.visible
            && final(w).main->0.focused,
        old(w).main is None ==> *final(w) == *old(w),
        final(w).splash == old(w).splash,
{
    let cur = w.main;
    match cur {
        None => {},
        Some(m) => {
            w.main = Some(WindowState { visible: true, focused: true, ..m });
        },
    }
}

} // verus!
