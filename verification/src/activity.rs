//! Whether this front end is actually the application receiving input.
//!
//! A window can remain its application's active window while a different
//! application is frontmost. A read receipt needs both facts.

use vstd::prelude::*;

verus! {

/// What the operating system says of this application's activity.
#[derive(Clone, Copy, PartialEq, Eq, Debug, Structural)]
pub enum Activity {
    /// The platform has no separate signal: the window's own is sufficient.
    WindowOnly,
    /// The question was asked away from the main thread and has no answer.
    OffMainThread,
    /// The application's own answer, read on the main thread.
    Application { active: bool },
}

/// Whether this application is currently active at the operating-system level.
pub fn application_is_active(observed: Activity) -> (active: bool)
    ensures
        active == match observed {
            Activity::WindowOnly => true,
            Activity::OffMainThread => false,
            Activity::Application { active } => active,
        },
{
    match observed {
        Activity::WindowOnly => true,
        Activity::OffMainThread => false,
        Activity::Application { active } => active,
    }
}

} // verus!
