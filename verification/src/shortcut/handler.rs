//! Key bindings. The input method handles the keys, so nothing is bound here.

use vstd::prelude::*;

verus! {

/// Sets up the bindings: there are none.
pub fn init_shortcuts() {
}

/// Changes a binding. There is none, so every change is accepted.
pub fn change_binding(_id: &str, _binding: &str) -> (r: Result<(), String>)
    ensures
        r is Ok,
{
    Ok(())
}

/// Resets a binding. There is none, so every reset is accepted.
pub fn reset_binding(_id: &str) -> (r: Result<(), String>)
    ensures
        r is Ok,
{
    Ok(())
}

/// Suspends a binding: there is none.
pub fn suspend_binding(_id: &str) {
}

/// Resumes a binding: there is none.
pub fn resume_binding(_id: &str) {
}

/// Gives up the shortcut that cancels: there is none.
pub fn unregister_cancel_shortcut() {
}

} // verus!
