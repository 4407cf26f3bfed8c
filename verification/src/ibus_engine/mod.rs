//! The input-method engine: what it shows and commits, and when.

use vstd::prelude::*;

pub mod commands;
pub mod context;
pub mod global_shortcuts;
pub mod ibus_api;
pub mod listener;

verus! {

/// The code by which the engine says that it has started.
pub const INIT_SUCCESS: i32 = 0;

/// What a start of the engine comes to, by its code.
pub fn init_result(code: i32) -> (r: Result<(), i32>)
    ensures
        match r {
            Ok(_) => code == INIT_SUCCESS,
            Err(e) => code != INIT_SUCCESS && e == code,
        },
{
    if code == INIT_SUCCESS {
        Ok(())
    } else {
        Err(code)
    }
}

} // verus!
