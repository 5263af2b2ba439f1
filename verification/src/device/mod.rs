//! Devices of the system.
use crate::error::HResult;
use vstd::prelude::*;

pub mod video;

verus! {

/// The system was set up for this thread before.
pub const CO_E_ALREADYINITIALIZED: HResult = -2147221007;

/// Whether the system is set up for this thread, from what came of setting it
/// up: it may have been before.
pub fn ensure_com_initialized(result: Result<(), HResult>) -> (r: Result<(), HResult>)
    ensures
        match result {
            Err(code) => if code == CO_E_ALREADYINITIALIZED {
                r is Ok
            } else {
                r == Err::<(), HResult>(code)
            },
            Ok(_) => r is Ok,
        },
{
    match result {
        Ok(done) => Ok(done),
        Err(code) => {
            if code == CO_E_ALREADYINITIALIZED {
                Ok(())
            } else {
                Err(code)
            }
        },
    }
}

} // verus!
