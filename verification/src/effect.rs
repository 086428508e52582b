//! Messages of the full-screen colour effect (hue rotation through the
//! Windows magnification API).

use vstd::prelude::*;

use crate::text::{decimal, with_u32};

verus! {

/// The message when the magnification library cannot be loaded.
pub fn magnification_load_failure(error: u32) -> (message: String)
    ensures
        message@ == "Failed to load Magnification.dll (error: "@ + decimal(error as int) + ")"@,
{
    with_u32("Failed to load Magnification.dll (error: ", error, ")")
}

/// The answer to a request to apply a colour effect, from the API's result
/// (`0` for failure) and the error code read after the call.
pub fn color_effect_outcome(result: i32, error: u32) -> (outcome: Result<(), String>)
    ensures
        result != 0 ==> outcome is Ok,
        result == 0 ==> (outcome matches Err(m) && m@ == "MagSetFullscreenColorEffect failed (error: "@
            + decimal(error as int) + ")"@),
{
    if result == 0 {
        Err(with_u32("MagSetFullscreenColorEffect failed (error: ", error, ")"))
    } else {
        Ok(())
    }
}

} // verus!
