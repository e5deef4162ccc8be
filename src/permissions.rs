use vstd::prelude::*;

verus! {

/// Whether screen capture is allowed; capture on this platform needs no
/// explicit grant, so it always is.
pub fn has_screen_recording_permission() -> (r: bool)
    ensures
        r,
{
    true
}

/// Asks for screen capture permission; there is nothing to ask for on
/// this platform, so the answer is always yes.
pub fn request_screen_recording_permission() -> (r: bool)
    ensures
        r,
{
    true
}

} // verus!
