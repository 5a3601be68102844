use vstd::prelude::*;

verus! {

/// Asks for access to the microphone. No platform check is made: access is
/// always granted.
pub fn request_microphone_permission() -> (r: Result<bool, String>)
    ensures
        r == Ok::<bool, String>(true),
{
    Ok(true)
}

} // verus!
