use vstd::prelude::*;

verus! {

/// The error taxonomy of the tray session façade.
#[derive(Debug, Clone, PartialEq, Eq)]
pub enum SystemTrayError {
    /// The event reporting machinery failed: the native side announced a
    /// menu-item click but handed over no identifier payload.
    SendError,
    /// A string meant for the native side contains an embedded terminator
    /// byte and cannot cross the boundary. Carries the byte index of the
    /// first terminator within the offending string's encoding.
    Ffi(usize),
    /// The native side reported an event discriminant the session does not
    /// know how to decode. Carries the raw discriminant for diagnostics.
    PollEventError(u32),
}

} // verus!
