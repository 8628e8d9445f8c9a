use vstd::prelude::*;

verus! {

/// Why a direct client operation could not produce a result.
#[derive(Clone, Copy, Debug, PartialEq, Eq, Structural)]
pub enum DirectClientError {
    /// The loaded client build has no verified direct profile.
    UnsupportedVersion,
    /// The native state is not (yet) in a shape the operation can use.
    NotReady,
}

/// Why an outbound or emulated packet could not be produced or delivered.
#[derive(Clone, Copy, Debug, PartialEq, Eq, Structural)]
pub enum SendError {
    /// The payload does not fit the native size fields.
    PayloadTooLarge,
    /// The native side rejected the call or the input was malformed.
    NativeCallFailed,
    /// The native client is not connected or hooked yet.
    ClientNotReady,
}

} // verus!
