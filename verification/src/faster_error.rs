//! The error taxonomy of the store facade.
use vstd::prelude::*;

verus! {

/// Errors surfaced synchronously by the store facade.
///
/// `InvalidType` reports a configuration fault: invalid builder parameters, or
/// a checkpoint/recover/clean-storage request on a store that is not in
/// persistent mode. `CheckpointError` means the engine could not start a
/// snapshot, `RecoveryError` that no snapshot matches the given tokens,
/// `SerializationError` an encode/decode failure, and `IoError` a filesystem
/// failure while cleaning storage.
#[derive(Clone, Copy, Debug, PartialEq, Eq, Structural)]
pub enum FasterError {
    InvalidType,
    CheckpointError,
    RecoveryError,
    SerializationError,
    IoError,
}

} // verus!
