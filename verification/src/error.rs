//! Error kinds surfaced by the orchestrators.

use vstd::prelude::*;

verus! {

/// Every way an operation of this system can fail.
///
/// `InvalidPathEncoding` is fatal and raised only at the boundary, where a
/// caller turns an operating-system path into text; the library itself only
/// ever sees valid text. The three user-input errors (`TargetNotFound`,
/// `NotASymlink`, `NotAVolatileLink`) are produced by the unmount
/// orchestrator when it refuses to touch a path it does not manage. The rest
/// report a failed filesystem step: backing-store creation
/// (`AllocationFailure`), a copy in either direction (`TransferFailure`),
/// symbolic-link creation (`LinkFailure`), or a removal — including a
/// rollback removal — that itself failed (`CleanupFailure`).
#[derive(Clone, Copy, Debug, PartialEq, Eq, Structural)]
pub enum RamdiskError {
    InvalidPathEncoding,
    TargetNotFound,
    NotASymlink,
    NotAVolatileLink,
    AllocationFailure,
    TransferFailure,
    LinkFailure,
    CleanupFailure,
}

} // verus!
