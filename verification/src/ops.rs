//! The vocabulary between an orchestrator and its driver.
//!
//! An orchestrator never touches the filesystem itself. It hands its driver
//! a [`Directive`]: probe the target, perform one [`FsOp`], or stop. The
//! driver answers with an [`FsEvent`]: the probed status, or whether the
//! operation succeeded. Every operation names the session's target path
//! implicitly; backing-store operations carry the store path explicitly.

use vstd::prelude::*;

use crate::error::RamdiskError;
use crate::status::{TargetStatus, TargetStatusV};

verus! {

/// One filesystem operation, relative to the session's target path.
#[derive(Debug, Clone, PartialEq)]
pub enum FsOp {
    /// Remove the symbolic link at the target path (the link itself, not
    /// what it points to).
    UnlinkTarget,
    /// Create the backing-store directory.
    CreateStoreDir { store: String },
    /// Recursively copy the target's content into the backing store,
    /// preserving mode, ownership and modification timestamps.
    CopyTargetToStore { store: String },
    /// Recursively remove the target path.
    RemoveTargetTree,
    /// Recursively remove the backing-store directory.
    RemoveStoreDir { store: String },
    /// Create a symbolic link from the target path to the backing store.
    LinkTargetToStore { store: String },
    /// Recursively copy the backing store's content back to the target
    /// path, preserving mode, ownership and modification timestamps.
    CopyStoreToTarget { store: String },
}

/// The mathematical form of an [`FsOp`].
pub enum FsOpV {
    UnlinkTarget,
    CreateStoreDir { store: Seq<char> },
    CopyTargetToStore { store: Seq<char> },
    RemoveTargetTree,
    RemoveStoreDir { store: Seq<char> },
    LinkTargetToStore { store: Seq<char> },
    CopyStoreToTarget { store: Seq<char> },
}

impl View for FsOp {
    type V = FsOpV;

    open spec fn view(&self) -> FsOpV {
        match self {
            FsOp::UnlinkTarget => FsOpV::UnlinkTarget,
            FsOp::CreateStoreDir { store } => FsOpV::CreateStoreDir { store: store@ },
            FsOp::CopyTargetToStore { store } => FsOpV::CopyTargetToStore { store: store@ },
            FsOp::RemoveTargetTree => FsOpV::RemoveTargetTree,
            FsOp::RemoveStoreDir { store } => FsOpV::RemoveStoreDir { store: store@ },
            FsOp::LinkTargetToStore { store } => FsOpV::LinkTargetToStore { store: store@ },
            FsOp::CopyStoreToTarget { store } => FsOpV::CopyStoreToTarget { store: store@ },
        }
    }
}

/// What the driver reports back to the orchestrator.
#[derive(Debug, Clone, PartialEq)]
pub enum FsEvent {
    /// The answer to a probe: the target path's freshly read status.
    Status(TargetStatus),
    /// The requested operation succeeded.
    OpOk,
    /// The requested operation failed.
    OpErr,
}

/// The mathematical form of an [`FsEvent`].
pub enum FsEventV {
    Status(TargetStatusV),
    OpOk,
    OpErr,
}

impl View for FsEvent {
    type V = FsEventV;

    open spec fn view(&self) -> FsEventV {
        match self {
            FsEvent::Status(st) => FsEventV::Status(st@),
            FsEvent::OpOk => FsEventV::OpOk,
            FsEvent::OpErr => FsEventV::OpErr,
        }
    }
}

/// What the orchestrator asks of its driver next.
#[derive(Debug, Clone, PartialEq)]
pub enum Directive {
    /// Read the target path's status and answer with `FsEvent::Status`.
    Probe,
    /// Perform the operation and answer with `FsEvent::OpOk` or
    /// `FsEvent::OpErr`.
    Do(FsOp),
    /// The operation is over; `error` is `None` on success.
    Stop { error: Option<RamdiskError> },
}

/// The mathematical form of a [`Directive`].
pub enum DirectiveV {
    Probe,
    Do(FsOpV),
    Stop { error: Option<RamdiskError> },
}

impl View for Directive {
    type V = DirectiveV;

    open spec fn view(&self) -> DirectiveV {
        match self {
            Directive::Probe => DirectiveV::Probe,
            Directive::Do(op) => DirectiveV::Do(op@),
            Directive::Stop { error } => DirectiveV::Stop { error: *error },
        }
    }
}

} // verus!
