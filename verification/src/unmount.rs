//! The unmount orchestrator.
//!
//! Unmounting tears the redirect down: it refuses to touch a path it does
//! not manage, removes the symbolic link, optionally copies the backing
//! store's content back to the target path, and reclaims the backing store.
//! The copy back is best effort: its failure is reported, but never blocks
//! reclamation — leaving volatile storage unreclaimed is worse than losing
//! a copy back.

use vstd::prelude::*;
use vstd::string::*;

use crate::config::UnmountConfig;
use crate::error::RamdiskError;
use crate::ops::{Directive, DirectiveV, FsEvent, FsEventV, FsOp, FsOpV};
use crate::paths::{lies_under, resolve_target, resolved};
use crate::status::{classify, LinkState};

verus! {

/// What one unmount operation works on: the volatile root, the resolved
/// target path, and whether content is to be copied back.
#[derive(Debug, Clone, PartialEq)]
pub struct UnmountSession {
    pub root: String,
    pub target: String,
    pub copy_back: bool,
}

/// The mathematical form of an [`UnmountSession`].
pub struct UnmountSessionV {
    pub root: Seq<char>,
    pub target: Seq<char>,
    pub copy_back: bool,
}

impl View for UnmountSession {
    type V = UnmountSessionV;

    open spec fn view(&self) -> UnmountSessionV {
        UnmountSessionV { root: self.root@, target: self.target@, copy_back: self.copy_back }
    }
}

impl UnmountSession {
    /// Opens an unmount session: resolves the configured target against the
    /// working directory and normalizes it.
    pub fn new(root: &str, cwd: &str, config: &UnmountConfig) -> (s: Self)
        ensures
            s@.root == root@,
            s@.target == resolved(cwd@, config.target@),
            s@.copy_back == config.copy_back,
    {
        UnmountSession {
            root: String::from_str(root),
            target: resolve_target(cwd, config.target.as_str()),
            copy_back: config.copy_back,
        }
    }
}

/// Where an unmount operation stands. Each non-terminal phase waits for the
/// driver's answer to the directive [`unmount_directive`] maps it to.
#[derive(Debug, Clone, PartialEq)]
pub enum UnmountPhase {
    /// Waiting for the probe of the target path.
    Start,
    /// Removing the symbolic link itself, not what it points to.
    Unlink { store: String },
    /// Copying the backing store's content back to the target path.
    CopyBack { store: String },
    /// Removing the backing-store directory; `copy_failed` records a copy
    /// back that failed and is still to be reported.
    Reclaim { store: String, copy_failed: bool },
    /// The target path is no longer a symbolic link and the backing store
    /// is reclaimed.
    Done,
    /// The operation failed with `error`. For `TransferFailure` the backing
    /// store was still reclaimed; the user-input errors left the filesystem
    /// untouched.
    Failed { error: RamdiskError },
}

/// The mathematical form of an [`UnmountPhase`].
pub enum UnmountPhaseV {
    Start,
    Unlink { store: Seq<char> },
    CopyBack { store: Seq<char> },
    Reclaim { store: Seq<char>, copy_failed: bool },
    Done,
    Failed { error: RamdiskError },
}

impl View for UnmountPhase {
    type V = UnmountPhaseV;

    open spec fn view(&self) -> UnmountPhaseV {
        match self {
            UnmountPhase::Start => UnmountPhaseV::Start,
            UnmountPhase::Unlink { store } => UnmountPhaseV::Unlink { store: store@ },
            UnmountPhase::CopyBack { store } => UnmountPhaseV::CopyBack { store: store@ },
            UnmountPhase::Reclaim { store, copy_failed } => UnmountPhaseV::Reclaim {
                store: store@,
                copy_failed: *copy_failed,
            },
            UnmountPhase::Done => UnmountPhaseV::Done,
            UnmountPhase::Failed { error } => UnmountPhaseV::Failed { error: *error },
        }
    }
}

/// The directive each unmount phase stands for.
pub open spec fn unmount_directive_of(phase: UnmountPhaseV) -> DirectiveV {
    match phase {
        UnmountPhaseV::Start => DirectiveV::Probe,
        UnmountPhaseV::Unlink { .. } => DirectiveV::Do(FsOpV::UnlinkTarget),
        UnmountPhaseV::CopyBack { store } => DirectiveV::Do(FsOpV::CopyStoreToTarget { store }),
        UnmountPhaseV::Reclaim { store, .. } => DirectiveV::Do(FsOpV::RemoveStoreDir { store }),
        UnmountPhaseV::Done => DirectiveV::Stop { error: Option::None },
        UnmountPhaseV::Failed { error } => DirectiveV::Stop { error: Option::Some(error) },
    }
}

/// The unmount transition: where phase `phase` moves on event `ev`.
///
/// The probe decides whether the target is managed at all: a path that does
/// not exist (a missing path or a dangling link) is `TargetNotFound`, one
/// that is no symbolic link is `NotASymlink`, and a link resolving outside
/// the volatile root is `NotAVolatileLink` — each if and only if so. An
/// event that does not answer the phase's directive leaves the phase
/// unchanged.
pub open spec fn unmount_step_of(
    sess: UnmountSessionV,
    phase: UnmountPhaseV,
    ev: FsEventV,
) -> UnmountPhaseV {
    match (phase, ev) {
        (UnmountPhaseV::Start, FsEventV::Status(st)) => if !st.exists {
            UnmountPhaseV::Failed { error: RamdiskError::TargetNotFound }
        } else {
            match st.link_dest {
                Option::None => UnmountPhaseV::Failed { error: RamdiskError::NotASymlink },
                Option::Some(dest) => if lies_under(sess.root, dest) {
                    UnmountPhaseV::Unlink { store: dest }
                } else {
                    UnmountPhaseV::Failed { error: RamdiskError::NotAVolatileLink }
                },
            }
        },
        (UnmountPhaseV::Unlink { store }, FsEventV::OpOk) => if sess.copy_back {
            UnmountPhaseV::CopyBack { store }
        } else {
            UnmountPhaseV::Reclaim { store, copy_failed: false }
        },
        (UnmountPhaseV::Unlink { .. }, FsEventV::OpErr) => UnmountPhaseV::Failed {
            error: RamdiskError::CleanupFailure,
        },
        (UnmountPhaseV::CopyBack { store }, FsEventV::OpOk) => UnmountPhaseV::Reclaim {
            store,
            copy_failed: false,
        },
        (UnmountPhaseV::CopyBack { store }, FsEventV::OpErr) => UnmountPhaseV::Reclaim {
            store,
            copy_failed: true,
        },
        (UnmountPhaseV::Reclaim { copy_failed, .. }, FsEventV::OpOk) => if copy_failed {
            UnmountPhaseV::Failed { error: RamdiskError::TransferFailure }
        } else {
            UnmountPhaseV::Done
        },
        (UnmountPhaseV::Reclaim { .. }, FsEventV::OpErr) => UnmountPhaseV::Failed {
            error: RamdiskError::CleanupFailure,
        },
        (p, _) => p,
    }
}

/// Maps the current unmount phase to what the driver must do next.
pub fn unmount_directive(phase: &UnmountPhase) -> (d: Directive)
    ensures
        d@ == unmount_directive_of(phase@),
{
    match phase {
        UnmountPhase::Start => Directive::Probe,
        UnmountPhase::Unlink { .. } => Directive::Do(FsOp::UnlinkTarget),
        UnmountPhase::CopyBack { store } => Directive::Do(
            FsOp::CopyStoreToTarget { store: store.clone() },
        ),
        UnmountPhase::Reclaim { store, .. } => Directive::Do(
            FsOp::RemoveStoreDir { store: store.clone() },
        ),
        UnmountPhase::Done => Directive::Stop { error: Option::None },
        UnmountPhase::Failed { error } => Directive::Stop { error: Option::Some(*error) },
    }
}

/// Advances the unmount machine by one step.
pub fn unmount_step(sess: &UnmountSession, phase: UnmountPhase, ev: FsEvent) -> (r: UnmountPhase)
    ensures
        r@ == unmount_step_of(sess@, phase@, ev@),
{
    match (phase, ev) {
        (UnmountPhase::Start, FsEvent::Status(st)) => if !st.exists {
            UnmountPhase::Failed { error: RamdiskError::TargetNotFound }
        } else {
            match classify(&st, sess.root.as_str()) {
                LinkState::Unlinked => UnmountPhase::Failed { error: RamdiskError::NotASymlink },
                LinkState::LinkedToVolatile(dest) => UnmountPhase::Unlink { store: dest },
                LinkState::StaleVolatileLink => UnmountPhase::Failed {
                    error: RamdiskError::TargetNotFound,
                },
                LinkState::LinkedElsewhere => UnmountPhase::Failed {
                    error: RamdiskError::NotAVolatileLink,
                },
            }
        },
        (UnmountPhase::Unlink { store }, FsEvent::OpOk) => if sess.copy_back {
            UnmountPhase::CopyBack { store }
        } else {
            UnmountPhase::Reclaim { store, copy_failed: false }
        },
        (UnmountPhase::Unlink { .. }, FsEvent::OpErr) => UnmountPhase::Failed {
            error: RamdiskError::CleanupFailure,
        },
        (UnmountPhase::CopyBack { store }, FsEvent::OpOk) => UnmountPhase::Reclaim {
            store,
            copy_failed: false,
        },
        (UnmountPhase::CopyBack { store }, FsEvent::OpErr) => UnmountPhase::Reclaim {
            store,
            copy_failed: true,
        },
        (UnmountPhase::Reclaim { copy_failed, .. }, FsEvent::OpOk) => if copy_failed {
            UnmountPhase::Failed { error: RamdiskError::TransferFailure }
        } else {
            UnmountPhase::Done
        },
        (UnmountPhase::Reclaim { .. }, FsEvent::OpErr) => UnmountPhase::Failed {
            error: RamdiskError::CleanupFailure,
        },
        (p, _) => p,
    }
}

} // verus!
