//! The mount orchestrator.
//!
//! Mounting establishes the redirect: afterwards the target path is a
//! symbolic link to a freshly allocated backing-store directory under the
//! volatile root. The orchestrator is a step machine: [`mount_directive`]
//! says what the driver must do for the current phase, the driver answers
//! with an event, and [`mount_step`] moves to the next phase. The machine
//! reuses an existing redirect, heals a stale link, optionally preserves the
//! target's content, and rolls the backing store back on any later failure.

use vstd::prelude::*;
use vstd::string::*;

use crate::config::MountConfig;
use crate::error::RamdiskError;
use crate::ids::fresh_id;
use crate::ops::{Directive, DirectiveV, FsEvent, FsEventV, FsOp, FsOpV};
use crate::paths::{resolve_target, resolved, store_path, store_path_of};
use crate::status::{classify, link_state_of, LinkState, LinkStateV};

verus! {

/// What one mount operation works on: the volatile root, the resolved
/// target path, and whether existing content is to be preserved.
#[derive(Debug, Clone, PartialEq)]
pub struct MountSession {
    pub root: String,
    pub target: String,
    pub copy_to: bool,
}

/// The mathematical form of a [`MountSession`].
pub struct MountSessionV {
    pub root: Seq<char>,
    pub target: Seq<char>,
    pub copy_to: bool,
}

impl View for MountSession {
    type V = MountSessionV;

    open spec fn view(&self) -> MountSessionV {
        MountSessionV { root: self.root@, target: self.target@, copy_to: self.copy_to }
    }
}

impl MountSession {
    /// Opens a mount session: resolves the configured target against the
    /// working directory and normalizes it.
    pub fn new(root: &str, cwd: &str, config: &MountConfig) -> (s: Self)
        ensures
            s@.root == root@,
            s@.target == resolved(cwd@, config.target@),
            s@.copy_to == config.copy_to,
    {
        MountSession {
            root: String::from_str(root),
            target: resolve_target(cwd, config.target.as_str()),
            copy_to: config.copy_to,
        }
    }
}

/// Where a mount operation stands. Each non-terminal phase waits for the
/// driver's answer to the directive [`mount_directive`] maps it to.
#[derive(Debug, Clone, PartialEq)]
pub enum MountPhase {
    /// Waiting for the probe of the target path.
    Start,
    /// Removing a dangling link into the volatile root before reallocating.
    ClearStale,
    /// Creating the backing-store directory; `target_real` records whether
    /// the target path held content at probe time.
    Alloc { store: String, target_real: bool },
    /// Copying the target's content into the new backing store.
    CopyToStore { store: String },
    /// Removing the original target path.
    ClearTarget { store: String },
    /// Creating the symbolic link from target to backing store.
    MakeLink { store: String },
    /// A step failed after the backing store was created: removing the
    /// store again before reporting `error`.
    Rollback { store: String, error: RamdiskError },
    /// The target is a symbolic link to an existing backing store under the
    /// volatile root; `reused` tells whether it was there before this run.
    Done { store: String, reused: bool },
    /// The operation failed with `error`; no backing store created by this
    /// run is left behind, unless removing it failed too.
    Failed { error: RamdiskError },
}

/// The mathematical form of a [`MountPhase`].
pub enum MountPhaseV {
    Start,
    ClearStale,
    Alloc { store: Seq<char>, target_real: bool },
    CopyToStore { store: Seq<char> },
    ClearTarget { store: Seq<char> },
    MakeLink { store: Seq<char> },
    Rollback { store: Seq<char>, error: RamdiskError },
    Done { store: Seq<char>, reused: bool },
    Failed { error: RamdiskError },
}

impl View for MountPhase {
    type V = MountPhaseV;

    open spec fn view(&self) -> MountPhaseV {
        match self {
            MountPhase::Start => MountPhaseV::Start,
            MountPhase::ClearStale => MountPhaseV::ClearStale,
            MountPhase::Alloc { store, target_real } => MountPhaseV::Alloc {
                store: store@,
                target_real: *target_real,
            },
            MountPhase::CopyToStore { store } => MountPhaseV::CopyToStore { store: store@ },
            MountPhase::ClearTarget { store } => MountPhaseV::ClearTarget { store: store@ },
            MountPhase::MakeLink { store } => MountPhaseV::MakeLink { store: store@ },
            MountPhase::Rollback { store, error } => MountPhaseV::Rollback {
                store: store@,
                error: *error,
            },
            MountPhase::Done { store, reused } => MountPhaseV::Done {
                store: store@,
                reused: *reused,
            },
            MountPhase::Failed { error } => MountPhaseV::Failed { error: *error },
        }
    }
}

/// The directive each mount phase stands for.
pub open spec fn mount_directive_of(phase: MountPhaseV) -> DirectiveV {
    match phase {
        MountPhaseV::Start => DirectiveV::Probe,
        MountPhaseV::ClearStale => DirectiveV::Do(FsOpV::UnlinkTarget),
        MountPhaseV::Alloc { store, .. } => DirectiveV::Do(FsOpV::CreateStoreDir { store }),
        MountPhaseV::CopyToStore { store } => DirectiveV::Do(FsOpV::CopyTargetToStore { store }),
        MountPhaseV::ClearTarget { .. } => DirectiveV::Do(FsOpV::RemoveTargetTree),
        MountPhaseV::MakeLink { store } => DirectiveV::Do(FsOpV::LinkTargetToStore { store }),
        MountPhaseV::Rollback { store, .. } => DirectiveV::Do(FsOpV::RemoveStoreDir { store }),
        MountPhaseV::Done { .. } => DirectiveV::Stop { error: Option::None },
        MountPhaseV::Failed { error } => DirectiveV::Stop { error: Option::Some(error) },
    }
}

/// The mount transition: where phase `phase` moves on event `ev`, when `id`
/// is the identifier a fresh backing store would be named after. An event
/// that does not answer the phase's directive leaves the phase unchanged.
pub open spec fn mount_step_of(
    sess: MountSessionV,
    phase: MountPhaseV,
    ev: FsEventV,
    id: Seq<char>,
) -> MountPhaseV {
    match (phase, ev) {
        (MountPhaseV::Start, FsEventV::Status(st)) => match link_state_of(st, sess.root) {
            LinkStateV::LinkedToVolatile(dest) => MountPhaseV::Done { store: dest, reused: true },
            LinkStateV::StaleVolatileLink => MountPhaseV::ClearStale,
            LinkStateV::Unlinked | LinkStateV::LinkedElsewhere => MountPhaseV::Alloc {
                store: store_path_of(sess.root, id),
                target_real: st.exists,
            },
        },
        (MountPhaseV::ClearStale, FsEventV::OpOk) => MountPhaseV::Alloc {
            store: store_path_of(sess.root, id),
            target_real: false,
        },
        (MountPhaseV::ClearStale, FsEventV::OpErr) => MountPhaseV::Failed {
            error: RamdiskError::CleanupFailure,
        },
        (MountPhaseV::Alloc { store, target_real }, FsEventV::OpOk) => if target_real
            && sess.copy_to {
            MountPhaseV::CopyToStore { store }
        } else if target_real {
            MountPhaseV::ClearTarget { store }
        } else {
            MountPhaseV::MakeLink { store }
        },
        (MountPhaseV::Alloc { .. }, FsEventV::OpErr) => MountPhaseV::Failed {
            error: RamdiskError::AllocationFailure,
        },
        (MountPhaseV::CopyToStore { store }, FsEventV::OpOk) => MountPhaseV::ClearTarget { store },
        (MountPhaseV::CopyToStore { store }, FsEventV::OpErr) => MountPhaseV::Rollback {
            store,
            error: RamdiskError::TransferFailure,
        },
        (MountPhaseV::ClearTarget { store }, FsEventV::OpOk) => MountPhaseV::MakeLink { store },
        (MountPhaseV::ClearTarget { store }, FsEventV::OpErr) => MountPhaseV::Rollback {
            store,
            error: RamdiskError::CleanupFailure,
        },
        (MountPhaseV::MakeLink { store }, FsEventV::OpOk) => MountPhaseV::Done {
            store,
            reused: false,
        },
        (MountPhaseV::MakeLink { store }, FsEventV::OpErr) => MountPhaseV::Rollback {
            store,
            error: RamdiskError::LinkFailure,
        },
        (MountPhaseV::Rollback { error, .. }, FsEventV::OpOk) => MountPhaseV::Failed { error },
        (MountPhaseV::Rollback { .. }, FsEventV::OpErr) => MountPhaseV::Failed {
            error: RamdiskError::CleanupFailure,
        },
        (p, _) => p,
    }
}

/// Maps the current mount phase to what the driver must do next.
pub fn mount_directive(phase: &MountPhase) -> (d: Directive)
    ensures
        d@ == mount_directive_of(phase@),
{
    match phase {
        MountPhase::Start => Directive::Probe,
        MountPhase::ClearStale => Directive::Do(FsOp::UnlinkTarget),
        MountPhase::Alloc { store, .. } => Directive::Do(
            FsOp::CreateStoreDir { store: store.clone() },
        ),
        MountPhase::CopyToStore { store } => Directive::Do(
            FsOp::CopyTargetToStore { store: store.clone() },
        ),
        MountPhase::ClearTarget { .. } => Directive::Do(FsOp::RemoveTargetTree),
        MountPhase::MakeLink { store } => Directive::Do(
            FsOp::LinkTargetToStore { store: store.clone() },
        ),
        MountPhase::Rollback { store, .. } => Directive::Do(
            FsOp::RemoveStoreDir { store: store.clone() },
        ),
        MountPhase::Done { .. } => Directive::Stop { error: Option::None },
        MountPhase::Failed { error } => Directive::Stop { error: Option::Some(*error) },
    }
}

/// Advances the mount machine by one step, naming a fresh backing store
/// after the given identifier when one is allocated.
pub fn mount_step_with(sess: &MountSession, phase: MountPhase, ev: FsEvent, id: &str) -> (r:
    MountPhase)
    ensures
        r@ == mount_step_of(sess@, phase@, ev@, id@),
{
    match (phase, ev) {
        (MountPhase::Start, FsEvent::Status(st)) => match classify(&st, sess.root.as_str()) {
            LinkState::LinkedToVolatile(dest) => MountPhase::Done { store: dest, reused: true },
            LinkState::StaleVolatileLink => MountPhase::ClearStale,
            LinkState::Unlinked | LinkState::LinkedElsewhere => MountPhase::Alloc {
                store: store_path(sess.root.as_str(), id),
                target_real: st.exists,
            },
        },
        (MountPhase::ClearStale, FsEvent::OpOk) => MountPhase::Alloc {
            store: store_path(sess.root.as_str(), id),
            target_real: false,
        },
        (MountPhase::ClearStale, FsEvent::OpErr) => MountPhase::Failed {
            error: RamdiskError::CleanupFailure,
        },
        (MountPhase::Alloc { store, target_real }, FsEvent::OpOk) => if target_real
            && sess.copy_to {
            MountPhase::CopyToStore { store }
        } else if target_real {
            MountPhase::ClearTarget { store }
        } else {
            MountPhase::MakeLink { store }
        },
        (MountPhase::Alloc { .. }, FsEvent::OpErr) => MountPhase::Failed {
            error: RamdiskError::AllocationFailure,
        },
        (MountPhase::CopyToStore { store }, FsEvent::OpOk) => MountPhase::ClearTarget { store },
        (MountPhase::CopyToStore { store }, FsEvent::OpErr) => MountPhase::Rollback {
            store,
            error: RamdiskError::TransferFailure,
        },
        (MountPhase::ClearTarget { store }, FsEvent::OpOk) => MountPhase::MakeLink { store },
        (MountPhase::ClearTarget { store }, FsEvent::OpErr) => MountPhase::Rollback {
            store,
            error: RamdiskError::CleanupFailure,
        },
        (MountPhase::MakeLink { store }, FsEvent::OpOk) => MountPhase::Done {
            store,
            reused: false,
        },
        (MountPhase::MakeLink { store }, FsEvent::OpErr) => MountPhase::Rollback {
            store,
            error: RamdiskError::LinkFailure,
        },
        (MountPhase::Rollback { error, .. }, FsEvent::OpOk) => MountPhase::Failed { error },
        (MountPhase::Rollback { .. }, FsEvent::OpErr) => MountPhase::Failed {
            error: RamdiskError::CleanupFailure,
        },
        (p, _) => p,
    }
}

/// Advances the mount machine by one step, drawing a random identifier for
/// the backing store a transition out of `Start` or `ClearStale` allocates.
pub fn mount_step(sess: &MountSession, phase: MountPhase, ev: FsEvent) -> (r: MountPhase)
    ensures
        exists|id: Seq<char>| r@ == mount_step_of(sess@, phase@, ev@, id),
{
    let id = fresh_id();
    let r = mount_step_with(sess, phase, ev, id.as_str());
    proof {
        assert(r@ == mount_step_of(sess@, phase@, ev@, id@));
    }
    r
}

} // verus!
