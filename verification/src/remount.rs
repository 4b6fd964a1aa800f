//! The remount orchestrator.
//!
//! A remount is the pure composition of an unmount and a mount over the
//! same target, both without copy flags. If the unmount fails, the mount is
//! never attempted and the error propagates unchanged.

use vstd::prelude::*;
use vstd::string::*;

use crate::config::RemountConfig;
use crate::error::RamdiskError;
use crate::ids::fresh_id;
use crate::mount::{
    mount_directive, mount_directive_of, mount_step_of, mount_step_with, MountPhase, MountPhaseV,
    MountSession, MountSessionV,
};
use crate::ops::{Directive, DirectiveV, FsEvent, FsEventV};
use crate::paths::{resolve_target, resolved};
use crate::unmount::{
    unmount_directive, unmount_directive_of, unmount_step, unmount_step_of, UnmountPhase,
    UnmountPhaseV, UnmountSession, UnmountSessionV,
};

verus! {

/// What one remount operation works on: the volatile root and the resolved
/// target path. Neither half copies content.
#[derive(Debug, Clone, PartialEq)]
pub struct RemountSession {
    pub root: String,
    pub target: String,
}

/// The mathematical form of a [`RemountSession`].
pub struct RemountSessionV {
    pub root: Seq<char>,
    pub target: Seq<char>,
}

impl View for RemountSession {
    type V = RemountSessionV;

    open spec fn view(&self) -> RemountSessionV {
        RemountSessionV { root: self.root@, target: self.target@ }
    }
}

/// The unmount half of a remount: same root and target, no copy back.
pub open spec fn unmount_half(sess: RemountSessionV) -> UnmountSessionV {
    UnmountSessionV { root: sess.root, target: sess.target, copy_back: false }
}

/// The mount half of a remount: same root and target, no copy in.
pub open spec fn mount_half(sess: RemountSessionV) -> MountSessionV {
    MountSessionV { root: sess.root, target: sess.target, copy_to: false }
}

impl RemountSession {
    /// Opens a remount session: resolves the configured target against the
    /// working directory and normalizes it.
    pub fn new(root: &str, cwd: &str, config: &RemountConfig) -> (s: Self)
        ensures
            s@.root == root@,
            s@.target == resolved(cwd@, config.target@),
    {
        RemountSession {
            root: String::from_str(root),
            target: resolve_target(cwd, config.target.as_str()),
        }
    }
}

/// Where a remount operation stands: inside its unmount half, inside its
/// mount half, or finished.
#[derive(Debug, Clone, PartialEq)]
pub enum RemountPhase {
    /// Running the unmount half.
    Unmounting(UnmountPhase),
    /// The unmount half succeeded; running the mount half.
    Mounting(MountPhase),
    /// Both halves succeeded; the target is linked to `store`.
    Done { store: String },
    /// One half failed with `error`; a failed unmount half leaves the mount
    /// half unattempted.
    Failed { error: RamdiskError },
}

/// The mathematical form of a [`RemountPhase`].
pub enum RemountPhaseV {
    Unmounting(UnmountPhaseV),
    Mounting(MountPhaseV),
    Done { store: Seq<char> },
    Failed { error: RamdiskError },
}

impl View for RemountPhase {
    type V = RemountPhaseV;

    open spec fn view(&self) -> RemountPhaseV {
        match self {
            RemountPhase::Unmounting(p) => RemountPhaseV::Unmounting(p@),
            RemountPhase::Mounting(p) => RemountPhaseV::Mounting(p@),
            RemountPhase::Done { store } => RemountPhaseV::Done { store: store@ },
            RemountPhase::Failed { error } => RemountPhaseV::Failed { error: *error },
        }
    }
}

/// The directive each remount phase stands for: its half's own directive.
pub open spec fn remount_directive_of(phase: RemountPhaseV) -> DirectiveV {
    match phase {
        RemountPhaseV::Unmounting(p) => unmount_directive_of(p),
        RemountPhaseV::Mounting(p) => mount_directive_of(p),
        RemountPhaseV::Done { .. } => DirectiveV::Stop { error: Option::None },
        RemountPhaseV::Failed { error } => DirectiveV::Stop { error: Option::Some(error) },
    }
}

/// The remount transition: the running half takes the step; an unmount half
/// that finishes hands over to the mount half, and either half's failure
/// ends the remount with that error.
pub open spec fn remount_step_of(
    sess: RemountSessionV,
    phase: RemountPhaseV,
    ev: FsEventV,
    id: Seq<char>,
) -> RemountPhaseV {
    match phase {
        RemountPhaseV::Unmounting(p) => {
            match unmount_step_of(unmount_half(sess), p, ev) {
                UnmountPhaseV::Done => RemountPhaseV::Mounting(MountPhaseV::Start),
                UnmountPhaseV::Failed { error } => RemountPhaseV::Failed { error },
                p2 => RemountPhaseV::Unmounting(p2),
            }
        },
        RemountPhaseV::Mounting(p) => {
            match mount_step_of(mount_half(sess), p, ev, id) {
                MountPhaseV::Done { store, .. } => RemountPhaseV::Done { store },
                MountPhaseV::Failed { error } => RemountPhaseV::Failed { error },
                p2 => RemountPhaseV::Mounting(p2),
            }
        },
        p => p,
    }
}

/// Maps the current remount phase to what the driver must do next.
pub fn remount_directive(phase: &RemountPhase) -> (d: Directive)
    ensures
        d@ == remount_directive_of(phase@),
{
    match phase {
        RemountPhase::Unmounting(p) => unmount_directive(p),
        RemountPhase::Mounting(p) => mount_directive(p),
        RemountPhase::Done { .. } => Directive::Stop { error: Option::None },
        RemountPhase::Failed { error } => Directive::Stop { error: Option::Some(*error) },
    }
}

/// Advances the remount machine by one step, naming a fresh backing store
/// after the given identifier when the mount half allocates one.
pub fn remount_step_with(sess: &RemountSession, phase: RemountPhase, ev: FsEvent, id: &str) -> (r:
    RemountPhase)
    ensures
        r@ == remount_step_of(sess@, phase@, ev@, id@),
{
    match phase {
        RemountPhase::Unmounting(p) => {
            let half = UnmountSession {
                root: sess.root.clone(),
                target: sess.target.clone(),
                copy_back: false,
            };
            match unmount_step(&half, p, ev) {
                UnmountPhase::Done => RemountPhase::Mounting(MountPhase::Start),
                UnmountPhase::Failed { error } => RemountPhase::Failed { error },
                p2 => RemountPhase::Unmounting(p2),
            }
        },
        RemountPhase::Mounting(p) => {
            let half = MountSession {
                root: sess.root.clone(),
                target: sess.target.clone(),
                copy_to: false,
            };
            match mount_step_with(&half, p, ev, id) {
                MountPhase::Done { store, .. } => RemountPhase::Done { store },
                MountPhase::Failed { error } => RemountPhase::Failed { error },
                p2 => RemountPhase::Mounting(p2),
            }
        },
        p => p,
    }
}

/// Advances the remount machine by one step, drawing a random identifier
/// for the backing store the mount half may allocate.
pub fn remount_step(sess: &RemountSession, phase: RemountPhase, ev: FsEvent) -> (r: RemountPhase)
    ensures
        exists|id: Seq<char>| r@ == remount_step_of(sess@, phase@, ev@, id),
{
    let id = fresh_id();
    let r = remount_step_with(sess, phase, ev, id.as_str());
    proof {
        assert(r@ == remount_step_of(sess@, phase@, ev@, id@));
    }
    r
}

} // verus!
