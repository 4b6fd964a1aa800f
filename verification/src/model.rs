//! An abstract filesystem, as far as this system reads and writes one.
//!
//! The model tracks the node at the target path and the set of directory
//! trees existing elsewhere, each with its content — file bodies and
//! modification times, which the copy primitive preserves exactly. The
//! orchestrators' guarantees are stated and proved over runs of the step
//! machines against this model: the probe is answered faithfully from the
//! model, each operation the machine orders is applied to it, and a chosen
//! outcome decides whether the operation succeeded (a failed operation
//! leaves the model as it was).

use vstd::prelude::*;

use crate::mount::{mount_directive_of, mount_step_of, MountPhaseV, MountSessionV};
use crate::ops::{DirectiveV, FsEventV, FsOpV};
use crate::remount::{remount_directive_of, remount_step_of, RemountPhaseV, RemountSessionV};
use crate::status::TargetStatusV;
use crate::unmount::{unmount_directive_of, unmount_step_of, UnmountPhaseV, UnmountSessionV};

verus! {

/// One file: its bytes and its modification time.
pub struct FileV {
    pub bytes: Seq<u8>,
    pub mtime: int,
}

/// A directory tree's content: the files under it, by relative path.
pub struct ContentV {
    pub files: Map<Seq<char>, FileV>,
}

/// The content of a freshly created, empty directory.
pub open spec fn empty_content() -> ContentV {
    ContentV { files: Map::empty() }
}

/// What stands at the target path.
pub enum TargetNodeV {
    /// Nothing at all.
    Missing,
    /// A plain directory tree with real content.
    Real(ContentV),
    /// A symbolic link to `dest`.
    Linked(Seq<char>),
}

/// The filesystem as this system sees it: the node at the target path, and
/// every other existing directory tree by absolute path — backing stores
/// under the volatile root among them.
pub struct FsModelV {
    pub target: TargetNodeV,
    pub dirs: Map<Seq<char>, ContentV>,
}

/// The faithful answer to a probe of the target path: `exists` follows one
/// level of symbolic indirection, `link_dest` reads the link.
pub open spec fn status_of(fs: FsModelV) -> TargetStatusV {
    match fs.target {
        TargetNodeV::Missing => TargetStatusV { exists: false, link_dest: Option::None },
        TargetNodeV::Real(_) => TargetStatusV { exists: true, link_dest: Option::None },
        TargetNodeV::Linked(dest) => TargetStatusV {
            exists: fs.dirs.contains_key(dest),
            link_dest: Option::Some(dest),
        },
    }
}

/// The content a copy out of the target reads: the target's own tree, or
/// the linked tree when the target is a link to an existing directory.
pub open spec fn target_content(fs: FsModelV) -> ContentV {
    match fs.target {
        TargetNodeV::Real(c) => c,
        TargetNodeV::Linked(dest) => if fs.dirs.contains_key(dest) {
            fs.dirs[dest]
        } else {
            empty_content()
        },
        TargetNodeV::Missing => empty_content(),
    }
}

/// How one successful operation changes the filesystem; a failed operation
/// (`ok` false) changes nothing.
pub open spec fn apply_op(fs: FsModelV, op: FsOpV, ok: bool) -> FsModelV {
    if !ok {
        fs
    } else {
        match op {
            FsOpV::UnlinkTarget => FsModelV { target: TargetNodeV::Missing, dirs: fs.dirs },
            FsOpV::CreateStoreDir { store } => FsModelV {
                target: fs.target,
                dirs: fs.dirs.insert(store, empty_content()),
            },
            FsOpV::CopyTargetToStore { store } => FsModelV {
                target: fs.target,
                dirs: fs.dirs.insert(store, target_content(fs)),
            },
            FsOpV::RemoveTargetTree => FsModelV { target: TargetNodeV::Missing, dirs: fs.dirs },
            FsOpV::RemoveStoreDir { store } => FsModelV {
                target: fs.target,
                dirs: fs.dirs.remove(store),
            },
            FsOpV::LinkTargetToStore { store } => FsModelV {
                target: TargetNodeV::Linked(store),
                dirs: fs.dirs,
            },
            FsOpV::CopyStoreToTarget { store } => if fs.dirs.contains_key(store) {
                FsModelV { target: TargetNodeV::Real(fs.dirs[store]), dirs: fs.dirs }
            } else {
                fs
            },
        }
    }
}

/// Which operations of a mount run succeed. The flags are read by the phase
/// that orders the operation; an all-true value is a run where the
/// filesystem cooperates throughout.
pub struct MountOutcomes {
    pub unlink_stale_ok: bool,
    pub create_store_ok: bool,
    pub copy_ok: bool,
    pub clear_target_ok: bool,
    pub link_ok: bool,
    pub rollback_ok: bool,
}

/// A mount run in which every operation succeeds.
pub open spec fn mount_all_ok() -> MountOutcomes {
    MountOutcomes {
        unlink_stale_ok: true,
        create_store_ok: true,
        copy_ok: true,
        clear_target_ok: true,
        link_ok: true,
        rollback_ok: true,
    }
}

/// Whether the operation the given mount phase orders succeeds.
pub open spec fn mount_outcome_ok(phase: MountPhaseV, outs: MountOutcomes) -> bool {
    match phase {
        MountPhaseV::ClearStale => outs.unlink_stale_ok,
        MountPhaseV::Alloc { .. } => outs.create_store_ok,
        MountPhaseV::CopyToStore { .. } => outs.copy_ok,
        MountPhaseV::ClearTarget { .. } => outs.clear_target_ok,
        MountPhaseV::MakeLink { .. } => outs.link_ok,
        MountPhaseV::Rollback { .. } => outs.rollback_ok,
        _ => true,
    }
}

/// The event a faithful driver answers the given mount phase with.
pub open spec fn mount_event_for(fs: FsModelV, phase: MountPhaseV, outs: MountOutcomes) -> FsEventV {
    match mount_directive_of(phase) {
        DirectiveV::Probe => FsEventV::Status(status_of(fs)),
        DirectiveV::Do(_) => if mount_outcome_ok(phase, outs) {
            FsEventV::OpOk
        } else {
            FsEventV::OpErr
        },
        DirectiveV::Stop { .. } => FsEventV::OpOk,
    }
}

/// How far a mount phase still has to go; terminal phases are at zero.
pub open spec fn mount_rank(phase: MountPhaseV) -> nat {
    match phase {
        MountPhaseV::Start => 7,
        MountPhaseV::ClearStale => 6,
        MountPhaseV::Alloc { .. } => 5,
        MountPhaseV::CopyToStore { .. } => 4,
        MountPhaseV::ClearTarget { .. } => 3,
        MountPhaseV::MakeLink { .. } => 2,
        MountPhaseV::Rollback { .. } => 1,
        MountPhaseV::Done { .. } => 0,
        MountPhaseV::Failed { .. } => 0,
    }
}

/// Runs the mount machine from `phase` to a terminal phase against the
/// model: the probe is answered from `fs`, every ordered operation is
/// applied with the outcome `outs` assigns it, and `id` names any backing
/// store the run allocates.
pub open spec fn run_mount_from(
    sess: MountSessionV,
    fs: FsModelV,
    phase: MountPhaseV,
    id: Seq<char>,
    outs: MountOutcomes,
) -> (FsModelV, MountPhaseV)
    decreases mount_rank(phase),
{
    if mount_rank(phase) == 0 {
        (fs, phase)
    } else {
        let ev = mount_event_for(fs, phase, outs);
        let fs2 = match mount_directive_of(phase) {
            DirectiveV::Do(op) => apply_op(fs, op, mount_outcome_ok(phase, outs)),
            _ => fs,
        };
        let phase2 = mount_step_of(sess, phase, ev, id);
        if mount_rank(phase2) < mount_rank(phase) {
            run_mount_from(sess, fs2, phase2, id, outs)
        } else {
            (fs2, phase2)
        }
    }
}

/// A whole mount run, from the probe.
pub open spec fn run_mount(
    sess: MountSessionV,
    fs: FsModelV,
    id: Seq<char>,
    outs: MountOutcomes,
) -> (FsModelV, MountPhaseV) {
    run_mount_from(sess, fs, MountPhaseV::Start, id, outs)
}

/// Which operations of an unmount run succeed.
pub struct UnmountOutcomes {
    pub unlink_ok: bool,
    pub copy_back_ok: bool,
    pub reclaim_ok: bool,
}

/// An unmount run in which every operation succeeds.
pub open spec fn unmount_all_ok() -> UnmountOutcomes {
    UnmountOutcomes { unlink_ok: true, copy_back_ok: true, reclaim_ok: true }
}

/// Whether the operation the given unmount phase orders succeeds.
pub open spec fn unmount_outcome_ok(phase: UnmountPhaseV, outs: UnmountOutcomes) -> bool {
    match phase {
        UnmountPhaseV::Unlink { .. } => outs.unlink_ok,
        UnmountPhaseV::CopyBack { .. } => outs.copy_back_ok,
        UnmountPhaseV::Reclaim { .. } => outs.reclaim_ok,
        _ => true,
    }
}

/// The event a faithful driver answers the given unmount phase with.
pub open spec fn unmount_event_for(
    fs: FsModelV,
    phase: UnmountPhaseV,
    outs: UnmountOutcomes,
) -> FsEventV {
    match unmount_directive_of(phase) {
        DirectiveV::Probe => FsEventV::Status(status_of(fs)),
        DirectiveV::Do(_) => if unmount_outcome_ok(phase, outs) {
            FsEventV::OpOk
        } else {
            FsEventV::OpErr
        },
        DirectiveV::Stop { .. } => FsEventV::OpOk,
    }
}

/// How far an unmount phase still has to go; terminal phases are at zero.
pub open spec fn unmount_rank(phase: UnmountPhaseV) -> nat {
    match phase {
        UnmountPhaseV::Start => 4,
        UnmountPhaseV::Unlink { .. } => 3,
        UnmountPhaseV::CopyBack { .. } => 2,
        UnmountPhaseV::Reclaim { .. } => 1,
        UnmountPhaseV::Done => 0,
        UnmountPhaseV::Failed { .. } => 0,
    }
}

/// Runs the unmount machine from `phase` to a terminal phase against the
/// model, like [`run_mount_from`].
pub open spec fn run_unmount_from(
    sess: UnmountSessionV,
    fs: FsModelV,
    phase: UnmountPhaseV,
    outs: UnmountOutcomes,
) -> (FsModelV, UnmountPhaseV)
    decreases unmount_rank(phase),
{
    if unmount_rank(phase) == 0 {
        (fs, phase)
    } else {
        let ev = unmount_event_for(fs, phase, outs);
        let fs2 = match unmount_directive_of(phase) {
            DirectiveV::Do(op) => apply_op(fs, op, unmount_outcome_ok(phase, outs)),
            _ => fs,
        };
        let phase2 = unmount_step_of(sess, phase, ev);
        if unmount_rank(phase2) < unmount_rank(phase) {
            run_unmount_from(sess, fs2, phase2, outs)
        } else {
            (fs2, phase2)
        }
    }
}

/// A whole unmount run, from the probe.
pub open spec fn run_unmount(
    sess: UnmountSessionV,
    fs: FsModelV,
    outs: UnmountOutcomes,
) -> (FsModelV, UnmountPhaseV) {
    run_unmount_from(sess, fs, UnmountPhaseV::Start, outs)
}

/// Whether the operation the given remount phase orders succeeds: the
/// running half's outcome.
pub open spec fn remount_outcome_ok(
    phase: RemountPhaseV,
    uouts: UnmountOutcomes,
    mouts: MountOutcomes,
) -> bool {
    match phase {
        RemountPhaseV::Unmounting(p) => unmount_outcome_ok(p, uouts),
        RemountPhaseV::Mounting(p) => mount_outcome_ok(p, mouts),
        _ => true,
    }
}

/// The event a faithful driver answers the given remount phase with.
pub open spec fn remount_event_for(
    fs: FsModelV,
    phase: RemountPhaseV,
    uouts: UnmountOutcomes,
    mouts: MountOutcomes,
) -> FsEventV {
    match remount_directive_of(phase) {
        DirectiveV::Probe => FsEventV::Status(status_of(fs)),
        DirectiveV::Do(_) => if remount_outcome_ok(phase, uouts, mouts) {
            FsEventV::OpOk
        } else {
            FsEventV::OpErr
        },
        DirectiveV::Stop { .. } => FsEventV::OpOk,
    }
}

/// How far a remount phase still has to go; the unmount half ranks above
/// the whole mount half, which follows it.
pub open spec fn remount_rank(phase: RemountPhaseV) -> nat {
    match phase {
        RemountPhaseV::Unmounting(p) => 9 + unmount_rank(p),
        RemountPhaseV::Mounting(p) => 1 + mount_rank(p),
        RemountPhaseV::Done { .. } => 0,
        RemountPhaseV::Failed { .. } => 0,
    }
}

/// Runs the remount machine from `phase` to a terminal phase against the
/// model, like [`run_mount_from`].
pub open spec fn run_remount_from(
    sess: RemountSessionV,
    fs: FsModelV,
    phase: RemountPhaseV,
    id: Seq<char>,
    uouts: UnmountOutcomes,
    mouts: MountOutcomes,
) -> (FsModelV, RemountPhaseV)
    decreases remount_rank(phase),
{
    if remount_rank(phase) == 0 {
        (fs, phase)
    } else {
        let ev = remount_event_for(fs, phase, uouts, mouts);
        let fs2 = match remount_directive_of(phase) {
            DirectiveV::Do(op) => apply_op(fs, op, remount_outcome_ok(phase, uouts, mouts)),
            _ => fs,
        };
        let phase2 = remount_step_of(sess, phase, ev, id);
        if remount_rank(phase2) < remount_rank(phase) {
            run_remount_from(sess, fs2, phase2, id, uouts, mouts)
        } else {
            (fs2, phase2)
        }
    }
}

/// A whole remount run, from the unmount half's probe.
pub open spec fn run_remount(
    sess: RemountSessionV,
    fs: FsModelV,
    id: Seq<char>,
    uouts: UnmountOutcomes,
    mouts: MountOutcomes,
) -> (FsModelV, RemountPhaseV) {
    run_remount_from(sess, fs, RemountPhaseV::Unmounting(UnmountPhaseV::Start), id, uouts, mouts)
}

} // verus!
