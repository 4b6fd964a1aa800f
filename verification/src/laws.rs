//! The orchestrators' guarantees, proved over runs against the model.
//!
//! Each lemma quantifies over a class of starting filesystems and outcome
//! choices, runs a machine against the model of [`crate::model`], and pins
//! the terminal phase and the final filesystem down.

use vstd::prelude::*;

use crate::error::RamdiskError;
use crate::model::{
    mount_all_ok, run_mount, run_mount_from, run_remount, run_remount_from, run_unmount,
    run_unmount_from, unmount_all_ok, ContentV, FsModelV, MountOutcomes, TargetNodeV,
    UnmountOutcomes,
};
use crate::mount::{MountPhaseV, MountSessionV};
use crate::paths::{lemma_store_path_lies_under, lies_under, store_path_of};
use crate::remount::{RemountPhaseV, RemountSessionV};
use crate::unmount::{UnmountPhaseV, UnmountSessionV};

verus! {

/// Whenever a mount run ends in `Done`, the target path is a symbolic link
/// to an existing backing-store directory under the volatile root — for
/// every starting filesystem and every choice of outcomes.
pub proof fn lemma_mount_establishes_redirect(
    sess: MountSessionV,
    fs: FsModelV,
    id: Seq<char>,
    outs: MountOutcomes,
)
    ensures
        ({
            let (fs2, ph) = run_mount(sess, fs, id, outs);
            ph matches MountPhaseV::Done { store, .. } ==> {
                &&& fs2.target == TargetNodeV::Linked(store)
                &&& lies_under(sess.root, store)
                &&& fs2.dirs.contains_key(store)
            }
        }),
{
    reveal_with_fuel(run_mount_from, 10);
    lemma_store_path_lies_under(sess.root, id);
}

/// Whenever a mount run fails and its rollback removal succeeds, the
/// backing store this run would have allocated does not exist afterwards —
/// a failed mount never leaves its own store behind.
pub proof fn lemma_mount_failure_reclaims_store(
    sess: MountSessionV,
    fs: FsModelV,
    id: Seq<char>,
    outs: MountOutcomes,
)
    requires
        outs.rollback_ok,
        !fs.dirs.contains_key(store_path_of(sess.root, id)),
    ensures
        ({
            let (fs2, ph) = run_mount(sess, fs, id, outs);
            ph is Failed ==> !fs2.dirs.contains_key(store_path_of(sess.root, id))
        }),
{
    reveal_with_fuel(run_mount_from, 10);
}

/// Mounting is idempotent: a second mount of a target a mount has
/// succeeded on detects the redirect, reuses the same backing store, and
/// changes nothing on the filesystem.
pub proof fn lemma_mount_idempotent(
    sess: MountSessionV,
    fs: FsModelV,
    id1: Seq<char>,
    id2: Seq<char>,
    outs1: MountOutcomes,
    outs2: MountOutcomes,
)
    requires
        run_mount(sess, fs, id1, outs1).1 is Done,
    ensures
        ({
            let (fs1, ph1) = run_mount(sess, fs, id1, outs1);
            let (fs2, ph2) = run_mount(sess, fs1, id2, outs2);
            &&& (ph1 matches MountPhaseV::Done { store, .. } ==> ph2 == MountPhaseV::Done {
                store,
                reused: true,
            })
            &&& fs2 == fs1
        }),
{
    lemma_mount_establishes_redirect(sess, fs, id1, outs1);
    reveal_with_fuel(run_mount_from, 10);
}

/// Round trip with content: mounting with copy-in and then unmounting with
/// copy-back restores the target's tree — every file's bytes and
/// modification time — exactly, and reclaims the backing store.
pub proof fn lemma_mount_copy_unmount_restores(
    root: Seq<char>,
    target: Seq<char>,
    content: ContentV,
    dirs: Map<Seq<char>, ContentV>,
    id: Seq<char>,
)
    requires
        !dirs.contains_key(store_path_of(root, id)),
    ensures
        ({
            let fs = FsModelV { target: TargetNodeV::Real(content), dirs };
            let msess = MountSessionV { root, target, copy_to: true };
            let (fs1, ph1) = run_mount(msess, fs, id, mount_all_ok());
            let usess = UnmountSessionV { root, target, copy_back: true };
            let (fs2, ph2) = run_unmount(usess, fs1, unmount_all_ok());
            &&& ph1 == MountPhaseV::Done { store: store_path_of(root, id), reused: false }
            &&& ph2 is Done
            &&& fs2.target == TargetNodeV::Real(content)
            &&& fs2.dirs =~= dirs
        }),
{
    reveal_with_fuel(run_mount_from, 10);
    reveal_with_fuel(run_unmount_from, 10);
    lemma_store_path_lies_under(root, id);
}

/// Round trip without copy flags: after the mount the target is a symbolic
/// link into the volatile root; after the unmount the target path does not
/// exist and the backing store is gone.
pub proof fn lemma_mount_unmount_round_trip(
    root: Seq<char>,
    target: Seq<char>,
    node: TargetNodeV,
    dirs: Map<Seq<char>, ContentV>,
    id: Seq<char>,
)
    requires
        node is Missing || node is Real,
        !dirs.contains_key(store_path_of(root, id)),
    ensures
        ({
            let fs = FsModelV { target: node, dirs };
            let store = store_path_of(root, id);
            let msess = MountSessionV { root, target, copy_to: false };
            let (fs1, ph1) = run_mount(msess, fs, id, mount_all_ok());
            let usess = UnmountSessionV { root, target, copy_back: false };
            let (fs2, ph2) = run_unmount(usess, fs1, unmount_all_ok());
            &&& ph1 == MountPhaseV::Done { store, reused: false }
            &&& fs1.target == TargetNodeV::Linked(store)
            &&& lies_under(root, store)
            &&& ph2 is Done
            &&& fs2.target is Missing
            &&& !fs2.dirs.contains_key(store)
            &&& fs2.dirs =~= dirs
        }),
{
    reveal_with_fuel(run_mount_from, 10);
    reveal_with_fuel(run_unmount_from, 10);
    lemma_store_path_lies_under(root, id);
}

/// Remounting a linked target keeps the "linked" invariant but moves to a
/// fresh backing store: afterwards the target is a symbolic link to the
/// newly allocated store and the old store is reclaimed. Holds whenever the
/// fresh identifier does not name the old store again.
pub proof fn lemma_remount_relinks(
    root: Seq<char>,
    target: Seq<char>,
    old_store: Seq<char>,
    dirs: Map<Seq<char>, ContentV>,
    id: Seq<char>,
)
    requires
        lies_under(root, old_store),
        dirs.contains_key(old_store),
        store_path_of(root, id) != old_store,
    ensures
        ({
            let fs = FsModelV { target: TargetNodeV::Linked(old_store), dirs };
            let sess = RemountSessionV { root, target };
            let (fs2, ph) = run_remount(sess, fs, id, unmount_all_ok(), mount_all_ok());
            let new_store = store_path_of(root, id);
            &&& ph == RemountPhaseV::Done { store: new_store }
            &&& fs2.target == TargetNodeV::Linked(new_store)
            &&& lies_under(root, new_store)
            &&& fs2.dirs.contains_key(new_store)
            &&& !fs2.dirs.contains_key(old_store)
        }),
{
    reveal_with_fuel(run_remount_from, 12);
    lemma_store_path_lies_under(root, id);
}

/// Unmounting a target that exists but is no symbolic link fails with
/// `NotASymlink` and makes no filesystem changes.
pub proof fn lemma_unmount_not_symlink(
    root: Seq<char>,
    target: Seq<char>,
    content: ContentV,
    dirs: Map<Seq<char>, ContentV>,
    copy_back: bool,
    outs: UnmountOutcomes,
)
    ensures
        ({
            let fs = FsModelV { target: TargetNodeV::Real(content), dirs };
            let sess = UnmountSessionV { root, target, copy_back };
            let (fs2, ph) = run_unmount(sess, fs, outs);
            &&& ph == UnmountPhaseV::Failed { error: RamdiskError::NotASymlink }
            &&& fs2 == fs
        }),
{
    reveal_with_fuel(run_unmount_from, 10);
}

/// Unmounting a target whose link resolves to an existing path outside the
/// volatile root fails with `NotAVolatileLink` and leaves the link — and
/// everything else — untouched.
pub proof fn lemma_unmount_elsewhere_untouched(
    root: Seq<char>,
    target: Seq<char>,
    dest: Seq<char>,
    dirs: Map<Seq<char>, ContentV>,
    copy_back: bool,
    outs: UnmountOutcomes,
)
    requires
        !lies_under(root, dest),
        dirs.contains_key(dest),
    ensures
        ({
            let fs = FsModelV { target: TargetNodeV::Linked(dest), dirs };
            let sess = UnmountSessionV { root, target, copy_back };
            let (fs2, ph) = run_unmount(sess, fs, outs);
            &&& ph == UnmountPhaseV::Failed { error: RamdiskError::NotAVolatileLink }
            &&& fs2 == fs
        }),
{
    reveal_with_fuel(run_unmount_from, 10);
}

/// Unmounting a target path that does not exist — a missing path, or a
/// dangling link whose resolved path is gone — fails with `TargetNotFound`
/// and makes no filesystem changes.
pub proof fn lemma_unmount_missing_target(
    root: Seq<char>,
    target: Seq<char>,
    fs: FsModelV,
    copy_back: bool,
    outs: UnmountOutcomes,
)
    requires
        !crate::model::status_of(fs).exists,
    ensures
        ({
            let sess = UnmountSessionV { root, target, copy_back };
            let (fs2, ph) = run_unmount(sess, fs, outs);
            &&& ph == UnmountPhaseV::Failed { error: RamdiskError::TargetNotFound }
            &&& fs2 == fs
        }),
{
    reveal_with_fuel(run_unmount_from, 10);
}

/// Whenever an unmount of a linked target ends in `Done`, the target is no
/// longer a symbolic link — it is the restored tree under copy-back and
/// missing otherwise — and the backing store is reclaimed.
pub proof fn lemma_unmount_guarantee(
    sess: UnmountSessionV,
    fs: FsModelV,
    dest: Seq<char>,
    outs: UnmountOutcomes,
)
    requires
        fs.target == TargetNodeV::Linked(dest),
    ensures
        ({
            let (fs2, ph) = run_unmount(sess, fs, outs);
            ph is Done ==> {
                &&& !(fs2.target is Linked)
                &&& !fs2.dirs.contains_key(dest)
                &&& (sess.copy_back ==> fs2.target == TargetNodeV::Real(fs.dirs[dest]))
                &&& (!sess.copy_back ==> fs2.target is Missing)
            }
        }),
{
    reveal_with_fuel(run_unmount_from, 10);
}

/// Stale-link self-healing: mounting a target whose link points into the
/// volatile root but whose resolved directory is gone removes the dangling
/// link and ends with a fresh, valid redirect.
pub proof fn lemma_mount_heals_stale_link(
    root: Seq<char>,
    target: Seq<char>,
    dest: Seq<char>,
    dirs: Map<Seq<char>, ContentV>,
    id: Seq<char>,
    copy_to: bool,
)
    requires
        lies_under(root, dest),
        !dirs.contains_key(dest),
    ensures
        ({
            let fs = FsModelV { target: TargetNodeV::Linked(dest), dirs };
            let sess = MountSessionV { root, target, copy_to };
            let (fs2, ph) = run_mount(sess, fs, id, mount_all_ok());
            let store = store_path_of(root, id);
            &&& ph == MountPhaseV::Done { store, reused: false }
            &&& fs2.target == TargetNodeV::Linked(store)
            &&& lies_under(root, store)
            &&& fs2.dirs.contains_key(store)
        }),
{
    reveal_with_fuel(run_mount_from, 10);
    lemma_store_path_lies_under(root, id);
}

/// Rollback: when the copy into the backing store fails during a mount,
/// the freshly allocated store no longer exists afterwards and the original
/// target path is untouched.
pub proof fn lemma_mount_copy_failure_rolls_back(
    root: Seq<char>,
    target: Seq<char>,
    content: ContentV,
    dirs: Map<Seq<char>, ContentV>,
    id: Seq<char>,
)
    requires
        !dirs.contains_key(store_path_of(root, id)),
    ensures
        ({
            let fs = FsModelV { target: TargetNodeV::Real(content), dirs };
            let sess = MountSessionV { root, target, copy_to: true };
            let outs = MountOutcomes {
                unlink_stale_ok: true,
                create_store_ok: true,
                copy_ok: false,
                clear_target_ok: true,
                link_ok: true,
                rollback_ok: true,
            };
            let (fs2, ph) = run_mount(sess, fs, id, outs);
            &&& ph == MountPhaseV::Failed { error: RamdiskError::TransferFailure }
            &&& fs2.target == TargetNodeV::Real(content)
            &&& !fs2.dirs.contains_key(store_path_of(root, id))
            &&& fs2.dirs =~= dirs
        }),
{
    reveal_with_fuel(run_mount_from, 10);
}

} // verus!
