//! Redirects a build-output directory onto volatile, memory-backed storage.
//!
//! The library holds the decision core of the tool: path normalization, the
//! classification of a target path's current relationship to the volatile
//! storage root, and the mount / unmount / remount orchestrators, expressed as
//! step machines that tell an unverified driver which filesystem operation to
//! perform next and how to recover when one fails.

mod config;
mod error;
mod ids;
mod laws;
mod model;
mod mount;
mod ops;
mod paths;
mod remount;
mod status;
mod unmount;

pub use config::{CargoRamdiskConfig, MountConfig, RemountConfig, Subcommands, UnmountConfig};
pub use error::RamdiskError;
pub use laws::{
    lemma_mount_copy_failure_rolls_back, lemma_mount_copy_unmount_restores,
    lemma_mount_establishes_redirect, lemma_mount_failure_reclaims_store,
    lemma_mount_heals_stale_link, lemma_mount_idempotent, lemma_mount_unmount_round_trip,
    lemma_remount_relinks, lemma_unmount_elsewhere_untouched, lemma_unmount_guarantee,
    lemma_unmount_missing_target, lemma_unmount_not_symlink,
};
pub use model::{
    apply_op, empty_content, mount_all_ok, mount_event_for, mount_outcome_ok, mount_rank,
    remount_event_for, remount_outcome_ok, remount_rank, run_mount, run_mount_from, run_remount,
    run_remount_from, run_unmount, run_unmount_from, status_of, target_content, unmount_all_ok,
    unmount_event_for, unmount_outcome_ok, unmount_rank, ContentV, FileV, FsModelV, MountOutcomes,
    TargetNodeV, UnmountOutcomes,
};
pub use mount::{
    mount_directive, mount_directive_of, mount_step, mount_step_of, mount_step_with, MountPhase,
    MountPhaseV, MountSession, MountSessionV,
};
pub use ops::{Directive, DirectiveV, FsEvent, FsEventV, FsOp, FsOpV};
pub use remount::{
    mount_half, remount_directive, remount_directive_of, remount_step, remount_step_of,
    remount_step_with, unmount_half, RemountPhase, RemountPhaseV, RemountSession, RemountSessionV,
};
pub use unmount::{
    unmount_directive, unmount_directive_of, unmount_step, unmount_step_of, UnmountPhase,
    UnmountPhaseV, UnmountSession, UnmountSessionV,
};
pub use status::{classify, link_state_of, LinkState, LinkStateV, TargetStatus, TargetStatusV};
pub use paths::{
    is_absolute, lemma_normalized_strips_separator, lemma_resolved_absolute,
    lemma_store_path_lies_under, lies_under, normalize_path, normalized, path_lies_under,
    resolve_target, resolved, store_path, store_path_of,
};
