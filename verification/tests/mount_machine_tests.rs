use cargo_ramdisk::{
    mount_directive, mount_step, mount_step_with, Directive, FsEvent, FsOp, MountPhase,
    MountSession, RamdiskError, TargetStatus,
};

const ROOT: &str = "/dev/shm";

fn session(copy_to: bool) -> MountSession {
    MountSession {
        root: ROOT.to_string(),
        target: "/work/target".to_string(),
        copy_to,
    }
}

fn unlinked_missing() -> FsEvent {
    FsEvent::Status(TargetStatus { exists: false, link_dest: None })
}

fn unlinked_real() -> FsEvent {
    FsEvent::Status(TargetStatus { exists: true, link_dest: None })
}

#[test]
fn fresh_mount_on_missing_target() {
    let sess = session(false);
    assert_eq!(mount_directive(&MountPhase::Start), Directive::Probe);
    let p = mount_step_with(&sess, MountPhase::Start, unlinked_missing(), "id1");
    let store = "/dev/shm/targetid1".to_string();
    assert_eq!(
        p,
        MountPhase::Alloc { store: store.clone(), target_real: false }
    );
    assert_eq!(
        mount_directive(&p),
        Directive::Do(FsOp::CreateStoreDir { store: store.clone() })
    );
    let p = mount_step_with(&sess, p, FsEvent::OpOk, "id1");
    assert_eq!(p, MountPhase::MakeLink { store: store.clone() });
    assert_eq!(
        mount_directive(&p),
        Directive::Do(FsOp::LinkTargetToStore { store: store.clone() })
    );
    let p = mount_step_with(&sess, p, FsEvent::OpOk, "id1");
    assert_eq!(p, MountPhase::Done { store, reused: false });
    assert_eq!(mount_directive(&p), Directive::Stop { error: None });
}

#[test]
fn mount_with_copy_preserves_content_first() {
    let sess = session(true);
    let p = mount_step_with(&sess, MountPhase::Start, unlinked_real(), "id2");
    let store = "/dev/shm/targetid2".to_string();
    assert_eq!(
        p,
        MountPhase::Alloc { store: store.clone(), target_real: true }
    );
    let p = mount_step_with(&sess, p, FsEvent::OpOk, "id2");
    assert_eq!(p, MountPhase::CopyToStore { store: store.clone() });
    assert_eq!(
        mount_directive(&p),
        Directive::Do(FsOp::CopyTargetToStore { store: store.clone() })
    );
    let p = mount_step_with(&sess, p, FsEvent::OpOk, "id2");
    assert_eq!(p, MountPhase::ClearTarget { store: store.clone() });
    assert_eq!(mount_directive(&p), Directive::Do(FsOp::RemoveTargetTree));
    let p = mount_step_with(&sess, p, FsEvent::OpOk, "id2");
    assert_eq!(p, MountPhase::MakeLink { store: store.clone() });
    let p = mount_step_with(&sess, p, FsEvent::OpOk, "id2");
    assert_eq!(p, MountPhase::Done { store, reused: false });
}

#[test]
fn mount_without_copy_removes_existing_target() {
    let sess = session(false);
    let p = mount_step_with(&sess, MountPhase::Start, unlinked_real(), "id3");
    let store = "/dev/shm/targetid3".to_string();
    let p = mount_step_with(&sess, p, FsEvent::OpOk, "id3");
    assert_eq!(p, MountPhase::ClearTarget { store });
}

#[test]
fn mount_reuses_existing_redirect() {
    let sess = session(false);
    let store = "/dev/shm/targetearlier".to_string();
    let ev = FsEvent::Status(TargetStatus {
        exists: true,
        link_dest: Some(store.clone()),
    });
    let p = mount_step_with(&sess, MountPhase::Start, ev, "idnew");
    assert_eq!(p, MountPhase::Done { store, reused: true });
    assert_eq!(mount_directive(&p), Directive::Stop { error: None });
}

#[test]
fn mount_heals_stale_link() {
    let sess = session(false);
    let ev = FsEvent::Status(TargetStatus {
        exists: false,
        link_dest: Some("/dev/shm/targetwiped".to_string()),
    });
    let p = mount_step_with(&sess, MountPhase::Start, ev, "id4");
    assert_eq!(p, MountPhase::ClearStale);
    assert_eq!(mount_directive(&p), Directive::Do(FsOp::UnlinkTarget));
    let p = mount_step_with(&sess, p, FsEvent::OpOk, "id4");
    let store = "/dev/shm/targetid4".to_string();
    assert_eq!(
        p,
        MountPhase::Alloc { store: store.clone(), target_real: false }
    );
    let p = mount_step_with(&sess, p, FsEvent::OpOk, "id4");
    let p = mount_step_with(&sess, p, FsEvent::OpOk, "id4");
    assert_eq!(p, MountPhase::Done { store, reused: false });
}

#[test]
fn mount_replaces_link_to_elsewhere() {
    let sess = session(false);
    let ev = FsEvent::Status(TargetStatus {
        exists: true,
        link_dest: Some("/mnt/disk/old".to_string()),
    });
    let p = mount_step_with(&sess, MountPhase::Start, ev, "id5");
    let store = "/dev/shm/targetid5".to_string();
    assert_eq!(p, MountPhase::Alloc { store, target_real: true });
}

#[test]
fn failed_allocation_aborts_without_rollback() {
    let sess = session(false);
    let p = mount_step_with(&sess, MountPhase::Start, unlinked_missing(), "id6");
    let p = mount_step_with(&sess, p, FsEvent::OpErr, "id6");
    assert_eq!(
        p,
        MountPhase::Failed { error: RamdiskError::AllocationFailure }
    );
    assert_eq!(
        mount_directive(&p),
        Directive::Stop { error: Some(RamdiskError::AllocationFailure) }
    );
}

#[test]
fn failed_copy_rolls_back_the_store() {
    let sess = session(true);
    let p = mount_step_with(&sess, MountPhase::Start, unlinked_real(), "id7");
    let p = mount_step_with(&sess, p, FsEvent::OpOk, "id7");
    let store = "/dev/shm/targetid7".to_string();
    assert_eq!(p, MountPhase::CopyToStore { store: store.clone() });
    let p = mount_step_with(&sess, p, FsEvent::OpErr, "id7");
    assert_eq!(
        p,
        MountPhase::Rollback { store: store.clone(), error: RamdiskError::TransferFailure }
    );
    assert_eq!(
        mount_directive(&p),
        Directive::Do(FsOp::RemoveStoreDir { store })
    );
    let p = mount_step_with(&sess, p, FsEvent::OpOk, "id7");
    assert_eq!(
        p,
        MountPhase::Failed { error: RamdiskError::TransferFailure }
    );
}

#[test]
fn failed_link_rolls_back_then_failed_rollback_is_cleanup_failure() {
    let sess = session(false);
    let p = mount_step_with(&sess, MountPhase::Start, unlinked_missing(), "id8");
    let p = mount_step_with(&sess, p, FsEvent::OpOk, "id8");
    let store = "/dev/shm/targetid8".to_string();
    assert_eq!(p, MountPhase::MakeLink { store: store.clone() });
    let p = mount_step_with(&sess, p, FsEvent::OpErr, "id8");
    assert_eq!(
        p,
        MountPhase::Rollback { store, error: RamdiskError::LinkFailure }
    );
    let p = mount_step_with(&sess, p, FsEvent::OpErr, "id8");
    assert_eq!(
        p,
        MountPhase::Failed { error: RamdiskError::CleanupFailure }
    );
}

#[test]
fn random_identifier_names_a_store_of_fixed_length() {
    let sess = session(false);
    let p = mount_step(&sess, MountPhase::Start, unlinked_missing());
    match p {
        MountPhase::Alloc { store, target_real } => {
            assert!(!target_real);
            assert!(store.starts_with("/dev/shm/target"));
            assert_eq!(store.chars().count(), "/dev/shm/target".chars().count() + 21);
        }
        other => panic!("unexpected phase {:?}", other),
    }
}

#[test]
fn two_random_mounts_pick_distinct_stores() {
    let sess = session(false);
    let p1 = mount_step(&sess, MountPhase::Start, unlinked_missing());
    let p2 = mount_step(&sess, MountPhase::Start, unlinked_missing());
    match (p1, p2) {
        (MountPhase::Alloc { store: s1, .. }, MountPhase::Alloc { store: s2, .. }) => {
            assert_ne!(s1, s2);
        }
        _ => panic!("expected allocation phases"),
    }
}
