use cargo_ramdisk::{
    remount_directive, remount_step_with, Directive, FsEvent, FsOp, MountPhase, RamdiskError,
    RemountPhase, RemountSession, TargetStatus, UnmountPhase,
};

const ROOT: &str = "/dev/shm";

fn session() -> RemountSession {
    RemountSession {
        root: ROOT.to_string(),
        target: "/work/target".to_string(),
    }
}

fn start() -> RemountPhase {
    RemountPhase::Unmounting(UnmountPhase::Start)
}

#[test]
fn remount_reclaims_old_store_then_links_fresh_one() {
    let sess = session();
    let old_store = "/dev/shm/targetold".to_string();
    let ev = FsEvent::Status(TargetStatus {
        exists: true,
        link_dest: Some(old_store.clone()),
    });
    assert_eq!(remount_directive(&start()), Directive::Probe);
    let p = remount_step_with(&sess, start(), ev, "fresh");
    assert_eq!(
        p,
        RemountPhase::Unmounting(UnmountPhase::Unlink { store: old_store.clone() })
    );
    let p = remount_step_with(&sess, p, FsEvent::OpOk, "fresh");
    assert_eq!(
        p,
        RemountPhase::Unmounting(UnmountPhase::Reclaim { store: old_store.clone(), copy_failed: false })
    );
    assert_eq!(
        remount_directive(&p),
        Directive::Do(FsOp::RemoveStoreDir { store: old_store })
    );
    // The unmount half is over; the mount half re-probes the target.
    let p = remount_step_with(&sess, p, FsEvent::OpOk, "fresh");
    assert_eq!(p, RemountPhase::Mounting(MountPhase::Start));
    assert_eq!(remount_directive(&p), Directive::Probe);
    let ev = FsEvent::Status(TargetStatus { exists: false, link_dest: None });
    let p = remount_step_with(&sess, p, ev, "fresh");
    let new_store = "/dev/shm/targetfresh".to_string();
    assert_eq!(
        p,
        RemountPhase::Mounting(MountPhase::Alloc { store: new_store.clone(), target_real: false })
    );
    let p = remount_step_with(&sess, p, FsEvent::OpOk, "fresh");
    assert_eq!(
        p,
        RemountPhase::Mounting(MountPhase::MakeLink { store: new_store.clone() })
    );
    let p = remount_step_with(&sess, p, FsEvent::OpOk, "fresh");
    assert_eq!(p, RemountPhase::Done { store: new_store });
    assert_eq!(remount_directive(&p), Directive::Stop { error: None });
}

#[test]
fn failed_unmount_half_stops_the_remount() {
    let sess = session();
    let ev = FsEvent::Status(TargetStatus { exists: true, link_dest: None });
    let p = remount_step_with(&sess, start(), ev, "fresh");
    assert_eq!(p, RemountPhase::Failed { error: RamdiskError::NotASymlink });
    assert_eq!(
        remount_directive(&p),
        Directive::Stop { error: Some(RamdiskError::NotASymlink) }
    );
}

#[test]
fn failed_mount_half_reports_its_error() {
    let sess = session();
    let ev = FsEvent::Status(TargetStatus {
        exists: true,
        link_dest: Some("/dev/shm/targetold".to_string()),
    });
    let p = remount_step_with(&sess, start(), ev, "fresh");
    let p = remount_step_with(&sess, p, FsEvent::OpOk, "fresh");
    let p = remount_step_with(&sess, p, FsEvent::OpOk, "fresh");
    let ev = FsEvent::Status(TargetStatus { exists: false, link_dest: None });
    let p = remount_step_with(&sess, p, ev, "fresh");
    let p = remount_step_with(&sess, p, FsEvent::OpErr, "fresh");
    assert_eq!(p, RemountPhase::Failed { error: RamdiskError::AllocationFailure });
}
