use cargo_ramdisk::{classify, LinkState, TargetStatus};

const ROOT: &str = "/dev/shm";

#[test]
fn classify_missing_or_plain_path_is_unlinked() {
    let missing = TargetStatus { exists: false, link_dest: None };
    assert_eq!(classify(&missing, ROOT), LinkState::Unlinked);
    let plain = TargetStatus { exists: true, link_dest: None };
    assert_eq!(classify(&plain, ROOT), LinkState::Unlinked);
}

#[test]
fn classify_live_link_into_root_is_linked_to_volatile() {
    let status = TargetStatus {
        exists: true,
        link_dest: Some("/dev/shm/targetabc".to_string()),
    };
    assert_eq!(
        classify(&status, ROOT),
        LinkState::LinkedToVolatile("/dev/shm/targetabc".to_string())
    );
}

#[test]
fn classify_dangling_link_into_root_is_stale() {
    let status = TargetStatus {
        exists: false,
        link_dest: Some("/dev/shm/targetgone".to_string()),
    };
    assert_eq!(classify(&status, ROOT), LinkState::StaleVolatileLink);
}

#[test]
fn classify_link_outside_root_is_elsewhere() {
    let status = TargetStatus {
        exists: true,
        link_dest: Some("/mnt/disk/target".to_string()),
    };
    assert_eq!(classify(&status, ROOT), LinkState::LinkedElsewhere);
    let near_miss = TargetStatus {
        exists: true,
        link_dest: Some("/dev/shmother".to_string()),
    };
    assert_eq!(classify(&near_miss, ROOT), LinkState::LinkedElsewhere);
}
