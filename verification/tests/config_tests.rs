use cargo_ramdisk::{
    CargoRamdiskConfig, MountConfig, MountSession, RemountConfig, RemountSession, UnmountConfig,
    UnmountSession,
};

#[test]
fn top_level_config_mounts_without_copying() {
    let conf = CargoRamdiskConfig {
        target: "./target".to_string(),
        subcommand: None,
    };
    let mount: MountConfig = conf.into();
    assert_eq!(mount.target, "./target");
    assert!(!mount.copy_to);
}

#[test]
fn remount_halves_share_the_target_and_copy_nothing() {
    let conf = RemountConfig { target: "target".to_string() };
    let mount = MountConfig::from(&conf);
    assert_eq!(mount.target, "target");
    assert!(!mount.copy_to);
    let unmount = UnmountConfig::from(&conf);
    assert_eq!(unmount.target, "target");
    assert!(!unmount.copy_back);
}

#[test]
fn sessions_resolve_their_targets() {
    let mount = MountSession::new(
        "/dev/shm",
        "/home/user/proj",
        &MountConfig { target: "target/".to_string(), copy_to: true },
    );
    assert_eq!(mount.root, "/dev/shm");
    assert_eq!(mount.target, "/home/user/proj/target");
    assert!(mount.copy_to);

    let unmount = UnmountSession::new(
        "/dev/shm",
        "/home/user/proj",
        &UnmountConfig { target: "/abs/target/".to_string(), copy_back: true },
    );
    assert_eq!(unmount.target, "/abs/target");
    assert!(unmount.copy_back);

    let remount = RemountSession::new(
        "/dev/shm",
        "/home/user/proj",
        &RemountConfig { target: "target".to_string() },
    );
    assert_eq!(remount.target, "/home/user/proj/target");
}
