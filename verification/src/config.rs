//! The configuration each operation takes.
//!
//! These mirror the command-line surface: one struct per subcommand, each
//! holding the target path and the flags relevant to it. A command line with
//! no subcommand means mount, so the top-level configuration converts into a
//! [`MountConfig`] with the copy flag off; a remount runs an unmount and a
//! mount over the same target, both without copy flags.

use vstd::prelude::*;

verus! {

/// The top-level configuration: a target path and an optional subcommand.
#[derive(Debug, Clone, PartialEq)]
pub struct CargoRamdiskConfig {
    /// The path to the target folder where compilation output is written.
    pub target: String,
    pub subcommand: Option<Subcommands>,
}

/// Configuration of a mount.
#[derive(Debug, Clone, PartialEq)]
pub struct MountConfig {
    /// The path to the target folder where compilation output is written.
    pub target: String,
    /// Copy the contents of the target folder to the ramdisk.
    pub copy_to: bool,
}

/// Configuration of a remount.
#[derive(Debug, Clone, PartialEq)]
pub struct RemountConfig {
    /// The path to the target folder where compilation output is written.
    pub target: String,
}

/// Configuration of an unmount.
#[derive(Debug, Clone, PartialEq)]
pub struct UnmountConfig {
    /// The path to the target folder where compilation output is written.
    pub target: String,
    /// Copy back the contents of the ramdisk to the target folder.
    pub copy_back: bool,
}

/// The subcommands of the tool.
#[derive(Debug, Clone, PartialEq)]
pub enum Subcommands {
    /// Mount a ramdisk, same as not specifying a subcommand.
    Mount(MountConfig),
    /// Remount an existing ramdisk.
    Remount(RemountConfig),
    /// Unmount an existing ramdisk.
    Unmount(UnmountConfig),
}

impl From<CargoRamdiskConfig> for MountConfig {
    /// A top-level invocation without a subcommand mounts without copying.
    fn from(conf: CargoRamdiskConfig) -> Self {
        MountConfig { target: conf.target, copy_to: false }
    }
}

impl vstd::std_specs::convert::FromSpecImpl<CargoRamdiskConfig> for MountConfig {
    open spec fn obeys_from_spec() -> bool {
        true
    }

    open spec fn from_spec(conf: CargoRamdiskConfig) -> MountConfig {
        MountConfig { target: conf.target, copy_to: false }
    }
}

impl From<&RemountConfig> for MountConfig {
    /// The mount half of a remount: same target, no copying in.
    fn from(config: &RemountConfig) -> Self {
        MountConfig { target: config.target.clone(), copy_to: false }
    }
}

impl vstd::std_specs::convert::FromSpecImpl<&RemountConfig> for MountConfig {
    open spec fn obeys_from_spec() -> bool {
        true
    }

    open spec fn from_spec(config: &RemountConfig) -> MountConfig {
        MountConfig { target: config.target, copy_to: false }
    }
}

impl From<&RemountConfig> for UnmountConfig {
    /// The unmount half of a remount: same target, no copying back.
    fn from(config: &RemountConfig) -> Self {
        UnmountConfig { target: config.target.clone(), copy_back: false }
    }
}

impl vstd::std_specs::convert::FromSpecImpl<&RemountConfig> for UnmountConfig {
    open spec fn obeys_from_spec() -> bool {
        true
    }

    open spec fn from_spec(config: &RemountConfig) -> UnmountConfig {
        UnmountConfig { target: config.target, copy_back: false }
    }
}

} // verus!
