//! The fixed names and paths of the toolbox.

use vstd::prelude::*;

verus! {

/// The image offered when none is chosen.
pub const DEFAULT_IMAGE: &'static str = "registry.fedoraproject.org/f30/fedora-toolbox:30";

/// The label set on toolbox images and containers.
pub const TOOLBOX_LABEL: &'static str = "com.coreos.toolbox";

/// The label of a related family of toolbox images, which are accepted too.
pub const D_TOOLBOX_LABEL: &'static str = "com.github.debarshiray.toolbox";

/// The name of the container when none is given.
pub const DEFAULT_NAME: &'static str = "coreos-toolbox";

/// Where the program is found inside the container.
pub const USR_BIN_SELF: &'static str = "/usr/bin/coretoolbox";

/// The environment variable that carries the host state into a session.
pub const STATE_ENV: &'static str = "TOOLBOX_STATE";

/// Where the host's root is found inside the container.
pub const HOST_ROOT: &'static str = "/host";

/// The lock that both phases take.
pub const INIT_LOCK: &'static str = "/run/coreos-toolbox.lock";

/// The durable stamp: set once the one-time phase is complete.
pub const STATIC_STAMP: &'static str = "/etc/coreos-toolbox.initialized";

/// The ephemeral stamp: set once the per-boot phase is complete.
pub const RUNTIME_STAMP: &'static str = "/run/coreos-toolbox.initialized";

/// The file whose presence on the host tells an ostree-based host.
pub const OSTREE_MARKER: &'static str = "/host/run/ostree-booted";

/// The file whose presence tells that the program runs in a container.
pub const CONTAINER_MARKER: &'static str = "/run/.containerenv";

/// The directory of sudo rules.
pub const SUDOERS_DIR: &'static str = "/etc/sudoers.d";

/// The directory of temporary files.
pub const TMP_DIR: &'static str = "/tmp";

/// The root of an ostree-based host's deployments, where the host has one.
pub const SYSROOT: &'static str = "/sysroot";

/// The kernel's debug directory, where the host has one.
pub const DEBUGFS: &'static str = "/sys/kernel/debug";

/// The running program, as the kernel shows it.
pub const SELF_EXE: &'static str = "/proc/self/exe";

/// The status node of the security module's file system.
pub const SELINUX_STATUS: &'static str = "/sys/fs/selinux/status";

/// The system's empty directory.
pub const SYSTEM_EMPTY_DIR: &'static str = "/usr/share/empty";

/// The empty directory that is made where the system has none.
pub const OWN_EMPTY_DIR: &'static str = "/usr/share/coretoolbox/empty";

/// How many ids a user namespace holds.
pub const MAX_UID_COUNT: u32 = 65536;

} // verus!
