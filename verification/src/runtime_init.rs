//! The per-boot phase: what has to be set up again each time the container
//! starts.

use vstd::prelude::*;
use crate::forward::bind_forwards;
use crate::forward::data_dirs;
use crate::forward::relocated;
use crate::forward::relocated_dir;
use crate::host::HostLayoutKind;
use crate::names::OWN_EMPTY_DIR;
use crate::names::SELINUX_STATUS;
use crate::names::SYSTEM_EMPTY_DIR;
use crate::ops::host_path;
use crate::ops::host_path_of;
use crate::ops::host_symlink;
use crate::ops::host_symlink_ops;
use crate::ops::push_op;
use crate::ops::Operation;
use crate::ops::OperationView;

verus! {

/// What the per-boot phase looks at before it changes anything.
#[derive(Debug, PartialEq, Eq)]
pub struct RuntimeProbe {
    /// The directory for the files of the user's session.
    pub runtime_dir: String,
    /// Whether that directory exists in the container.
    pub runtime_dir_present: bool,
    /// Whether the status node of the security module's file system shows.
    pub selinux_status: bool,
    /// Whether the system's empty directory exists.
    pub empty_dir_present: bool,
    /// The layout of the host.
    pub layout: HostLayoutKind,
}

/// A `RuntimeProbe` with its text as a sequence of characters.
pub struct RuntimeProbeView {
    pub runtime_dir: Seq<char>,
    pub runtime_dir_present: bool,
    pub selinux_status: bool,
    pub empty_dir_present: bool,
    pub layout: HostLayoutKind,
}

impl View for RuntimeProbe {
    type V = RuntimeProbeView;

    open spec fn view(&self) -> RuntimeProbeView {
        RuntimeProbeView {
            runtime_dir: self.runtime_dir@,
            runtime_dir_present: self.runtime_dir_present,
            selinux_status: self.selinux_status,
            empty_dir_present: self.empty_dir_present,
            layout: self.layout,
        }
    }
}

/// The session's runtime directory becomes a symlink to the host's, unless
/// something is there already.
pub open spec fn runtime_dir_ops(dir: Seq<char>, present: bool) -> Seq<OperationView> {
    if present {
        Seq::empty()
    } else {
        host_symlink_ops(dir)
    }
}

/// Where the status node of the host's security module shows through, an
/// empty directory is mounted over that node, so that nothing in the
/// container takes the module for its own. The system's empty directory
/// serves; where there is none, one is made.
pub open spec fn selinux_ops(status: bool, empty_dir_present: bool) -> Seq<OperationView> {
    if !status {
        Seq::empty()
    } else if empty_dir_present {
        seq![OperationView::BindMount { source: SYSTEM_EMPTY_DIR@, target: SELINUX_STATUS@ }]
    } else {
        seq![
            OperationView::CreateDirAll { path: OWN_EMPTY_DIR@ },
            OperationView::BindMount { source: OWN_EMPTY_DIR@, target: SELINUX_STATUS@ },
        ]
    }
}

/// Where the data directory `dir` is mounted: below `/var` on an
/// ostree-based host, in its usual place on any other.
pub open spec fn mount_point(layout: HostLayoutKind, dir: Seq<char>) -> Seq<char> {
    match layout {
        HostLayoutKind::OstreeBased => relocated(dir),
        HostLayoutKind::Conventional => dir,
    }
}

/// The bind mount that shows the host's data directory `dir`: from where
/// the host's directory is found in the container onto the place where the
/// directory is mounted.
pub open spec fn data_mount(layout: HostLayoutKind, dir: Seq<char>) -> OperationView {
    OperationView::BindMount {
        source: host_path(mount_point(layout, dir)),
        target: mount_point(layout, dir),
    }
}

/// The bind mounts of all data directories, in order.
pub open spec fn data_mounts(layout: HostLayoutKind) -> Seq<OperationView> {
    data_dirs().map_values(|dir: Seq<char>| data_mount(layout, dir))
}

/// All changes of the per-boot phase, in order: the runtime directory, the
/// security module, the data directories.
pub open spec fn runtime_plan(probe: RuntimeProbeView) -> Seq<OperationView> {
    runtime_dir_ops(probe.runtime_dir, probe.runtime_dir_present) + selinux_ops(
        probe.selinux_status,
        probe.empty_dir_present,
    ) + data_mounts(probe.layout)
}

fn plan_selinux(plan: &mut Vec<Operation>, status: bool, empty_dir_present: bool)
    ensures
        final(plan).deep_view() == old(plan).deep_view() + selinux_ops(status, empty_dir_present),
{
    let ghost before = plan.deep_view();
    if status {
        let empty = if empty_dir_present {
            SYSTEM_EMPTY_DIR
        } else {
            push_op(plan, Operation::CreateDirAll { path: String::from_str(OWN_EMPTY_DIR) });
            OWN_EMPTY_DIR
        };
        push_op(
            plan,
            Operation::BindMount {
                source: String::from_str(empty),
                target: String::from_str(SELINUX_STATUS),
            },
        );
    }
    assert(plan.deep_view() =~= before + selinux_ops(status, empty_dir_present));
}

fn plan_data_mounts(plan: &mut Vec<Operation>, layout: HostLayoutKind)
    ensures
        final(plan).deep_view() == old(plan).deep_view() + data_mounts(layout),
{
    let ghost before = plan.deep_view();
    let dirs = bind_forwards();
    let mut i: usize = 0;
    assert(plan.deep_view() =~= before + data_mounts(layout).subrange(0, 0));
    while i < dirs.len()
        invariant
            i <= dirs.len(),
            dirs.deep_view() == data_dirs(),
            plan.deep_view() == before + data_mounts(layout).subrange(0, i as int),
        decreases dirs.len() - i,
    {
        let dir = dirs[i].as_str();
        let target = match layout {
            HostLayoutKind::OstreeBased => relocated_dir(dir),
            HostLayoutKind::Conventional => String::from_str(dir),
        };
        assert(target@ == mount_point(layout, dir@));
        assert(dirs.deep_view()[i as int] == dir@);
        push_op(plan, Operation::BindMount { source: host_path_of(target.as_str()), target });
        assert(plan.deep_view() =~= before + data_mounts(layout).subrange(0, i + 1));
        i += 1;
    }
    assert(dirs.len() == dirs.deep_view().len());
    assert(data_mounts(layout).subrange(0, dirs.len() as int) =~= data_mounts(layout));
}

/// Plans the per-boot phase in a container that was found as `probe` says:
/// the changes of `runtime_plan`, in order. They are made one after the
/// other, and the first that fails ends the phase.
pub fn plan_runtime(probe: &RuntimeProbe) -> (plan: Vec<Operation>)
    ensures
        plan.deep_view() == runtime_plan(probe@),
{
    let mut plan: Vec<Operation> = Vec::new();
    assert(plan.deep_view() =~= Seq::<OperationView>::empty());
    if !probe.runtime_dir_present {
        host_symlink(&mut plan, probe.runtime_dir.as_str());
    }
    assert(plan.deep_view() =~= runtime_dir_ops(probe.runtime_dir@, probe.runtime_dir_present));
    plan_selinux(&mut plan, probe.selinux_status, probe.empty_dir_present);
    plan_data_mounts(&mut plan, probe.layout);
    plan
}

/// The layout of the host decides where the data directories are mounted.
/// The per-boot phase ends with one bind mount for each of them, in order:
/// on an ostree-based host from below the host's `/var` onto the place below
/// `/var` that the one-time phase made, and never onto the usual place; on
/// any other host from the host's directory onto the directory itself.
pub proof fn lemma_layout_decides_mount_points(probe: RuntimeProbeView, k: int)
    requires
        0 <= k < 3,
    ensures
        data_dirs().len() == 3,
        runtime_plan(probe).len() >= 3,
        runtime_plan(probe).subrange(runtime_plan(probe).len() - 3, runtime_plan(probe).len() as int)
            == data_mounts(probe.layout),
        probe.layout == HostLayoutKind::OstreeBased ==> runtime_plan(probe)[runtime_plan(
            probe,
        ).len() - 3 + k] == (OperationView::BindMount {
            source: host_path(relocated(data_dirs()[k])),
            target: relocated(data_dirs()[k]),
        }),
        probe.layout == HostLayoutKind::Conventional ==> runtime_plan(probe)[runtime_plan(
            probe,
        ).len() - 3 + k] == (OperationView::BindMount {
            source: host_path(data_dirs()[k]),
            target: data_dirs()[k],
        }),
{
    let plan = runtime_plan(probe);
    let mounts = data_mounts(probe.layout);
    assert(mounts.len() == 3);
    assert(plan.subrange(plan.len() - 3, plan.len() as int) =~= mounts);
    assert(plan[plan.len() - 3 + k] == mounts[k]);
}

/// The places of the data directories on an ostree-based host, and where
/// the host's are found, written out.
pub proof fn lemma_mount_points_written_out()
    ensures
        data_mounts(HostLayoutKind::OstreeBased) == seq![
            OperationView::BindMount { source: "/host/var/srv"@, target: "/var/srv"@ },
            OperationView::BindMount { source: "/host/var/mnt"@, target: "/var/mnt"@ },
            OperationView::BindMount { source: "/host/var/home"@, target: "/var/home"@ },
        ],
        data_mounts(HostLayoutKind::Conventional) == seq![
            OperationView::BindMount { source: "/host/srv"@, target: "/srv"@ },
            OperationView::BindMount { source: "/host/mnt"@, target: "/mnt"@ },
            OperationView::BindMount { source: "/host/home"@, target: "/home"@ },
        ],
{
    reveal_strlit("/host");
    reveal_strlit("/var");
    reveal_strlit("/srv");
    reveal_strlit("/mnt");
    reveal_strlit("/home");
    reveal_strlit("/var/srv");
    reveal_strlit("/var/mnt");
    reveal_strlit("/var/home");
    reveal_strlit("/host/srv");
    reveal_strlit("/host/mnt");
    reveal_strlit("/host/home");
    reveal_strlit("/host/var/srv");
    reveal_strlit("/host/var/mnt");
    reveal_strlit("/host/var/home");
    assert("/var"@ + "/srv"@ =~= "/var/srv"@);
    assert("/var"@ + "/mnt"@ =~= "/var/mnt"@);
    assert("/var"@ + "/home"@ =~= "/var/home"@);
    assert("/host"@ + "/srv"@ =~= "/host/srv"@);
    assert("/host"@ + "/mnt"@ =~= "/host/mnt"@);
    assert("/host"@ + "/home"@ =~= "/host/home"@);
    assert("/host"@ + "/var/srv"@ =~= "/host/var/srv"@);
    assert("/host"@ + "/var/mnt"@ =~= "/host/var/mnt"@);
    assert("/host"@ + "/var/home"@ =~= "/host/var/home"@);
    assert(data_mounts(HostLayoutKind::OstreeBased) =~= seq![
        OperationView::BindMount { source: "/host/var/srv"@, target: "/var/srv"@ },
        OperationView::BindMount { source: "/host/var/mnt"@, target: "/var/mnt"@ },
        OperationView::BindMount { source: "/host/var/home"@, target: "/var/home"@ },
    ]);
    assert(data_mounts(HostLayoutKind::Conventional) =~= seq![
        OperationView::BindMount { source: "/host/srv"@, target: "/srv"@ },
        OperationView::BindMount { source: "/host/mnt"@, target: "/mnt"@ },
        OperationView::BindMount { source: "/host/home"@, target: "/home"@ },
    ]);
}

/// On an ostree-based host nothing is mounted on the usual place of a data
/// directory: every bind mount of the per-boot phase goes onto another
/// place.
pub proof fn lemma_ostree_leaves_usual_places(probe: RuntimeProbeView, i: int, k: int)
    requires
        probe.layout == HostLayoutKind::OstreeBased,
        0 <= i < runtime_plan(probe).len(),
        0 <= k < data_dirs().len(),
        runtime_plan(probe)[i] is BindMount,
    ensures
        runtime_plan(probe)[i]->BindMount_target != data_dirs()[k],
{
    let plan = runtime_plan(probe);
    let first = runtime_dir_ops(probe.runtime_dir, probe.runtime_dir_present);
    let second = selinux_ops(probe.selinux_status, probe.empty_dir_present);
    let mounts = data_mounts(probe.layout);
    lemma_mount_points_written_out();
    reveal_strlit("/srv");
    reveal_strlit("/mnt");
    reveal_strlit("/home");
    reveal_strlit("/var/srv");
    reveal_strlit("/var/mnt");
    reveal_strlit("/var/home");
    reveal_strlit("/sys/fs/selinux/status");
    assert(data_dirs()[k].len() <= 5);
    if i < first.len() {
        assert(plan[i] == first[i]);
    } else if i < first.len() + second.len() {
        assert(plan[i] == second[i - first.len()]);
        assert(plan[i]->BindMount_target == SELINUX_STATUS@);
        assert(SELINUX_STATUS@.len() == 22);
    } else {
        let m = i - first.len() - second.len();
        assert(plan[i] == mounts[m]);
        assert(mounts[m]->BindMount_target.len() >= 8);
    }
}

/// The empty directory is mounted over the status node of the security
/// module exactly where that node shows: then it is the one mount of the
/// phase that is not a mount of a data directory, and else there is none.
pub proof fn lemma_status_node_is_covered(probe: RuntimeProbeView)
    ensures
        probe.selinux_status ==> selinux_ops(probe.selinux_status, probe.empty_dir_present).last()
            == (OperationView::BindMount {
            source: if probe.empty_dir_present {
                SYSTEM_EMPTY_DIR@
            } else {
                OWN_EMPTY_DIR@
            },
            target: SELINUX_STATUS@,
        }),
        !probe.selinux_status ==> selinux_ops(probe.selinux_status, probe.empty_dir_present).len()
            == 0,
        SELINUX_STATUS@ == "/sys/fs/selinux/status"@,
        SYSTEM_EMPTY_DIR@ == "/usr/share/empty"@,
        OWN_EMPTY_DIR@ == "/usr/share/coretoolbox/empty"@,
{
}

/// Where the session's runtime directory is there already, and the security
/// module does not show, the per-boot phase is the mounting of the data
/// directories and nothing else.
pub proof fn lemma_runtime_plan_at_least(probe: RuntimeProbeView)
    requires
        probe.runtime_dir_present,
        !probe.selinux_status,
    ensures
        runtime_plan(probe) == data_mounts(probe.layout),
{
    assert(runtime_plan(probe) =~= data_mounts(probe.layout));
}

} // verus!
