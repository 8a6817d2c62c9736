//! The one-time phase: what makes a fresh container a part of its host.
//!
//! The plan is made for a container that the phase has not touched. It does
//! not look for what an attempt that failed has left behind: a phase that
//! fails sets no stamp and is done over from the start by the next session,
//! and a change that was made before may fail then.

use vstd::prelude::*;
use crate::forward::bind_forwards;
use crate::forward::data_dirs;
use crate::forward::device_forwards;
use crate::forward::device_node;
use crate::forward::device_path;
use crate::forward::forwarded_devices;
use crate::forward::relocated;
use crate::forward::relocated_dir;
use crate::forward::static_forwards;
use crate::forward::symlink_forwards;
use crate::host::HostLayoutKind;
use crate::host::HostState;
use crate::host::HostStateView;
use crate::ops::host_path;
use crate::ops::host_path_of;
use crate::ops::host_symlink;
use crate::ops::host_symlink_ops;
use crate::ops::push_op;
use crate::ops::Operation;
use crate::ops::OperationView;
use crate::text::join2;
use crate::text::starts_with;

verus! {

/// Whether a device node is there, in the container and on the host.
#[derive(Clone, Copy, Debug, PartialEq, Eq, Structural)]
pub struct DeviceProbe {
    /// The container has the node.
    pub inside: bool,
    /// The host has the node.
    pub on_host: bool,
}

/// What the one-time phase looks at before it changes anything.
#[derive(Debug, PartialEq, Eq)]
pub struct StaticProbe {
    /// The layout of the host.
    pub layout: HostLayoutKind,
    /// The names of the entries of `/tmp`.
    pub tmp_entries: Vec<String>,
    /// One probe for each forwarded device, in the order of the list.
    pub devices: [DeviceProbe; 4],
    /// Whether the directory of sudo rules exists.
    pub sudoers_dir: bool,
}

/// A `StaticProbe` with its texts as sequences of characters.
pub struct StaticProbeView {
    pub layout: HostLayoutKind,
    pub tmp_entries: Seq<Seq<char>>,
    pub devices: Seq<DeviceProbe>,
    pub sudoers_dir: bool,
}

impl View for StaticProbe {
    type V = StaticProbeView;

    open spec fn view(&self) -> StaticProbeView {
        StaticProbeView {
            layout: self.layout,
            tmp_entries: self.tmp_entries.deep_view(),
            devices: self.devices@,
            sudoers_dir: self.sudoers_dir,
        }
    }
}

/// The changes that move the data directory `dir` below `/var`: the empty
/// directory goes, its new place below `/var` is made, and a symlink to the
/// new place is put where the directory was.
pub open spec fn relocate_ops(dir: Seq<char>) -> Seq<OperationView> {
    seq![
        OperationView::RemoveDir { path: dir },
        OperationView::CreateDir { path: relocated(dir) },
        OperationView::Symlink { target: relocated(dir), link: dir },
    ]
}

/// `relocate_ops` for each of `dirs`, in order.
pub open spec fn relocate_all(dirs: Seq<Seq<char>>) -> Seq<OperationView>
    decreases dirs.len(),
{
    if dirs.len() == 0 {
        Seq::empty()
    } else {
        relocate_all(dirs.drop_last()) + relocate_ops(dirs.last())
    }
}

/// What the layout of the host asks of the data directories: on an
/// ostree-based host they move below `/var`, else they stay.
pub open spec fn layout_ops(layout: HostLayoutKind) -> Seq<OperationView> {
    match layout {
        HostLayoutKind::OstreeBased => relocate_all(data_dirs()),
        HostLayoutKind::Conventional => Seq::empty(),
    }
}

/// The symlink that shows the host's removable media.
pub open spec fn media_ops() -> Seq<OperationView> {
    seq![OperationView::Symlink { target: "/host/run/media"@, link: "/run/media"@ }]
}

/// Whether an entry of `/tmp` is a leftover of the installer.
pub open spec fn is_installer_leftover(name: Seq<char>) -> bool {
    "ks-script-"@.is_prefix_of(name)
}

/// The removal of the installer's leftovers among `entries`, in order.
pub open spec fn cleanup_ops(entries: Seq<Seq<char>>) -> Seq<OperationView>
    decreases entries.len(),
{
    if entries.len() == 0 {
        Seq::empty()
    } else {
        cleanup_ops(entries.drop_last()) + if is_installer_leftover(entries.last()) {
            seq![OperationView::RemoveFile { path: "/tmp/"@ + entries.last() }]
        } else {
            Seq::empty()
        }
    }
}

/// `host_symlink_ops` for each of `paths`, in order.
pub open spec fn symlinks_for(paths: Seq<Seq<char>>) -> Seq<OperationView>
    decreases paths.len(),
{
    if paths.len() == 0 {
        Seq::empty()
    } else {
        symlinks_for(paths.drop_last()) + host_symlink_ops(paths.last())
    }
}

/// The symlinks into the host that every container gets.
pub open spec fn forward_ops() -> Seq<OperationView> {
    symlinks_for(static_forwards())
}

/// On an ostree-based host, the symlink that shows the system tree where
/// its tools look for it.
pub open spec fn system_tree_ops(layout: HostLayoutKind) -> Seq<OperationView> {
    match layout {
        HostLayoutKind::OstreeBased => seq![
            OperationView::Symlink { target: "sysroot/ostree"@, link: "/host/ostree"@ },
        ],
        HostLayoutKind::Conventional => Seq::empty(),
    }
}

/// The symlink that forwards the device `name`, made only where the
/// container lacks the node and the host has it.
pub open spec fn device_op(name: Seq<char>, probe: DeviceProbe) -> Seq<OperationView> {
    if !probe.inside && probe.on_host {
        seq![
            OperationView::Symlink {
                target: host_path(device_path(name)),
                link: device_path(name),
            },
        ]
    } else {
        Seq::empty()
    }
}

/// `device_op` for the first `n` forwarded devices, in order.
pub open spec fn devices_upto(n: nat, probes: Seq<DeviceProbe>) -> Seq<OperationView>
    decreases n,
{
    if n == 0 {
        Seq::empty()
    } else {
        devices_upto((n - 1) as nat, probes) + device_op(
            forwarded_devices()[n - 1],
            probes[n - 1],
        )
    }
}

/// The forwarding of devices: none for root, who has the host's devices.
pub open spec fn device_ops(uid: u32, probes: Seq<DeviceProbe>) -> Seq<OperationView> {
    if uid == 0 {
        Seq::empty()
    } else {
        devices_upto(forwarded_devices().len(), probes)
    }
}

/// Where the sudo rule of `username` is kept.
pub open spec fn sudo_rule_path(username: Seq<char>) -> Seq<char> {
    "/etc/sudoers.d/toolbox-"@ + username
}

/// The rule that lets `username` use sudo without a password.
pub open spec fn sudo_rule(username: Seq<char>) -> Seq<char> {
    username + " ALL=(ALL) NOPASSWD: ALL"@
}

/// The sudo rule of the user, written where the directory for it exists.
pub open spec fn sudo_ops(username: Seq<char>, sudoers_dir: bool) -> Seq<OperationView> {
    if sudoers_dir {
        seq![
            OperationView::WriteRule { path: sudo_rule_path(username), line: sudo_rule(username) },
        ]
    } else {
        Seq::empty()
    }
}

/// The user of the host, made in the container: the account with the same
/// id and home, in the administrative group where sudo was set up; the home
/// directory, owned by the user; and the host's home mounted on it. None of
/// this for root.
pub open spec fn user_ops(state: HostStateView, admin: bool) -> Seq<OperationView> {
    if state.uid == 0 {
        Seq::empty()
    } else {
        seq![
            OperationView::AddUser {
                username: state.username,
                uid: state.uid,
                home: state.home,
                admin,
            },
            OperationView::CreateDirAll { path: state.home },
            OperationView::Chown { path: state.home, uid: state.uid, gid: state.uid },
            OperationView::BindMount { source: host_path(state.home), target: state.home },
        ]
    }
}

/// All changes of the one-time phase, in order: the layout of the data
/// directories, the removable media, the installer's leftovers, the fixed
/// symlinks, the system tree, the devices, the sudo rule and the user.
pub open spec fn static_plan(state: HostStateView, probe: StaticProbeView) -> Seq<OperationView> {
    layout_ops(probe.layout) + media_ops() + cleanup_ops(probe.tmp_entries) + forward_ops()
        + system_tree_ops(probe.layout) + device_ops(state.uid, probe.devices) + sudo_ops(
        state.username,
        probe.sudoers_dir,
    ) + user_ops(state, probe.sudoers_dir)
}

fn plan_layout(plan: &mut Vec<Operation>, layout: HostLayoutKind)
    ensures
        final(plan).deep_view() == old(plan).deep_view() + layout_ops(layout),
{
    let ghost before = plan.deep_view();
    match layout {
        HostLayoutKind::Conventional => {
            assert(plan.deep_view() =~= before + layout_ops(layout));
        },
        HostLayoutKind::OstreeBased => {
            let dirs = bind_forwards();
            let mut i: usize = 0;
            assert(dirs.deep_view().subrange(0, 0) =~= Seq::<Seq<char>>::empty());
            assert(plan.deep_view() =~= before + relocate_all(dirs.deep_view().subrange(0, 0)));
            while i < dirs.len()
                invariant
                    i <= dirs.len(),
                    dirs.deep_view() == data_dirs(),
                    plan.deep_view() == before + relocate_all(
                        dirs.deep_view().subrange(0, i as int),
                    ),
                decreases dirs.len() - i,
            {
                let ghost sofar = plan.deep_view();
                let dir = dirs[i].as_str();
                let below = relocated_dir(dir);
                push_op(plan, Operation::RemoveDir { path: String::from_str(dir) });
                push_op(plan, Operation::CreateDir { path: below.clone() });
                push_op(plan, Operation::Symlink { target: below, link: String::from_str(dir) });
                proof {
                    let next = dirs.deep_view().subrange(0, i + 1);
                    assert(next.drop_last() =~= dirs.deep_view().subrange(0, i as int));
                    assert(next.last() == dir@);
                    assert(plan.deep_view() =~= sofar + relocate_ops(dir@));
                    assert(plan.deep_view() =~= before + relocate_all(next));
                }
                i += 1;
            }
            assert(dirs.deep_view().subrange(0, dirs.len() as int) =~= dirs.deep_view());
        },
    }
}

fn plan_cleanup(plan: &mut Vec<Operation>, entries: &Vec<String>)
    ensures
        final(plan).deep_view() == old(plan).deep_view() + cleanup_ops(entries.deep_view()),
{
    let ghost before = plan.deep_view();
    let mut i: usize = 0;
    assert(entries.deep_view().subrange(0, 0) =~= Seq::<Seq<char>>::empty());
    assert(plan.deep_view() =~= before + cleanup_ops(entries.deep_view().subrange(0, 0)));
    while i < entries.len()
        invariant
            i <= entries.len(),
            plan.deep_view() == before + cleanup_ops(entries.deep_view().subrange(0, i as int)),
        decreases entries.len() - i,
    {
        let ghost sofar = plan.deep_view();
        let name = entries[i].as_str();
        proof {
            let next = entries.deep_view().subrange(0, i + 1);
            assert(next.drop_last() =~= entries.deep_view().subrange(0, i as int));
            assert(next.last() == name@);
        }
        if starts_with(name, "ks-script-") {
            push_op(plan, Operation::RemoveFile { path: join2("/tmp/", name) });
        }
        assert(plan.deep_view() =~= before + cleanup_ops(
            entries.deep_view().subrange(0, i + 1),
        ));
        i += 1;
    }
    assert(entries.deep_view().subrange(0, entries.len() as int) =~= entries.deep_view());
}

fn plan_forwards(plan: &mut Vec<Operation>)
    ensures
        final(plan).deep_view() == old(plan).deep_view() + forward_ops(),
{
    let ghost before = plan.deep_view();
    let paths = symlink_forwards();
    let mut i: usize = 0;
    assert(paths.deep_view().subrange(0, 0) =~= Seq::<Seq<char>>::empty());
    assert(plan.deep_view() =~= before + symlinks_for(paths.deep_view().subrange(0, 0)));
    while i < paths.len()
        invariant
            i <= paths.len(),
            paths.deep_view() == static_forwards(),
            plan.deep_view() == before + symlinks_for(paths.deep_view().subrange(0, i as int)),
        decreases paths.len() - i,
    {
        let path = paths[i].as_str();
        proof {
            let next = paths.deep_view().subrange(0, i + 1);
            assert(next.drop_last() =~= paths.deep_view().subrange(0, i as int));
            assert(next.last() == path@);
        }
        host_symlink(plan, path);
        assert(plan.deep_view() =~= before + symlinks_for(
            paths.deep_view().subrange(0, i + 1),
        ));
        i += 1;
    }
    assert(paths.deep_view().subrange(0, paths.len() as int) =~= paths.deep_view());
}

fn plan_devices(plan: &mut Vec<Operation>, uid: u32, probes: &[DeviceProbe; 4])
    ensures
        final(plan).deep_view() == old(plan).deep_view() + device_ops(uid, probes@),
{
    let ghost before = plan.deep_view();
    if uid == 0 {
        assert(plan.deep_view() =~= before + device_ops(uid, probes@));
        return ;
    }
    let names = device_forwards();
    let mut i: usize = 0;
    assert(names.len() == names.deep_view().len());
    assert(plan.deep_view() =~= before + devices_upto(0, probes@));
    while i < 4
        invariant
            i <= 4,
            names.len() == 4,
            names.deep_view() == forwarded_devices(),
            plan.deep_view() == before + devices_upto(i as nat, probes@),
        decreases 4 - i,
    {
        let name = names[i].as_str();
        let probe = probes[i];
        assert(name@ == forwarded_devices()[i as int]);
        if !probe.inside && probe.on_host {
            let node = device_node(name);
            push_op(
                plan,
                Operation::Symlink { target: host_path_of(node.as_str()), link: node },
            );
        }
        assert(plan.deep_view() =~= before + devices_upto((i + 1) as nat, probes@));
        i += 1;
    }
}

fn plan_sudo(plan: &mut Vec<Operation>, username: &str, sudoers_dir: bool)
    ensures
        final(plan).deep_view() == old(plan).deep_view() + sudo_ops(username@, sudoers_dir),
{
    let ghost before = plan.deep_view();
    if sudoers_dir {
        push_op(
            plan,
            Operation::WriteRule {
                path: join2("/etc/sudoers.d/toolbox-", username),
                line: join2(username, " ALL=(ALL) NOPASSWD: ALL"),
            },
        );
    }
    assert(plan.deep_view() =~= before + sudo_ops(username@, sudoers_dir));
}

fn plan_user(plan: &mut Vec<Operation>, state: &HostState, admin: bool)
    ensures
        final(plan).deep_view() == old(plan).deep_view() + user_ops(state@, admin),
{
    let ghost before = plan.deep_view();
    if state.uid != 0 {
        let home = state.home.as_str();
        push_op(
            plan,
            Operation::AddUser {
                username: state.username.clone(),
                uid: state.uid,
                home: state.home.clone(),
                admin,
            },
        );
        push_op(plan, Operation::CreateDirAll { path: state.home.clone() });
        push_op(plan, Operation::Chown { path: state.home.clone(), uid: state.uid, gid: state.uid });
        push_op(
            plan,
            Operation::BindMount { source: host_path_of(home), target: state.home.clone() },
        );
    }
    assert(plan.deep_view() =~= before + user_ops(state@, admin));
}

/// Plans the one-time phase for the user `state` in a container that was
/// found as `probe` says: the changes of `static_plan`, in order. They are
/// made one after the other, and the first that fails ends the phase.
pub fn plan_static(state: &HostState, probe: &StaticProbe) -> (plan: Vec<Operation>)
    ensures
        plan.deep_view() == static_plan(state@, probe@),
{
    let mut plan: Vec<Operation> = Vec::new();
    assert(plan.deep_view() =~= Seq::<OperationView>::empty());
    plan_layout(&mut plan, probe.layout);
    push_op(
        &mut plan,
        Operation::Symlink {
            target: String::from_str("/host/run/media"),
            link: String::from_str("/run/media"),
        },
    );
    assert(plan.deep_view() =~= layout_ops(probe.layout) + media_ops());
    plan_cleanup(&mut plan, &probe.tmp_entries);
    plan_forwards(&mut plan);
    match probe.layout {
        HostLayoutKind::OstreeBased => {
            push_op(
                &mut plan,
                Operation::Symlink {
                    target: String::from_str("sysroot/ostree"),
                    link: String::from_str("/host/ostree"),
                },
            );
        },
        HostLayoutKind::Conventional => {},
    }
    assert(plan.deep_view() =~= layout_ops(probe.layout) + media_ops() + cleanup_ops(
        probe.tmp_entries.deep_view(),
    ) + forward_ops() + system_tree_ops(probe.layout));
    plan_devices(&mut plan, state.uid, &probe.devices);
    plan_sudo(&mut plan, state.username.as_str(), probe.sudoers_dir);
    plan_user(&mut plan, state, probe.sudoers_dir);
    plan
}

} // verus!
