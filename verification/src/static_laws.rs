//! What holds of every plan of the one-time phase: what root is spared, what
//! the layout of the host decides, and that nothing is done twice.

use vstd::prelude::*;
use crate::forward::data_dirs;
use crate::forward::device_path;
use crate::forward::relocated;
use crate::forward::static_forwards;
use crate::host::HostLayoutKind;
use crate::host::HostStateView;
use crate::ops::host_path;
use crate::ops::host_symlink_ops;
use crate::ops::OperationView;
use crate::static_init::cleanup_ops;
use crate::static_init::device_op;
use crate::static_init::device_ops;
use crate::static_init::devices_upto;
use crate::static_init::forward_ops;
use crate::static_init::is_installer_leftover;
use crate::static_init::layout_ops;
use crate::static_init::media_ops;
use crate::static_init::relocate_all;
use crate::static_init::relocate_ops;
use crate::static_init::static_plan;
use crate::static_init::sudo_ops;
use crate::static_init::sudo_rule;
use crate::static_init::sudo_rule_path;
use crate::static_init::symlinks_for;
use crate::static_init::system_tree_ops;
use crate::static_init::user_ops;
use crate::static_init::DeviceProbe;
use crate::static_init::StaticProbeView;

verus! {

/// The relocation of the data directories, written out.
pub proof fn lemma_relocation_written_out()
    ensures
        relocate_all(data_dirs()) == relocate_ops("/srv"@) + relocate_ops("/mnt"@) + relocate_ops(
            "/home"@,
        ),
{
    let d3 = data_dirs();
    let d2 = d3.drop_last();
    let d1 = d2.drop_last();
    let d0 = d1.drop_last();
    assert(d0.len() == 0);
    assert(d1.last() == "/srv"@ && d2.last() == "/mnt"@ && d3.last() == "/home"@);
    assert(relocate_all(d0) =~= Seq::<OperationView>::empty());
    assert(relocate_all(d1) =~= relocate_ops("/srv"@));
    assert(relocate_all(d2) =~= relocate_ops("/srv"@) + relocate_ops("/mnt"@));
    assert(relocate_all(d3) =~= relocate_ops("/srv"@) + relocate_ops("/mnt"@) + relocate_ops(
        "/home"@,
    ));
}

/// Where each data directory moves on an ostree-based host, written out: the
/// new place lies below `/var`, whatever directory the session works in.
pub proof fn lemma_relocation_paths_written_out()
    ensures
        relocate_ops("/srv"@) == seq![
            OperationView::RemoveDir { path: "/srv"@ },
            OperationView::CreateDir { path: "/var/srv"@ },
            OperationView::Symlink { target: "/var/srv"@, link: "/srv"@ },
        ],
        relocate_ops("/mnt"@) == seq![
            OperationView::RemoveDir { path: "/mnt"@ },
            OperationView::CreateDir { path: "/var/mnt"@ },
            OperationView::Symlink { target: "/var/mnt"@, link: "/mnt"@ },
        ],
        relocate_ops("/home"@) == seq![
            OperationView::RemoveDir { path: "/home"@ },
            OperationView::CreateDir { path: "/var/home"@ },
            OperationView::Symlink { target: "/var/home"@, link: "/home"@ },
        ],
{
    reveal_strlit("/var");
    reveal_strlit("/srv");
    reveal_strlit("/mnt");
    reveal_strlit("/home");
    reveal_strlit("/var/srv");
    reveal_strlit("/var/mnt");
    reveal_strlit("/var/home");
    assert("/var"@ + "/srv"@ =~= "/var/srv"@);
    assert("/var"@ + "/mnt"@ =~= "/var/mnt"@);
    assert("/var"@ + "/home"@ =~= "/var/home"@);
}

/// The fixed symlinks into the host, written out.
pub proof fn lemma_forwards_written_out()
    ensures
        forward_ops() == host_symlink_ops("/run/dbus"@) + host_symlink_ops("/run/libvirt"@)
            + host_symlink_ops("/tmp"@) + host_symlink_ops("/var/tmp"@),
{
    let f4 = static_forwards();
    let f3 = f4.drop_last();
    let f2 = f3.drop_last();
    let f1 = f2.drop_last();
    let f0 = f1.drop_last();
    assert(f0.len() == 0);
    assert(f1.last() == "/run/dbus"@ && f2.last() == "/run/libvirt"@ && f3.last() == "/tmp"@
        && f4.last() == "/var/tmp"@);
    assert(symlinks_for(f0) =~= Seq::<OperationView>::empty());
    assert(symlinks_for(f1) =~= host_symlink_ops("/run/dbus"@));
    assert(symlinks_for(f2) =~= symlinks_for(f1) + host_symlink_ops("/run/libvirt"@));
    assert(symlinks_for(f3) =~= symlinks_for(f2) + host_symlink_ops("/tmp"@));
    assert(symlinks_for(f4) =~= symlinks_for(f3) + host_symlink_ops("/var/tmp"@));
}

/// The forwarding of the devices for a user other than root, written out.
pub proof fn lemma_devices_written_out(probes: Seq<DeviceProbe>)
    ensures
        devices_upto(4, probes) == device_op("bus"@, probes[0]) + device_op("dri"@, probes[1])
            + device_op("kvm"@, probes[2]) + device_op("fuse"@, probes[3]),
{
    assert(devices_upto(0, probes) =~= Seq::<OperationView>::empty());
    assert(devices_upto(1, probes) =~= device_op("bus"@, probes[0]));
    assert(devices_upto(2, probes) =~= devices_upto(1, probes) + device_op("dri"@, probes[1]));
    assert(devices_upto(3, probes) =~= devices_upto(2, probes) + device_op("kvm"@, probes[2]));
    assert(devices_upto(4, probes) =~= devices_upto(3, probes) + device_op("fuse"@, probes[3]));
}

/// The removal of the installer's leftovers removes files and does nothing
/// else, and it removes at most one file for each entry.
pub proof fn lemma_cleanup_removes_files(entries: Seq<Seq<char>>)
    ensures
        cleanup_ops(entries).len() <= entries.len(),
        forall|i: int|
            0 <= i < cleanup_ops(entries).len() ==> #[trigger] cleanup_ops(
                entries,
            )[i] is RemoveFile,
    decreases entries.len(),
{
    if entries.len() > 0 {
        lemma_cleanup_removes_files(entries.drop_last());
    }
}

/// Every fixed symlink is made, whoever the user is and whatever the layout
/// of the host: for each path of the list, the symlink to the host's path is
/// among the changes of the one-time phase.
pub proof fn lemma_forwards_are_made(state: HostStateView, probe: StaticProbeView, k: int)
    requires
        0 <= k < static_forwards().len(),
    ensures
        static_plan(state, probe).contains(
            OperationView::Symlink {
                target: host_path(static_forwards()[k]),
                link: static_forwards()[k],
            },
        ),
{
    let plan = static_plan(state, probe);
    let head = layout_ops(probe.layout) + media_ops() + cleanup_ops(probe.tmp_entries);
    let tail = system_tree_ops(probe.layout) + device_ops(state.uid, probe.devices) + sudo_ops(
        state.username,
        probe.sudoers_dir,
    ) + user_ops(state, probe.sudoers_dir);
    lemma_forwards_written_out();
    assert(plan =~= head + forward_ops() + tail);
    let at = head.len() + 3 * k + 2;
    assert(plan[at] == forward_ops()[3 * k + 2]);
    assert(plan[at] == OperationView::Symlink {
        target: host_path(static_forwards()[k]),
        link: static_forwards()[k],
    });
}

/// Root gets no user and no devices, and everything else: for root the
/// one-time phase is the layout of the data directories, the removable
/// media, the installer's leftovers, the fixed symlinks, the system tree and
/// the sudo rule. Each of the fixed symlinks is among its changes.
pub proof fn lemma_root_short_circuit(state: HostStateView, probe: StaticProbeView)
    requires
        state.uid == 0,
    ensures
        device_ops(state.uid, probe.devices) == Seq::<OperationView>::empty(),
        user_ops(state, probe.sudoers_dir) == Seq::<OperationView>::empty(),
        static_plan(state, probe) == layout_ops(probe.layout) + media_ops() + cleanup_ops(
            probe.tmp_entries,
        ) + forward_ops() + system_tree_ops(probe.layout) + sudo_ops(
            state.username,
            probe.sudoers_dir,
        ),
        forall|i: int|
            0 <= i < static_plan(state, probe).len() ==> !(#[trigger] static_plan(
                state,
                probe,
            )[i] is AddUser) && !(static_plan(state, probe)[i] is Chown) && !(static_plan(
                state,
                probe,
            )[i] is BindMount) && !(static_plan(state, probe)[i] is CreateDirAll),
        forall|k: int|
            0 <= k < static_forwards().len() ==> static_plan(state, probe).contains(
                OperationView::Symlink {
                    target: host_path(#[trigger] static_forwards()[k]),
                    link: static_forwards()[k],
                },
            ),
{
    let plan = static_plan(state, probe);
    let head = layout_ops(probe.layout) + media_ops() + cleanup_ops(probe.tmp_entries);
    assert(plan =~= head + forward_ops() + system_tree_ops(probe.layout) + sudo_ops(
        state.username,
        probe.sudoers_dir,
    ));
    lemma_relocation_written_out();
    lemma_forwards_written_out();
    lemma_cleanup_removes_files(probe.tmp_entries);
    let c = cleanup_ops(probe.tmp_entries);
    let l = layout_ops(probe.layout);
    assert forall|i: int| 0 <= i < plan.len() implies !(#[trigger] plan[i] is AddUser) && !(
    plan[i] is Chown) && !(plan[i] is BindMount) && !(plan[i] is CreateDirAll) by {
        if l.len() + 1 <= i < l.len() + 1 + c.len() {
            assert(plan[i] == c[i - l.len() - 1]);
        }
    }
    assert forall|k: int| 0 <= k < static_forwards().len() implies plan.contains(
        OperationView::Symlink {
            target: host_path(#[trigger] static_forwards()[k]),
            link: static_forwards()[k],
        },
    ) by {
        lemma_forwards_are_made(state, probe, k);
    }
}

/// Every place where the one-time phase can put a symlink, in the order in
/// which it gets to them.
pub open spec fn link_places() -> Seq<Seq<char>> {
    seq![
        "/srv"@,
        "/mnt"@,
        "/home"@,
        "/run/media"@,
        "/run/dbus"@,
        "/run/libvirt"@,
        "/tmp"@,
        "/var/tmp"@,
        "/host/ostree"@,
        device_path("bus"@),
        device_path("dri"@),
        device_path("kvm"@),
        device_path("fuse"@),
    ]
}

/// No two of the places where the one-time phase can put a symlink are the
/// same.
pub proof fn lemma_link_places_differ()
    ensures
        link_places().no_duplicates(),
{
    reveal_strlit("/srv");
    reveal_strlit("/mnt");
    reveal_strlit("/home");
    reveal_strlit("/run/media");
    reveal_strlit("/run/dbus");
    reveal_strlit("/run/libvirt");
    reveal_strlit("/tmp");
    reveal_strlit("/var/tmp");
    reveal_strlit("/host/ostree");
    reveal_strlit("/dev/");
    reveal_strlit("bus");
    reveal_strlit("dri");
    reveal_strlit("kvm");
    reveal_strlit("fuse");
    let p = link_places();
    assert(p[0].len() == 4 && p[0][1] == 's');
    assert(p[1].len() == 4 && p[1][1] == 'm');
    assert(p[2].len() == 5);
    assert(p[3].len() == 10);
    assert(p[4].len() == 9 && p[4][1] == 'r');
    assert(p[5].len() == 12 && p[5][1] == 'r');
    assert(p[6].len() == 4 && p[6][1] == 't');
    assert(p[7].len() == 8 && p[7][1] == 'v');
    assert(p[8].len() == 12 && p[8][1] == 'h');
    assert(p[9].len() == 8 && p[9][1] == 'd' && p[9][5] == 'b');
    assert(p[10].len() == 8 && p[10][1] == 'd' && p[10][5] == 'd');
    assert(p[11].len() == 8 && p[11][1] == 'd' && p[11][5] == 'k');
    assert(p[12].len() == 9 && p[12][1] == 'd');
}

/// The places of the symlinks that `plan` makes, in order.
pub open spec fn links(plan: Seq<OperationView>) -> Seq<Seq<char>>
    decreases plan.len(),
{
    if plan.len() == 0 {
        Seq::empty()
    } else {
        links(plan.drop_last()) + match plan.last() {
            OperationView::Symlink { link, .. } => seq![link],
            _ => Seq::empty(),
        }
    }
}

/// The symlinks of two plans in a row are those of the first followed by
/// those of the second.
pub proof fn lemma_links_add(a: Seq<OperationView>, b: Seq<OperationView>)
    ensures
        links(a + b) == links(a) + links(b),
    decreases b.len(),
{
    if b.len() == 0 {
        assert(a + b =~= a);
        assert(links(a) + links(b) =~= links(a));
    } else {
        assert((a + b).drop_last() =~= a + b.drop_last());
        assert((a + b).last() == b.last());
        lemma_links_add(a, b.drop_last());
        assert(links(a + b) =~= links(a) + links(b));
    }
}

proof fn lemma_links_one(op: OperationView)
    ensures
        links(seq![op]) == match op {
            OperationView::Symlink { link, .. } => seq![link],
            _ => Seq::<Seq<char>>::empty(),
        },
{
    reveal_with_fuel(links, 2);
    assert(seq![op].drop_last() =~= Seq::<OperationView>::empty());
    assert(seq![op].last() == op);
    assert(links(seq![op]) =~= match op {
        OperationView::Symlink { link, .. } => seq![link],
        _ => Seq::<Seq<char>>::empty(),
    });
}

proof fn lemma_links_relocate(dir: Seq<char>)
    ensures
        links(relocate_ops(dir)) == seq![dir],
{
    let a = OperationView::RemoveDir { path: dir };
    let b = OperationView::CreateDir { path: relocated(dir) };
    let c = OperationView::Symlink { target: relocated(dir), link: dir };
    assert(relocate_ops(dir) =~= seq![a] + seq![b] + seq![c]);
    lemma_links_add(seq![a] + seq![b], seq![c]);
    lemma_links_add(seq![a], seq![b]);
    lemma_links_one(a);
    lemma_links_one(b);
    lemma_links_one(c);
    assert(links(relocate_ops(dir)) =~= seq![dir]);
}

proof fn lemma_links_host_symlink(path: Seq<char>)
    ensures
        links(host_symlink_ops(path)) == seq![path],
{
    let a = OperationView::CreateParents { path };
    let b = OperationView::RemoveTree { path };
    let c = OperationView::Symlink { target: host_path(path), link: path };
    assert(host_symlink_ops(path) =~= seq![a] + seq![b] + seq![c]);
    lemma_links_add(seq![a] + seq![b], seq![c]);
    lemma_links_add(seq![a], seq![b]);
    lemma_links_one(a);
    lemma_links_one(b);
    lemma_links_one(c);
    assert(links(host_symlink_ops(path)) =~= seq![path]);
}

proof fn lemma_links_cleanup(entries: Seq<Seq<char>>)
    ensures
        links(cleanup_ops(entries)) == Seq::<Seq<char>>::empty(),
    decreases entries.len(),
{
    if entries.len() > 0 {
        let rest = cleanup_ops(entries.drop_last());
        lemma_links_cleanup(entries.drop_last());
        if is_installer_leftover(entries.last()) {
            let op = OperationView::RemoveFile { path: "/tmp/"@ + entries.last() };
            lemma_links_add(rest, seq![op]);
            lemma_links_one(op);
        } else {
            assert(cleanup_ops(entries) =~= rest);
        }
    }
    assert(links(cleanup_ops(entries)) =~= Seq::<Seq<char>>::empty());
}

/// The place of the symlink that forwards the device `name`, where one is
/// made.
pub open spec fn device_link(name: Seq<char>, probe: DeviceProbe) -> Seq<Seq<char>> {
    if !probe.inside && probe.on_host {
        seq![device_path(name)]
    } else {
        Seq::empty()
    }
}

proof fn lemma_links_device(name: Seq<char>, probe: DeviceProbe)
    ensures
        links(device_op(name, probe)) == device_link(name, probe),
{
    if !probe.inside && probe.on_host {
        lemma_links_one(
            OperationView::Symlink {
                target: host_path(device_path(name)),
                link: device_path(name),
            },
        );
    }
    assert(links(device_op(name, probe)) =~= device_link(name, probe));
}

proof fn lemma_links_layout(layout: HostLayoutKind)
    ensures
        links(layout_ops(layout)) == if layout == HostLayoutKind::OstreeBased {
            seq!["/srv"@, "/mnt"@, "/home"@]
        } else {
            Seq::<Seq<char>>::empty()
        },
{
    lemma_relocation_written_out();
    lemma_links_relocate("/srv"@);
    lemma_links_relocate("/mnt"@);
    lemma_links_relocate("/home"@);
    lemma_links_add(relocate_ops("/srv"@) + relocate_ops("/mnt"@), relocate_ops("/home"@));
    lemma_links_add(relocate_ops("/srv"@), relocate_ops("/mnt"@));
    assert(links(layout_ops(layout)) =~= if layout == HostLayoutKind::OstreeBased {
        seq!["/srv"@, "/mnt"@, "/home"@]
    } else {
        Seq::<Seq<char>>::empty()
    });
}

proof fn lemma_links_forwards()
    ensures
        links(forward_ops()) == seq!["/run/dbus"@, "/run/libvirt"@, "/tmp"@, "/var/tmp"@],
{
    let a = host_symlink_ops("/run/dbus"@);
    let b = host_symlink_ops("/run/libvirt"@);
    let c = host_symlink_ops("/tmp"@);
    let d = host_symlink_ops("/var/tmp"@);
    lemma_forwards_written_out();
    lemma_links_host_symlink("/run/dbus"@);
    lemma_links_host_symlink("/run/libvirt"@);
    lemma_links_host_symlink("/tmp"@);
    lemma_links_host_symlink("/var/tmp"@);
    lemma_links_add(a + b + c, d);
    lemma_links_add(a + b, c);
    lemma_links_add(a, b);
    assert(links(forward_ops()) =~= seq!["/run/dbus"@, "/run/libvirt"@, "/tmp"@, "/var/tmp"@]);
}

proof fn lemma_links_system_tree(layout: HostLayoutKind)
    ensures
        links(system_tree_ops(layout)) == if layout == HostLayoutKind::OstreeBased {
            seq!["/host/ostree"@]
        } else {
            Seq::<Seq<char>>::empty()
        },
{
    let t = system_tree_ops(layout);
    if layout == HostLayoutKind::OstreeBased {
        lemma_links_one(t[0]);
        assert(t =~= seq![t[0]]);
    }
}

/// The places of the symlinks that forward devices, in order.
pub open spec fn device_links(uid: u32, probes: Seq<DeviceProbe>) -> Seq<Seq<char>> {
    if uid == 0 {
        Seq::empty()
    } else {
        device_link("bus"@, probes[0]) + device_link("dri"@, probes[1]) + device_link(
            "kvm"@,
            probes[2],
        ) + device_link("fuse"@, probes[3])
    }
}

proof fn lemma_links_devices(uid: u32, probes: Seq<DeviceProbe>)
    ensures
        links(device_ops(uid, probes)) == device_links(uid, probes),
{
    if uid != 0 {
        let a = device_op("bus"@, probes[0]);
        let b = device_op("dri"@, probes[1]);
        let c = device_op("kvm"@, probes[2]);
        let d = device_op("fuse"@, probes[3]);
        lemma_devices_written_out(probes);
        lemma_links_device("bus"@, probes[0]);
        lemma_links_device("dri"@, probes[1]);
        lemma_links_device("kvm"@, probes[2]);
        lemma_links_device("fuse"@, probes[3]);
        lemma_links_add(a + b + c, d);
        lemma_links_add(a + b, c);
        lemma_links_add(a, b);
    }
}

proof fn lemma_links_sudo_and_user(state: HostStateView, sudoers_dir: bool)
    ensures
        links(sudo_ops(state.username, sudoers_dir)) == Seq::<Seq<char>>::empty(),
        links(user_ops(state, sudoers_dir)) == Seq::<Seq<char>>::empty(),
{
    let s = sudo_ops(state.username, sudoers_dir);
    let u = user_ops(state, sudoers_dir);
    if sudoers_dir {
        lemma_links_one(s[0]);
        assert(s =~= seq![s[0]]);
    }
    if state.uid != 0 {
        assert(u =~= seq![u[0]] + seq![u[1]] + seq![u[2]] + seq![u[3]]);
        lemma_links_add(seq![u[0]] + seq![u[1]] + seq![u[2]], seq![u[3]]);
        lemma_links_add(seq![u[0]] + seq![u[1]], seq![u[2]]);
        lemma_links_add(seq![u[0]], seq![u[1]]);
        lemma_links_one(u[0]);
        lemma_links_one(u[1]);
        lemma_links_one(u[2]);
        lemma_links_one(u[3]);
        assert(links(u) =~= Seq::<Seq<char>>::empty());
    }
}

/// The places of the symlinks of the one-time phase, written out.
pub proof fn lemma_links_written_out(state: HostStateView, probe: StaticProbeView)
    ensures
        links(static_plan(state, probe)) == (if probe.layout == HostLayoutKind::OstreeBased {
            seq!["/srv"@, "/mnt"@, "/home"@]
        } else {
            Seq::empty()
        }) + seq!["/run/media"@, "/run/dbus"@, "/run/libvirt"@, "/tmp"@, "/var/tmp"@] + (
        if probe.layout == HostLayoutKind::OstreeBased {
            seq!["/host/ostree"@]
        } else {
            Seq::empty()
        }) + device_links(state.uid, probe.devices),
{
    let l = layout_ops(probe.layout);
    let m = media_ops();
    let c = cleanup_ops(probe.tmp_entries);
    let f = forward_ops();
    let t = system_tree_ops(probe.layout);
    let d = device_ops(state.uid, probe.devices);
    let s = sudo_ops(state.username, probe.sudoers_dir);
    let u = user_ops(state, probe.sudoers_dir);
    lemma_links_add(l + m + c + f + t + d + s, u);
    lemma_links_add(l + m + c + f + t + d, s);
    lemma_links_add(l + m + c + f + t, d);
    lemma_links_add(l + m + c + f, t);
    lemma_links_add(l + m + c, f);
    lemma_links_add(l + m, c);
    lemma_links_add(l, m);
    lemma_links_layout(probe.layout);
    lemma_links_one(m[0]);
    assert(m =~= seq![m[0]]);
    lemma_links_cleanup(probe.tmp_entries);
    lemma_links_forwards();
    lemma_links_system_tree(probe.layout);
    lemma_links_devices(state.uid, probe.devices);
    lemma_links_sudo_and_user(state, probe.sudoers_dir);
    assert(links(static_plan(state, probe)) =~= links(l) + links(m) + links(c) + links(f) + links(
        t,
    ) + links(d) + links(s) + links(u));
}

/// Whether `place` is one of the places of `link_places` from number `lo`
/// up to, and without, number `hi`.
pub open spec fn is_place(place: Seq<char>, lo: int, hi: int) -> bool {
    exists|m: int| lo <= m < hi && #[trigger] link_places()[m] == place
}

/// Whether `part` holds no place twice and only places of `link_places`
/// from number `lo` up to, and without, number `hi`.
pub open spec fn distinct_among(part: Seq<Seq<char>>, lo: int, hi: int) -> bool {
    part.no_duplicates() && forall|i: int| 0 <= i < part.len() ==> is_place(#[trigger] part[i], lo, hi)
}

proof fn lemma_distinct_join(a: Seq<Seq<char>>, b: Seq<Seq<char>>, lo: int, mid: int, hi: int)
    requires
        0 <= lo <= mid <= hi <= link_places().len(),
        link_places().no_duplicates(),
        distinct_among(a, lo, mid),
        distinct_among(b, mid, hi),
    ensures
        distinct_among(a + b, lo, hi),
{
    let s = a + b;
    assert forall|i: int| 0 <= i < s.len() implies is_place(#[trigger] s[i], lo, hi) by {
        if i < a.len() {
            assert(is_place(a[i], lo, mid));
        } else {
            assert(is_place(b[i - a.len()], mid, hi));
        }
    }
    assert forall|i: int, j: int| 0 <= i < s.len() && 0 <= j < s.len() && i != j implies s[i]
        != s[j] by {
        if i < a.len() && j >= a.len() {
            assert(is_place(a[i], lo, mid));
            assert(is_place(b[j - a.len()], mid, hi));
        } else if j < a.len() && i >= a.len() {
            assert(is_place(a[j], lo, mid));
            assert(is_place(b[i - a.len()], mid, hi));
        }
    }
}

proof fn lemma_distinct_one(take: bool, m: int)
    requires
        0 <= m < link_places().len(),
    ensures
        distinct_among(
            if take {
                seq![link_places()[m]]
            } else {
                Seq::<Seq<char>>::empty()
            },
            m,
            m + 1,
        ),
{
}

proof fn lemma_distinct_layout(layout: HostLayoutKind)
    requires
        link_places().no_duplicates(),
    ensures
        distinct_among(links(layout_ops(layout)), 0, 3),
{
    lemma_links_layout(layout);
    let p = link_places();
    let take = layout == HostLayoutKind::OstreeBased;
    let a = if take {
        seq![p[0]]
    } else {
        Seq::<Seq<char>>::empty()
    };
    let b = if take {
        seq![p[1]]
    } else {
        Seq::<Seq<char>>::empty()
    };
    let c = if take {
        seq![p[2]]
    } else {
        Seq::<Seq<char>>::empty()
    };
    lemma_distinct_one(take, 0);
    lemma_distinct_one(take, 1);
    lemma_distinct_one(take, 2);
    lemma_distinct_join(a, b, 0, 1, 2);
    lemma_distinct_join(a + b, c, 0, 2, 3);
    assert(links(layout_ops(layout)) =~= a + b + c);
}

proof fn lemma_distinct_forwards()
    requires
        link_places().no_duplicates(),
    ensures
        distinct_among(links(forward_ops()), 4, 8),
{
    lemma_links_forwards();
    let p = link_places();
    lemma_distinct_one(true, 4);
    lemma_distinct_one(true, 5);
    lemma_distinct_one(true, 6);
    lemma_distinct_one(true, 7);
    lemma_distinct_join(seq![p[4]], seq![p[5]], 4, 5, 6);
    lemma_distinct_join(seq![p[4]] + seq![p[5]], seq![p[6]], 4, 6, 7);
    lemma_distinct_join(seq![p[4]] + seq![p[5]] + seq![p[6]], seq![p[7]], 4, 7, 8);
    assert(links(forward_ops()) =~= seq![p[4]] + seq![p[5]] + seq![p[6]] + seq![p[7]]);
}

proof fn lemma_distinct_devices(uid: u32, probes: Seq<DeviceProbe>)
    requires
        link_places().no_duplicates(),
    ensures
        distinct_among(links(device_ops(uid, probes)), 9, 13),
{
    lemma_links_devices(uid, probes);
    let p = link_places();
    let a = device_link("bus"@, probes[0]);
    let b = device_link("dri"@, probes[1]);
    let c = device_link("kvm"@, probes[2]);
    let d = device_link("fuse"@, probes[3]);
    lemma_distinct_one(!probes[0].inside && probes[0].on_host, 9);
    lemma_distinct_one(!probes[1].inside && probes[1].on_host, 10);
    lemma_distinct_one(!probes[2].inside && probes[2].on_host, 11);
    lemma_distinct_one(!probes[3].inside && probes[3].on_host, 12);
    lemma_distinct_join(a, b, 9, 10, 11);
    lemma_distinct_join(a + b, c, 9, 11, 12);
    lemma_distinct_join(a + b + c, d, 9, 12, 13);
}

/// No place gets a symlink twice in the one-time phase.
pub proof fn lemma_no_symlink_twice(state: HostStateView, probe: StaticProbeView)
    ensures
        links(static_plan(state, probe)).no_duplicates(),
{
    let l = layout_ops(probe.layout);
    let m = media_ops();
    let c = cleanup_ops(probe.tmp_entries);
    let f = forward_ops();
    let t = system_tree_ops(probe.layout);
    let d = device_ops(state.uid, probe.devices);
    let s = sudo_ops(state.username, probe.sudoers_dir);
    let u = user_ops(state, probe.sudoers_dir);
    let none = Seq::<Seq<char>>::empty();
    lemma_link_places_differ();
    // the places of each part
    lemma_distinct_layout(probe.layout);
    assert(distinct_among(links(m), 3, 4)) by {
        lemma_links_one(m[0]);
        assert(m =~= seq![m[0]]);
        lemma_distinct_one(true, 3);
    }
    lemma_links_cleanup(probe.tmp_entries);
    lemma_distinct_forwards();
    assert(distinct_among(links(t), 8, 9)) by {
        lemma_links_system_tree(probe.layout);
        lemma_distinct_one(probe.layout == HostLayoutKind::OstreeBased, 8);
    }
    lemma_distinct_devices(state.uid, probe.devices);
    lemma_links_sudo_and_user(state, probe.sudoers_dir);
    // the parts in a row
    lemma_links_add(l, m);
    lemma_distinct_join(links(l), links(m), 0, 3, 4);
    lemma_links_add(l + m, c);
    assert(links(l + m) + none =~= links(l + m));
    lemma_links_add(l + m + c, f);
    lemma_distinct_join(links(l + m + c), links(f), 0, 4, 8);
    lemma_links_add(l + m + c + f, t);
    lemma_distinct_join(links(l + m + c + f), links(t), 0, 8, 9);
    lemma_links_add(l + m + c + f + t, d);
    lemma_distinct_join(links(l + m + c + f + t), links(d), 0, 9, 13);
    lemma_links_add(l + m + c + f + t + d, s);
    assert(links(l + m + c + f + t + d) + none =~= links(l + m + c + f + t + d));
    lemma_links_add(l + m + c + f + t + d + s, u);
    assert(links(l + m + c + f + t + d + s) + none =~= links(l + m + c + f + t + d + s));
}

/// Whether a change is one of those that come before the sudo rule and the
/// user: work on directories, files and symlinks.
pub open spec fn is_groundwork(op: OperationView) -> bool {
    op is RemoveDir || op is Symlink || op is CreateDir || op is RemoveFile || op is CreateParents
        || op is RemoveTree
}

/// The part of the one-time phase that comes before the sudo rule and the
/// user.
pub open spec fn groundwork(state: HostStateView, probe: StaticProbeView) -> Seq<OperationView> {
    layout_ops(probe.layout) + media_ops() + cleanup_ops(probe.tmp_entries) + forward_ops()
        + system_tree_ops(probe.layout) + device_ops(state.uid, probe.devices)
}

proof fn lemma_groundwork(state: HostStateView, probe: StaticProbeView)
    ensures
        forall|i: int|
            0 <= i < groundwork(state, probe).len() ==> is_groundwork(
                #[trigger] groundwork(state, probe)[i],
            ),
        static_plan(state, probe) == groundwork(state, probe) + sudo_ops(
            state.username,
            probe.sudoers_dir,
        ) + user_ops(state, probe.sudoers_dir),
{
    let l = layout_ops(probe.layout);
    let m = media_ops();
    let c = cleanup_ops(probe.tmp_entries);
    let f = forward_ops();
    let t = system_tree_ops(probe.layout);
    let d = device_ops(state.uid, probe.devices);
    let g = groundwork(state, probe);
    lemma_relocation_written_out();
    lemma_forwards_written_out();
    lemma_devices_written_out(probe.devices);
    lemma_cleanup_removes_files(probe.tmp_entries);
    assert forall|i: int| 0 <= i < l.len() implies is_groundwork(#[trigger] l[i]) by {}
    assert forall|i: int| 0 <= i < c.len() implies is_groundwork(#[trigger] c[i]) by {}
    assert forall|i: int| 0 <= i < f.len() implies is_groundwork(#[trigger] f[i]) by {}
    assert forall|i: int| 0 <= i < t.len() implies is_groundwork(#[trigger] t[i]) by {}
    assert forall|i: int| 0 <= i < d.len() implies is_groundwork(#[trigger] d[i]) by {}
    assert forall|i: int| 0 <= i < g.len() implies is_groundwork(#[trigger] g[i]) by {
        let a = l.len();
        let b = a + 1;
        let e = b + c.len();
        let h = e + f.len();
        let k = h + t.len();
        if i < a {
            assert(g[i] == l[i]);
        } else if i < b {
            assert(g[i] == m[0]);
        } else if i < e {
            assert(g[i] == c[i - b]);
        } else if i < h {
            assert(g[i] == f[i - e]);
        } else if i < k {
            assert(g[i] == t[i - h]);
        } else {
            assert(g[i] == d[i - k]);
        }
    }
}

/// One user and one sudo rule: the one-time phase makes the user of the host
/// exactly once, as its fourth change from the end, and for root not at all;
/// it writes the sudo rule exactly once where the directory for it exists,
/// and not at all where it does not. The user is in the administrative
/// group exactly where the rule was written.
pub proof fn lemma_one_user_one_rule(state: HostStateView, probe: StaticProbeView)
    ensures
        forall|i: int, j: int|
            #![trigger static_plan(state, probe)[i], static_plan(state, probe)[j]]
            0 <= i < static_plan(state, probe).len() && 0 <= j < static_plan(state, probe).len()
                && static_plan(state, probe)[i] is AddUser && static_plan(
                state,
                probe,
            )[j] is AddUser ==> i == j,
        forall|i: int, j: int|
            #![trigger static_plan(state, probe)[i], static_plan(state, probe)[j]]
            0 <= i < static_plan(state, probe).len() && 0 <= j < static_plan(state, probe).len()
                && static_plan(state, probe)[i] is WriteRule && static_plan(
                state,
                probe,
            )[j] is WriteRule ==> i == j,
        state.uid != 0 ==> static_plan(state, probe).len() >= 4 && static_plan(
            state,
            probe,
        )[static_plan(state, probe).len() - 4] == (OperationView::AddUser {
            username: state.username,
            uid: state.uid,
            home: state.home,
            admin: probe.sudoers_dir,
        }),
        state.uid == 0 ==> forall|i: int|
            0 <= i < static_plan(state, probe).len() ==> !(#[trigger] static_plan(
                state,
                probe,
            )[i] is AddUser),
        probe.sudoers_dir ==> static_plan(state, probe).contains(
            OperationView::WriteRule {
                path: sudo_rule_path(state.username),
                line: sudo_rule(state.username),
            },
        ),
        !probe.sudoers_dir ==> forall|i: int|
            0 <= i < static_plan(state, probe).len() ==> !(#[trigger] static_plan(
                state,
                probe,
            )[i] is WriteRule),
{
    lemma_groundwork(state, probe);
    let plan = static_plan(state, probe);
    let g = groundwork(state, probe);
    let s = sudo_ops(state.username, probe.sudoers_dir);
    let u = user_ops(state, probe.sudoers_dir);
    assert forall|i: int| 0 <= i < g.len() implies plan[i] == g[i] && is_groundwork(
        #[trigger] plan[i],
    ) by {}
    assert forall|i: int| g.len() <= i < g.len() + s.len() implies #[trigger] plan[i] == s[i
        - g.len()] by {}
    assert forall|i: int| g.len() + s.len() <= i < plan.len() implies #[trigger] plan[i] == u[i
        - g.len() - s.len()] by {}
    if probe.sudoers_dir {
        assert(plan[g.len() as int] == s[0]);
    }
}

/// The layout of the host decides whether the data directories move. On an
/// ostree-based host the one-time phase begins by moving each of them below
/// `/var`, leaving a symlink in its place, and it links the system tree. On any other host no directory is
/// removed and none is made in place of another: the phase begins with the
/// removable media.
pub proof fn lemma_layout_decides_relocation(state: HostStateView, probe: StaticProbeView)
    ensures
        probe.layout == HostLayoutKind::OstreeBased ==> static_plan(state, probe).len() >= 9
            && static_plan(state, probe).subrange(0, 9) == relocate_ops("/srv"@) + relocate_ops(
            "/mnt"@,
        ) + relocate_ops("/home"@),
        probe.layout == HostLayoutKind::Conventional ==> static_plan(state, probe)[0]
            == media_ops()[0] && forall|i: int|
            0 <= i < static_plan(state, probe).len() ==> !(#[trigger] static_plan(
                state,
                probe,
            )[i] is RemoveDir) && !(static_plan(state, probe)[i] is CreateDir),
{
    let plan = static_plan(state, probe);
    let l = layout_ops(probe.layout);
    lemma_relocation_written_out();
    if probe.layout == HostLayoutKind::OstreeBased {
        assert(plan.subrange(0, 9) =~= l);
    } else {
        let m = media_ops();
        let c = cleanup_ops(probe.tmp_entries);
        let f = forward_ops();
        let t = system_tree_ops(probe.layout);
        let d = device_ops(state.uid, probe.devices);
        let s = sudo_ops(state.username, probe.sudoers_dir);
        let u = user_ops(state, probe.sudoers_dir);
        lemma_forwards_written_out();
        lemma_devices_written_out(probe.devices);
        lemma_cleanup_removes_files(probe.tmp_entries);
        assert(l.len() == 0);
        assert(t.len() == 0);
        assert forall|i: int| 0 <= i < plan.len() implies !(#[trigger] plan[i] is RemoveDir) && !(
        plan[i] is CreateDir) by {
            let b: int = 1;
            let e = b + c.len();
            let h = e + f.len();
            let k = h + d.len();
            let n = k + s.len();
            if i < b {
                assert(plan[i] == m[0]);
            } else if i < e {
                assert(plan[i] == c[i - b]);
            } else if i < h {
                assert(plan[i] == f[i - e]);
            } else if i < k {
                assert(plan[i] == d[i - h]);
            } else if i < n {
                assert(plan[i] == s[i - k]);
            } else {
                assert(plan[i] == u[i - n]);
            }
        }
    }
}

/// The layout of the host decides which places become symlinks. On an
/// ostree-based host the system tree is linked where its tools look for it.
/// On any other host the data directories stay directories and the system
/// tree is not linked: no symlink is put in their places.
pub proof fn lemma_layout_decides_links(state: HostStateView, probe: StaticProbeView)
    ensures
        probe.layout == HostLayoutKind::OstreeBased ==> static_plan(state, probe).contains(
            OperationView::Symlink { target: "sysroot/ostree"@, link: "/host/ostree"@ },
        ),
        probe.layout == HostLayoutKind::Conventional ==> forall|i: int|
            0 <= i < links(static_plan(state, probe)).len() ==> {
                let place = #[trigger] links(static_plan(state, probe))[i];
                place != "/srv"@ && place != "/mnt"@ && place != "/home"@ && place
                    != "/host/ostree"@
            },
{
    let plan = static_plan(state, probe);
    if probe.layout == HostLayoutKind::OstreeBased {
        let head = layout_ops(probe.layout) + media_ops() + cleanup_ops(probe.tmp_entries)
            + forward_ops();
        let tail = device_ops(state.uid, probe.devices) + sudo_ops(
            state.username,
            probe.sudoers_dir,
        ) + user_ops(state, probe.sudoers_dir);
        assert(plan =~= head + system_tree_ops(probe.layout) + tail);
        assert(plan[head.len() as int] == system_tree_ops(probe.layout)[0]);
    } else {
        let all = links(plan);
        let p = link_places();
        let fixed = seq![p[3], p[4], p[5], p[6], p[7]];
        let d = device_links(state.uid, probe.devices);
        lemma_links_written_out(state, probe);
        lemma_link_places_differ();
        assert(all =~= fixed + d);
        assert forall|i: int| 0 <= i < all.len() implies {
            let place = #[trigger] all[i];
            place != p[0] && place != p[1] && place != p[2] && place != p[8]
        } by {
            if i < 5 {
                assert(all[i] == p[3 + i]);
            } else {
                let x = d[i - 5];
                assert(all[i] == x);
                assert(x == p[9] || x == p[10] || x == p[11] || x == p[12]);
            }
        }
    }
}

} // verus!
