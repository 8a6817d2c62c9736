//! The fixed lists of what is forwarded from the host into the container.

use vstd::prelude::*;
use crate::text::join2;
use crate::text::push_str;

verus! {

/// The paths that become symlinks into the host: the directories of the
/// message bus and of the virtualization sockets, and the two temporary
/// directories.
pub open spec fn static_forwards() -> Seq<Seq<char>> {
    seq!["/run/dbus"@, "/run/libvirt"@, "/tmp"@, "/var/tmp"@]
}

/// The devices below `/dev` that are forwarded where the host has them.
pub open spec fn forwarded_devices() -> Seq<Seq<char>> {
    seq!["bus"@, "dri"@, "kvm"@, "fuse"@]
}

/// The directories that are bind mounts of the host's, so that a path means
/// the same inside and outside.
pub open spec fn data_dirs() -> Seq<Seq<char>> {
    seq!["/srv"@, "/mnt"@, "/home"@]
}

/// The paths that become symlinks into the host.
pub fn symlink_forwards() -> (v: Vec<String>)
    ensures
        v.deep_view() == static_forwards(),
{
    let mut v: Vec<String> = Vec::new();
    assert(v.deep_view() =~= Seq::<Seq<char>>::empty());
    push_str(&mut v, "/run/dbus");
    push_str(&mut v, "/run/libvirt");
    push_str(&mut v, "/tmp");
    push_str(&mut v, "/var/tmp");
    assert(v.deep_view() =~= static_forwards());
    v
}

/// The devices below `/dev` that are forwarded where the host has them.
pub fn device_forwards() -> (v: Vec<String>)
    ensures
        v.deep_view() == forwarded_devices(),
{
    let mut v: Vec<String> = Vec::new();
    assert(v.deep_view() =~= Seq::<Seq<char>>::empty());
    push_str(&mut v, "bus");
    push_str(&mut v, "dri");
    push_str(&mut v, "kvm");
    push_str(&mut v, "fuse");
    assert(v.deep_view() =~= forwarded_devices());
    v
}

/// The directories that are bind mounts of the host's.
pub fn bind_forwards() -> (v: Vec<String>)
    ensures
        v.deep_view() == data_dirs(),
{
    let mut v: Vec<String> = Vec::new();
    assert(v.deep_view() =~= Seq::<Seq<char>>::empty());
    push_str(&mut v, "/srv");
    push_str(&mut v, "/mnt");
    push_str(&mut v, "/home");
    assert(v.deep_view() =~= data_dirs());
    v
}

/// The path of the device `name`.
pub open spec fn device_path(name: Seq<char>) -> Seq<char> {
    "/dev/"@ + name
}

/// The path of the device `name`.
pub fn device_node(name: &str) -> (r: String)
    ensures
        r@ == device_path(name@),
{
    join2("/dev/", name)
}

/// Where the data directory `dir` lives on an ostree-based host: below
/// `/var`.
pub open spec fn relocated(dir: Seq<char>) -> Seq<char> {
    "/var"@ + dir
}

/// Where the data directory `dir` lives on an ostree-based host.
pub fn relocated_dir(dir: &str) -> (r: String)
    ensures
        r@ == relocated(dir@),
{
    join2("/var", dir)
}

/// How a path of the host is shown in the container.
#[derive(Clone, Copy, Debug, PartialEq, Eq, Structural)]
pub enum ForwardKind {
    /// By a symlink into the host, made in the one-time phase.
    Symlink,
    /// By a bind mount of the host's directory, made in the per-boot phase.
    Bind,
    /// By a symlink to the host's device node, made in the one-time phase
    /// where the host has the node and the container lacks it.
    Device,
}

/// One entry of the fixed table of what is forwarded.
#[derive(Debug, PartialEq, Eq)]
pub struct ForwardSpec {
    pub kind: ForwardKind,
    /// The path in the container.
    pub path: String,
}

/// A `ForwardSpec` with its path as a sequence of characters.
pub struct ForwardSpecView {
    pub kind: ForwardKind,
    pub path: Seq<char>,
}

impl View for ForwardSpec {
    type V = ForwardSpecView;

    open spec fn view(&self) -> ForwardSpecView {
        ForwardSpecView { kind: self.kind, path: self.path@ }
    }
}

impl DeepView for ForwardSpec {
    type V = ForwardSpecView;

    open spec fn deep_view(&self) -> ForwardSpecView {
        self@
    }
}

/// The whole table: the symlinks, then the devices, then the bind mounts.
pub open spec fn forward_table() -> Seq<ForwardSpecView> {
    static_forwards().map_values(
        |p: Seq<char>| ForwardSpecView { kind: ForwardKind::Symlink, path: p },
    ) + forwarded_devices().map_values(
        |d: Seq<char>| ForwardSpecView { kind: ForwardKind::Device, path: device_path(d) },
    ) + data_dirs().map_values(|p: Seq<char>| ForwardSpecView { kind: ForwardKind::Bind, path: p })
}

fn push_specs(table: &mut Vec<ForwardSpec>, kind: ForwardKind, prefix: &str, names: &Vec<String>)
    ensures
        final(table).deep_view() == old(table).deep_view() + names.deep_view().map_values(
            |n: Seq<char>| ForwardSpecView { kind, path: prefix@ + n },
        ),
{
    let ghost before = table.deep_view();
    let ghost more = names.deep_view().map_values(
        |n: Seq<char>| ForwardSpecView { kind, path: prefix@ + n },
    );
    let mut i: usize = 0;
    assert(table.deep_view() =~= before + more.subrange(0, 0));
    while i < names.len()
        invariant
            i <= names.len(),
            more == names.deep_view().map_values(
                |n: Seq<char>| ForwardSpecView { kind, path: prefix@ + n },
            ),
            table.deep_view() == before + more.subrange(0, i as int),
        decreases names.len() - i,
    {
        let ghost sofar = table.deep_view();
        table.push(ForwardSpec { kind, path: join2(prefix, names[i].as_str()) });
        assert(names.deep_view()[i as int] == names[i as int]@);
        assert(table.deep_view() =~= sofar.push(more[i as int]));
        assert(table.deep_view() =~= before + more.subrange(0, i + 1));
        i += 1;
    }
    assert(names.len() == names.deep_view().len());
    assert(more.subrange(0, names.len() as int) =~= more);
}

/// The whole table of what is forwarded. It is part of the program and
/// cannot be changed by the user.
pub fn forward_specs() -> (table: Vec<ForwardSpec>)
    ensures
        table.deep_view() == forward_table(),
{
    let mut table: Vec<ForwardSpec> = Vec::new();
    assert(table.deep_view() =~= Seq::<ForwardSpecView>::empty());
    push_specs(&mut table, ForwardKind::Symlink, "", &symlink_forwards());
    push_specs(&mut table, ForwardKind::Device, "/dev/", &device_forwards());
    push_specs(&mut table, ForwardKind::Bind, "", &bind_forwards());
    proof {
        reveal_strlit("");
        assert forall|p: Seq<char>| ""@ + p =~= p by {}
        assert(static_forwards().map_values(
            |n: Seq<char>| ForwardSpecView { kind: ForwardKind::Symlink, path: ""@ + n },
        ) =~= static_forwards().map_values(
            |p: Seq<char>| ForwardSpecView { kind: ForwardKind::Symlink, path: p },
        ));
        assert(forwarded_devices().map_values(
            |n: Seq<char>| ForwardSpecView { kind: ForwardKind::Device, path: "/dev/"@ + n },
        ) =~= forwarded_devices().map_values(
            |d: Seq<char>| ForwardSpecView { kind: ForwardKind::Device, path: device_path(d) },
        ));
        assert(data_dirs().map_values(
            |n: Seq<char>| ForwardSpecView { kind: ForwardKind::Bind, path: ""@ + n },
        ) =~= data_dirs().map_values(
            |p: Seq<char>| ForwardSpecView { kind: ForwardKind::Bind, path: p },
        ));
    }
    table
}

} // verus!
