use coretoolbox::error::ToolboxError;
use coretoolbox::forward::bind_forwards;
use coretoolbox::forward::device_forwards;
use coretoolbox::forward::forward_specs;
use coretoolbox::forward::symlink_forwards;
use coretoolbox::forward::ForwardKind;
use coretoolbox::forward::ForwardSpec;
use coretoolbox::host::HostLayoutKind;
use coretoolbox::host::HostState;
use coretoolbox::ops::bind_mount;
use coretoolbox::ops::host_path_of;
use coretoolbox::ops::host_symlink;
use coretoolbox::ops::Operation;
use coretoolbox::static_init::plan_static;
use coretoolbox::static_init::DeviceProbe;
use coretoolbox::static_init::StaticProbe;

fn alice() -> HostState {
    HostState { username: String::from("alice"), uid: 1000, home: String::from("/home/alice") }
}

fn root() -> HostState {
    HostState { username: String::from("root"), uid: 0, home: String::from("/root") }
}

fn absent() -> DeviceProbe {
    DeviceProbe { inside: false, on_host: false }
}

fn to_forward() -> DeviceProbe {
    DeviceProbe { inside: false, on_host: true }
}

fn bare(layout: HostLayoutKind) -> StaticProbe {
    StaticProbe { layout, tmp_entries: Vec::new(), devices: [absent(); 4], sudoers_dir: false }
}

fn symlink(target: &str, link: &str) -> Operation {
    Operation::Symlink { target: String::from(target), link: String::from(link) }
}

fn replaced(path: &str) -> Vec<Operation> {
    vec![
        Operation::CreateParents { path: String::from(path) },
        Operation::RemoveTree { path: String::from(path) },
        symlink(&format!("/host{}", path), path),
    ]
}

fn forwards() -> Vec<Operation> {
    let mut ops = Vec::new();
    for path in ["/run/dbus", "/run/libvirt", "/tmp", "/var/tmp"] {
        ops.extend(replaced(path));
    }
    ops
}

fn relocation() -> Vec<Operation> {
    let mut ops = Vec::new();
    for (dir, below) in [("/srv", "/var/srv"), ("/mnt", "/var/mnt"), ("/home", "/var/home")] {
        ops.push(Operation::RemoveDir { path: String::from(dir) });
        ops.push(Operation::CreateDir { path: String::from(below) });
        ops.push(symlink(below, dir));
    }
    ops
}

fn user_of_alice(admin: bool) -> Vec<Operation> {
    vec![
        Operation::AddUser {
            username: String::from("alice"),
            uid: 1000,
            home: String::from("/home/alice"),
            admin,
        },
        Operation::CreateDirAll { path: String::from("/home/alice") },
        Operation::Chown { path: String::from("/home/alice"), uid: 1000, gid: 1000 },
        Operation::BindMount {
            source: String::from("/host/home/alice"),
            target: String::from("/home/alice"),
        },
    ]
}

fn links_of(plan: &[Operation]) -> Vec<String> {
    plan.iter()
        .filter_map(|op| match op {
            Operation::Symlink { link, .. } => Some(link.clone()),
            _ => None,
        })
        .collect()
}

#[test]
fn the_fixed_lists() {
    assert_eq!(symlink_forwards(), vec!["/run/dbus", "/run/libvirt", "/tmp", "/var/tmp"]);
    assert_eq!(device_forwards(), vec!["bus", "dri", "kvm", "fuse"]);
    assert_eq!(bind_forwards(), vec!["/srv", "/mnt", "/home"]);
}

#[test]
fn the_whole_table() {
    let spec = |kind, path: &str| ForwardSpec { kind, path: String::from(path) };
    assert_eq!(
        forward_specs(),
        vec![
            spec(ForwardKind::Symlink, "/run/dbus"),
            spec(ForwardKind::Symlink, "/run/libvirt"),
            spec(ForwardKind::Symlink, "/tmp"),
            spec(ForwardKind::Symlink, "/var/tmp"),
            spec(ForwardKind::Device, "/dev/bus"),
            spec(ForwardKind::Device, "/dev/dri"),
            spec(ForwardKind::Device, "/dev/kvm"),
            spec(ForwardKind::Device, "/dev/fuse"),
            spec(ForwardKind::Bind, "/srv"),
            spec(ForwardKind::Bind, "/mnt"),
            spec(ForwardKind::Bind, "/home"),
        ]
    );
}

#[test]
fn the_two_bridges() {
    assert_eq!(host_path_of("/etc/passwd"), "/host/etc/passwd");
    assert_eq!(host_path_of(""), "/host");
    assert_eq!(
        bind_mount("/host/home/alice", "/home/alice"),
        Operation::BindMount {
            source: String::from("/host/home/alice"),
            target: String::from("/home/alice"),
        }
    );
    let mut plan = vec![Operation::RemoveFile { path: String::from("/x") }];
    host_symlink(&mut plan, "/run/dbus/system_bus_socket");
    assert_eq!(
        plan,
        vec![
            Operation::RemoveFile { path: String::from("/x") },
            Operation::CreateParents { path: String::from("/run/dbus/system_bus_socket") },
            Operation::RemoveTree { path: String::from("/run/dbus/system_bus_socket") },
            symlink("/host/run/dbus/system_bus_socket", "/run/dbus/system_bus_socket"),
        ]
    );
}

#[test]
fn commands_of_changes() {
    assert_eq!(
        bind_mount("/host/srv", "/srv").command(),
        Some(vec![
            String::from("mount"),
            String::from("--rbind"),
            String::from("/host/srv"),
            String::from("/srv"),
        ])
    );
    let plain: Vec<String> = user_of_alice(false)[0].command().unwrap();
    assert_eq!(
        plain,
        vec!["useradd", "--no-create-home", "--home-dir", "/home/alice", "--uid", "1000", "alice"]
    );
    let admin: Vec<String> = user_of_alice(true)[0].command().unwrap();
    assert_eq!(
        admin,
        vec![
            "useradd",
            "--no-create-home",
            "--home-dir",
            "/home/alice",
            "--uid",
            "1000",
            "--groups",
            "wheel",
            "alice",
        ]
    );
    assert_eq!(symlink("a", "b").command(), None);
    assert_eq!(Operation::RemoveDir { path: String::from("/srv") }.command(), None);
    assert_eq!(Operation::Chown { path: String::from("/h"), uid: 1, gid: 1 }.command(), None);
}

#[test]
fn failures_of_changes() {
    let detail = || String::from("it failed");
    assert_eq!(symlink("a", "b").failure("it failed"), ToolboxError::Mount { detail: detail() });
    assert_eq!(
        bind_mount("a", "b").failure("it failed"),
        ToolboxError::Mount { detail: detail() }
    );
    assert_eq!(
        Operation::RemoveDir { path: String::from("/srv") }.failure("it failed"),
        ToolboxError::Mount { detail: detail() }
    );
    for op in user_of_alice(true).iter().take(1) {
        assert_eq!(op.failure("it failed"), ToolboxError::Provision { detail: detail() });
    }
    assert_eq!(
        Operation::Chown { path: String::from("/h"), uid: 1, gid: 1 }.failure("it failed"),
        ToolboxError::Provision { detail: detail() }
    );
    assert_eq!(
        Operation::WriteRule { path: String::from("/p"), line: String::from("l") }.failure("no"),
        ToolboxError::Provision { detail: String::from("no") }
    );
}

#[test]
fn a_user_on_a_conventional_host() {
    let probe = StaticProbe {
        layout: HostLayoutKind::Conventional,
        tmp_entries: vec![
            String::from("ks-script-abc"),
            String::from("other"),
            String::from("ks-script-"),
            String::from("ks-script"),
        ],
        devices: [
            to_forward(),
            DeviceProbe { inside: true, on_host: true },
            absent(),
            to_forward(),
        ],
        sudoers_dir: true,
    };
    let mut expected = vec![
        symlink("/host/run/media", "/run/media"),
        Operation::RemoveFile { path: String::from("/tmp/ks-script-abc") },
        Operation::RemoveFile { path: String::from("/tmp/ks-script-") },
    ];
    expected.extend(forwards());
    expected.push(symlink("/host/dev/bus", "/dev/bus"));
    expected.push(symlink("/host/dev/fuse", "/dev/fuse"));
    expected.push(Operation::WriteRule {
        path: String::from("/etc/sudoers.d/toolbox-alice"),
        line: String::from("alice ALL=(ALL) NOPASSWD: ALL"),
    });
    expected.extend(user_of_alice(true));
    assert_eq!(plan_static(&alice(), &probe), expected);
}

#[test]
fn a_user_on_an_ostree_based_host() {
    let probe = StaticProbe {
        layout: HostLayoutKind::OstreeBased,
        tmp_entries: Vec::new(),
        devices: [absent(), absent(), to_forward(), absent()],
        sudoers_dir: false,
    };
    let mut expected = relocation();
    expected.push(symlink("/host/run/media", "/run/media"));
    expected.extend(forwards());
    expected.push(symlink("sysroot/ostree", "/host/ostree"));
    expected.push(symlink("/host/dev/kvm", "/dev/kvm"));
    expected.extend(user_of_alice(false));
    assert_eq!(plan_static(&alice(), &probe), expected);
}

#[test]
fn root_gets_no_user_and_no_devices() {
    let probe = StaticProbe {
        layout: HostLayoutKind::Conventional,
        tmp_entries: Vec::new(),
        devices: [to_forward(); 4],
        sudoers_dir: true,
    };
    let mut expected = vec![symlink("/host/run/media", "/run/media")];
    expected.extend(forwards());
    expected.push(Operation::WriteRule {
        path: String::from("/etc/sudoers.d/toolbox-root"),
        line: String::from("root ALL=(ALL) NOPASSWD: ALL"),
    });
    let plan = plan_static(&root(), &probe);
    assert_eq!(plan, expected);
    for path in ["/run/dbus", "/run/libvirt", "/tmp", "/var/tmp"] {
        assert!(plan.contains(&symlink(&format!("/host{}", path), path)));
    }
}

#[test]
fn the_least_there_is_to_do() {
    let mut expected = vec![symlink("/host/run/media", "/run/media")];
    expected.extend(forwards());
    assert_eq!(plan_static(&root(), &bare(HostLayoutKind::Conventional)), expected);
}

#[test]
fn a_device_is_never_overwritten() {
    for inside in [false, true] {
        for on_host in [false, true] {
            let mut probe = bare(HostLayoutKind::Conventional);
            probe.devices[1] = DeviceProbe { inside, on_host };
            let plan = plan_static(&alice(), &probe);
            let forwarded = plan.contains(&symlink("/host/dev/dri", "/dev/dri"));
            assert_eq!(forwarded, !inside && on_host);
        }
    }
}

#[test]
fn the_layout_decides_the_relocation() {
    let ostree = plan_static(&alice(), &bare(HostLayoutKind::OstreeBased));
    assert_eq!(&ostree[..9], &relocation()[..]);
    let conventional = plan_static(&alice(), &bare(HostLayoutKind::Conventional));
    assert_eq!(conventional[0], symlink("/host/run/media", "/run/media"));
    assert!(!conventional
        .iter()
        .any(|op| matches!(op, Operation::RemoveDir { .. } | Operation::CreateDir { .. })));
    assert_eq!(ostree.len(), conventional.len() + 10);
}

#[test]
fn the_layout_decides_the_links() {
    let probe = |layout| StaticProbe {
        layout,
        tmp_entries: Vec::new(),
        devices: [to_forward(); 4],
        sudoers_dir: true,
    };
    let ostree = plan_static(&alice(), &probe(HostLayoutKind::OstreeBased));
    assert!(ostree.contains(&symlink("sysroot/ostree", "/host/ostree")));
    for (dir, below) in [("/srv", "/var/srv"), ("/mnt", "/var/mnt"), ("/home", "/var/home")] {
        assert!(ostree.contains(&symlink(below, dir)));
        assert!(ostree.contains(&Operation::CreateDir { path: String::from(below) }));
    }
    let conventional = links_of(&plan_static(&alice(), &probe(HostLayoutKind::Conventional)));
    for place in ["/srv", "/mnt", "/home", "/host/ostree"] {
        assert!(!conventional.iter().any(|l| l == place));
    }
}

#[test]
fn no_place_gets_a_symlink_twice() {
    for layout in [HostLayoutKind::OstreeBased, HostLayoutKind::Conventional] {
        for state in [alice(), root()] {
            let probe = StaticProbe {
                layout,
                tmp_entries: vec![String::from("ks-script-1")],
                devices: [to_forward(); 4],
                sudoers_dir: true,
            };
            let plan = plan_static(&state, &probe);
            let mut links = links_of(&plan);
            let count = links.len();
            links.sort();
            links.dedup();
            assert_eq!(links.len(), count);
            let users = plan.iter().filter(|op| matches!(op, Operation::AddUser { .. })).count();
            assert_eq!(users, if state.uid == 0 { 0 } else { 1 });
            let rules = plan.iter().filter(|op| matches!(op, Operation::WriteRule { .. })).count();
            assert_eq!(rules, 1);
        }
    }
}

#[test]
fn all_thirteen_places() {
    let probe = StaticProbe {
        layout: HostLayoutKind::OstreeBased,
        tmp_entries: Vec::new(),
        devices: [to_forward(); 4],
        sudoers_dir: false,
    };
    assert_eq!(
        links_of(&plan_static(&alice(), &probe)),
        vec![
            "/srv",
            "/mnt",
            "/home",
            "/run/media",
            "/run/dbus",
            "/run/libvirt",
            "/tmp",
            "/var/tmp",
            "/host/ostree",
            "/dev/bus",
            "/dev/dri",
            "/dev/kvm",
            "/dev/fuse",
        ]
    );
}
