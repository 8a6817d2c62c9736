use coretoolbox::host::HostLayoutKind;
use coretoolbox::ops::Operation;
use coretoolbox::runtime_init::plan_runtime;
use coretoolbox::runtime_init::RuntimeProbe;

fn mount(source: &str, target: &str) -> Operation {
    Operation::BindMount { source: String::from(source), target: String::from(target) }
}

fn settled(layout: HostLayoutKind) -> RuntimeProbe {
    RuntimeProbe {
        runtime_dir: String::from("/run/user/1000"),
        runtime_dir_present: true,
        selinux_status: false,
        empty_dir_present: true,
        layout,
    }
}

#[test]
fn data_directories_on_a_conventional_host() {
    assert_eq!(
        plan_runtime(&settled(HostLayoutKind::Conventional)),
        vec![mount("/host/srv", "/srv"), mount("/host/mnt", "/mnt"), mount("/host/home", "/home")]
    );
}

#[test]
fn data_directories_on_an_ostree_based_host() {
    assert_eq!(
        plan_runtime(&settled(HostLayoutKind::OstreeBased)),
        vec![
            mount("/host/var/srv", "/var/srv"),
            mount("/host/var/mnt", "/var/mnt"),
            mount("/host/var/home", "/var/home"),
        ]
    );
}

#[test]
fn the_runtime_directory_is_forwarded_where_it_is_absent() {
    let mut probe = settled(HostLayoutKind::Conventional);
    probe.runtime_dir_present = false;
    let plan = plan_runtime(&probe);
    assert_eq!(
        &plan[..3],
        &[
            Operation::CreateParents { path: String::from("/run/user/1000") },
            Operation::RemoveTree { path: String::from("/run/user/1000") },
            Operation::Symlink {
                target: String::from("/host/run/user/1000"),
                link: String::from("/run/user/1000"),
            },
        ]
    );
    assert_eq!(plan.len(), 6);
}

#[test]
fn the_security_module_is_covered() {
    let mut probe = settled(HostLayoutKind::Conventional);
    probe.selinux_status = true;
    let plan = plan_runtime(&probe);
    assert_eq!(plan[0], mount("/usr/share/empty", "/sys/fs/selinux/status"));
    assert_eq!(plan.len(), 4);
    probe.empty_dir_present = false;
    let plan = plan_runtime(&probe);
    assert_eq!(
        &plan[..2],
        &[
            Operation::CreateDirAll { path: String::from("/usr/share/coretoolbox/empty") },
            mount("/usr/share/coretoolbox/empty", "/sys/fs/selinux/status"),
        ]
    );
    assert_eq!(plan.len(), 5);
}

#[test]
fn the_empty_directory_is_left_alone_without_the_module() {
    let mut probe = settled(HostLayoutKind::OstreeBased);
    probe.empty_dir_present = false;
    assert_eq!(plan_runtime(&probe).len(), 3);
}

#[test]
fn everything_at_once() {
    let probe = RuntimeProbe {
        runtime_dir: String::from("/tmp/rt"),
        runtime_dir_present: false,
        selinux_status: true,
        empty_dir_present: false,
        layout: HostLayoutKind::OstreeBased,
    };
    assert_eq!(
        plan_runtime(&probe),
        vec![
            Operation::CreateParents { path: String::from("/tmp/rt") },
            Operation::RemoveTree { path: String::from("/tmp/rt") },
            Operation::Symlink { target: String::from("/host/tmp/rt"), link: String::from("/tmp/rt") },
            Operation::CreateDirAll { path: String::from("/usr/share/coretoolbox/empty") },
            mount("/usr/share/coretoolbox/empty", "/sys/fs/selinux/status"),
            mount("/host/var/srv", "/var/srv"),
            mount("/host/var/mnt", "/var/mnt"),
            mount("/host/var/home", "/var/home"),
        ]
    );
}

#[test]
fn on_an_ostree_based_host_nothing_is_mounted_on_the_usual_places() {
    for status in [false, true] {
        let mut probe = settled(HostLayoutKind::OstreeBased);
        probe.selinux_status = status;
        probe.runtime_dir_present = false;
        for op in plan_runtime(&probe) {
            if let Operation::BindMount { target, .. } = op {
                assert!(!["/srv", "/mnt", "/home"].contains(&target.as_str()));
                assert!(target.starts_with('/'));
            }
        }
    }
}

#[test]
fn the_status_node_is_covered_only_where_it_shows() {
    for status in [false, true] {
        for empty in [false, true] {
            let mut probe = settled(HostLayoutKind::Conventional);
            probe.selinux_status = status;
            probe.empty_dir_present = empty;
            let covering: Vec<Operation> = plan_runtime(&probe)
                .into_iter()
                .filter(|op| matches!(op, Operation::BindMount { target, .. } if target == "/sys/fs/selinux/status"))
                .collect();
            let source = if empty { "/usr/share/empty" } else { "/usr/share/coretoolbox/empty" };
            let expected = if status { vec![mount(source, "/sys/fs/selinux/status")] } else { Vec::new() };
            assert_eq!(covering, expected);
        }
    }
}
