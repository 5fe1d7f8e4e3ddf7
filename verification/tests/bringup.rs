use rdocker::bringup::{
    add_devices, create_container_rootfs, create_image_root, create_mounts, mount_bind_root,
    pivot_root_fs, set_cpu_cgroup, set_dns, set_hostname, set_memory_cgroup, Container, Launch,
    HANDOVER_FAILED,
};
use rdocker::plan::{Action, Step};
use rdocker::text::is_valid_id;

const ID: &str = "0123456789abcdef0123456789abcdef";
const ROOTFS: &str = "/tmp/rdocker/containers/0123456789abcdef0123456789abcdef/rootfs";

fn s(text: &str) -> String {
    text.to_owned()
}

fn always(action: Action) -> Step {
    Step { unless_exists: None, action }
}

fn unless(path: &str, action: Action) -> Step {
    Step { unless_exists: Some(s(path)), action }
}

fn ensure_dir(path: &str) -> Step {
    unless(path, Action::CreateDirAll { path: s(path) })
}

fn fs_mount(fstype: &str, target: &str, flags: u64, data: Option<&str>) -> Step {
    always(Action::Mount {
        source: Some(s(fstype)),
        target: s(target),
        fstype: Some(s(fstype)),
        flags,
        data: data.map(s),
    })
}

fn link(points_to: &str, link: &str) -> Step {
    always(Action::Symlink { points_to: s(points_to), link: s(link) })
}

fn node(path: &str, device: u64) -> Step {
    unless(path, Action::MakeNode { path: s(path), kind: 0o020000, perm: 0o666, device })
}

fn busybox(command: &[&str], cpu_shares: i32, uid: u32, gid: u32) -> Container {
    Container::with_id(
        s("busybox"),
        s("/tmp/rdocker/images"),
        s("/tmp/rdocker/containers"),
        command.iter().map(|part| s(part)).collect(),
        s(ID),
        s("512M"),
        -1,
        cpu_shares,
        uid,
        gid,
    )
    .unwrap()
}

fn expected_devices(rootfs: &str) -> Vec<Step> {
    let at = |name: &str| format!("{}/dev/{}", rootfs, name);
    vec![
        ensure_dir(&at("pts")),
        fs_mount("devpts", &at("pts"), 0, None),
        link("/proc/self/fd/0", &at("stdin")),
        link("/proc/self/fd/1", &at("stdout")),
        link("/proc/self/fd/2", &at("stderr")),
        node(&at("null"), 259),
        node(&at("zero"), 261),
        node(&at("random"), 264),
        node(&at("urandom"), 265),
        node(&at("console"), 34819),
        node(&at("null"), 259),
    ]
}

fn expected_mounts(rootfs: &str) -> Vec<Step> {
    let mut steps = vec![
        fs_mount("proc", &format!("{}/proc", rootfs), 0, None),
        fs_mount("sysfs", &format!("{}/sys", rootfs), 0, None),
        fs_mount("tmpfs", &format!("{}/dev", rootfs), 0x100_0002, Some("mode=755")),
    ];
    steps.extend(expected_devices(rootfs));
    steps
}

fn expected_rootfs() -> Vec<Step> {
    let workspace = "/tmp/rdocker/containers/0123456789abcdef0123456789abcdef";
    vec![
        unless(
            "/tmp/rdocker/images/busybox.root.d",
            Action::ExtractImage {
                archive: s("/tmp/rdocker/images/busybox.tar"),
                root: s("/tmp/rdocker/images/busybox.root.d"),
                lock: s("/tmp/rdocker/images/busybox.lock"),
                preserve_permissions: true,
            },
        ),
        ensure_dir(&format!("{}/cow_rw", workspace)),
        ensure_dir(&format!("{}/cow_workdir", workspace)),
        ensure_dir(&format!("{}/rootfs", workspace)),
        fs_mount(
            "overlay",
            ROOTFS,
            0x4,
            Some(&format!(
                "lowerdir=/tmp/rdocker/images/busybox.root.d,upperdir={}/cow_rw,workdir={}/cow_workdir",
                workspace, workspace
            )),
        ),
    ]
}

fn expected_pivot(rootfs: &str) -> Vec<Step> {
    vec![
        always(Action::CreateDirAll { path: format!("{}/old_root", rootfs) }),
        always(Action::PivotRoot {
            new_root: s(rootfs),
            put_old: format!("{}/old_root", rootfs),
        }),
        always(Action::ChangeDir { path: s("/") }),
        always(Action::Unmount { target: s("/old_root"), how: 2 }),
        always(Action::RemoveDirAll { path: s("/old_root") }),
    ]
}

fn write(path: &str, text: &str) -> Step {
    always(Action::WriteFile { path: s(path), text: s(text) })
}

#[test]
fn cpu_cgroup_gets_the_pid_and_the_shares() {
    let dir = "/sys/fs/cgroup/cpu/rubber_docker/0123456789abcdef0123456789abcdef";
    assert_eq!(
        set_cpu_cgroup(s(ID), 4711, 512),
        vec![
            always(Action::CreateDirAll { path: s(dir) }),
            write(&format!("{}/tasks", dir), "4711"),
            write(&format!("{}/cpu.shares", dir), "512"),
        ]
    );
}

#[test]
fn cpu_cgroup_with_default_shares_writes_zero() {
    let plan = set_cpu_cgroup(s(ID), 1, 0);
    assert_eq!(
        plan[2],
        write("/sys/fs/cgroup/cpu/rubber_docker/0123456789abcdef0123456789abcdef/cpu.shares", "0")
    );
}

#[test]
fn memory_cgroup_gets_the_limit_as_given() {
    let dir = "/sys/fs/cgroup/memory/rubber_docker/0123456789abcdef0123456789abcdef";
    assert_eq!(
        set_memory_cgroup(s(ID), s("1G"), -1),
        vec![
            always(Action::CreateDirAll { path: s(dir) }),
            write(&format!("{}/memory.limit_in_bytes", dir), "1G"),
        ]
    );
}

#[test]
fn memory_cgroup_does_not_write_the_swap_limit() {
    for swap in [-1, 0, 1 << 20].iter() {
        let plan = set_memory_cgroup(s(ID), s("512M"), *swap);
        assert_eq!(plan.len(), 2);
        for step in plan.iter() {
            if let Action::WriteFile { path, .. } = &step.action {
                assert!(!path.contains("memsw"));
            }
        }
    }
}

#[test]
fn hostname_is_set_to_what_is_given() {
    assert_eq!(set_hostname(s(ID)), Action::SetHostname { name: s(ID) });
}

#[test]
fn dns_points_at_the_public_name_server() {
    assert_eq!(
        set_dns(),
        Action::WriteFile { path: s("/etc/resolv.conf"), text: s("nameserver 8.8.8.8") }
    );
}

#[test]
fn root_is_made_private_recursively() {
    assert_eq!(
        mount_bind_root(),
        Action::Mount {
            source: None,
            target: s("/"),
            fstype: None,
            flags: 0x40000 | 0x4000,
            data: None
        }
    );
}

#[test]
fn pivot_swaps_the_root_and_lets_the_old_one_go() {
    assert_eq!(pivot_root_fs(s(ROOTFS)), expected_pivot(ROOTFS));
}

#[test]
fn image_root_is_made_from_the_archive_unless_it_is_there() {
    let (root, step) = create_image_root(s("busybox"), s("/tmp/rdocker/images"));
    assert_eq!(root, "/tmp/rdocker/images/busybox.root.d");
    assert_eq!(step, expected_rootfs()[0]);
    assert!(step.due(false));
    assert!(!step.due(true));
}

#[test]
fn container_rootfs_is_an_overlay_over_the_image() {
    let (rootfs, plan) = create_container_rootfs(
        s(ID),
        s("/tmp/rdocker/containers"),
        s("busybox"),
        s("/tmp/rdocker/images"),
    );
    assert_eq!(rootfs, ROOTFS);
    assert_eq!(plan, expected_rootfs());
}

#[test]
fn devices_are_links_and_character_devices() {
    assert_eq!(add_devices(s(ROOTFS)), expected_devices(ROOTFS));
}

#[test]
fn devices_list_null_twice() {
    let plan = add_devices(s("/r"));
    let nulls = plan
        .iter()
        .filter(|step| matches!(&step.action, Action::MakeNode { path, .. } if path == "/r/dev/null"))
        .count();
    assert_eq!(nulls, 2);
    assert_eq!(plan[5], plan[10]);
}

#[test]
fn device_nodes_are_skipped_where_something_exists() {
    for step in add_devices(s("/r")).iter() {
        if let Action::MakeNode { path, .. } = &step.action {
            assert_eq!(step.unless_exists.as_ref(), Some(path));
            assert!(step.due(false));
            assert!(!step.due(true));
        }
    }
}

#[test]
fn devices_hold_nothing_that_an_image_names() {
    for step in add_devices(s(ROOTFS)).iter() {
        match &step.action {
            Action::MakeNode { path, .. } => assert!(!path.ends_with("/dev/foo")),
            Action::Symlink { link, .. } => assert!(!link.ends_with("/dev/foo")),
            _ => {}
        }
    }
}

#[test]
fn mounts_are_proc_sys_dev_and_pts() {
    let plan = create_mounts(s(ROOTFS));
    assert_eq!(plan, expected_mounts(ROOTFS));
    let mounts: Vec<&Step> =
        plan.iter().filter(|step| matches!(step.action, Action::Mount { .. })).collect();
    assert_eq!(mounts.len(), 4);
}

#[test]
fn mounts_under_a_root_with_a_trailing_separator() {
    let plan = create_mounts(s("/r/"));
    assert_eq!(plan, expected_mounts("/r"));
}

#[test]
fn a_new_container_has_a_valid_identifier() {
    let container = Container::new(
        s("busybox"),
        s("/i"),
        s("/c"),
        vec![s("/bin/sh")],
        s("1G"),
        -1,
        0,
        0,
        0,
    );
    assert!(is_valid_id(container.container_id()));
    assert_eq!(container.image_name(), "busybox");
    assert_eq!(container.image_dir(), "/i");
    assert_eq!(container.container_dir(), "/c");
    assert_eq!(container.command(), &vec![s("/bin/sh")]);
    assert_eq!(container.memory(), "1G");
    assert_eq!(container.memory_swap(), -1);
    assert_eq!(container.cpu_shares(), 0);
    assert_eq!(container.uid(), 0);
    assert_eq!(container.gid(), 0);
}

#[test]
fn new_containers_have_different_identifiers() {
    let make = || Container::new(s("b"), s("/i"), s("/c"), vec![], s("1G"), -1, 0, 0, 0);
    assert_ne!(make().container_id(), make().container_id());
}

#[test]
fn a_container_takes_a_valid_identifier() {
    let container = busybox(&["/bin/echo", "hello"], 512, 1000, 100);
    assert_eq!(container.container_id(), ID);
    assert_eq!(container.command(), &vec![s("/bin/echo"), s("hello")]);
    assert_eq!(container.memory(), "512M");
    assert_eq!(container.cpu_shares(), 512);
    assert_eq!(container.uid(), 1000);
    assert_eq!(container.gid(), 100);
}

#[test]
fn a_container_refuses_an_identifier_of_another_shape() {
    for id in ["", "abc", "0123456789ABCDEF0123456789ABCDEF", "../../../../../../../../../../etc"]
        .iter()
    {
        let made =
            Container::with_id(s("b"), s("/i"), s("/c"), vec![], s(id), s("1G"), -1, 0, 0, 0);
        assert!(made.is_none());
    }
}

#[test]
fn the_parent_asks_for_four_namespaces_and_a_mebibyte_of_stack() {
    let launch = busybox(&["/bin/true"], 0, 0, 0).run();
    assert_eq!(launch, Launch { flags: 0x6402_0000, stack_size: 1_048_576, wait_flags: i32::MIN });
}

#[test]
fn the_guest_takes_its_steps_in_order() {
    let container = busybox(&["/bin/echo", "hello"], 512, 1000, 100);
    let plan = container.contain(4711);

    let mut expected = vec![write("container.cid", ID)];
    expected.extend(set_cpu_cgroup(s(ID), 4711, 512));
    expected.extend(set_memory_cgroup(s(ID), s("512M"), -1));
    expected.push(always(Action::SetHostname { name: s(ID) }));
    expected.push(always(mount_bind_root()));
    expected.extend(expected_rootfs());
    expected.extend(expected_mounts(ROOTFS));
    expected.extend(expected_pivot(ROOTFS));
    expected.push(write("/etc/resolv.conf", "nameserver 8.8.8.8"));
    expected.push(always(Action::SetGid { gid: 100 }));
    expected.push(always(Action::SetUid { uid: 1000 }));
    expected.push(always(Action::Execute { command: vec![s("/bin/echo"), s("hello")] }));

    assert_eq!(plan.len(), 36);
    assert_eq!(plan, expected);
}

fn position(plan: &[Step], wanted: impl Fn(&Action) -> bool) -> usize {
    plan.iter().position(|step| wanted(&step.action)).unwrap()
}

#[test]
fn the_root_is_private_before_anything_is_mounted() {
    let plan = busybox(&["/bin/true"], 0, 0, 0).contain(1);
    let private = position(&plan, |a| *a == mount_bind_root());
    assert_eq!(private, position(&plan, |a| matches!(a, Action::Mount { .. })));
}

#[test]
fn the_overlay_is_mounted_before_anything_inside_it() {
    let plan = busybox(&["/bin/true"], 0, 0, 0).contain(1);
    let overlay = position(&plan, |a| matches!(a, Action::Mount { target, .. } if target == ROOTFS));
    for (i, step) in plan.iter().enumerate() {
        if let Action::Mount { target, .. } = &step.action {
            if target.starts_with(ROOTFS) && target != ROOTFS {
                assert!(overlay < i);
            }
        }
    }
}

#[test]
fn enrolment_comes_before_the_drop_of_privileges() {
    let plan = busybox(&["/bin/true"], 7, 1000, 100).contain(99);
    let gid = position(&plan, |a| matches!(a, Action::SetGid { .. }));
    let uid = position(&plan, |a| matches!(a, Action::SetUid { .. }));
    let exec = position(&plan, |a| matches!(a, Action::Execute { .. }));
    assert_eq!((gid, uid, exec), (33, 34, 35));
    for (i, step) in plan.iter().enumerate() {
        if let Action::WriteFile { path, .. } = &step.action {
            if path.starts_with("/sys/fs/cgroup/") {
                assert!(i < gid);
            }
        }
    }
}

#[test]
fn the_old_root_is_gone_before_the_command_runs() {
    let plan = busybox(&["/bin/true"], 0, 0, 0).contain(1);
    let pivot = position(&plan, |a| matches!(a, Action::PivotRoot { .. }));
    let unmount = position(&plan, |a| matches!(a, Action::Unmount { .. }));
    let remove = position(&plan, |a| matches!(a, Action::RemoveDirAll { .. }));
    let exec = position(&plan, |a| matches!(a, Action::Execute { .. }));
    assert!(pivot < unmount && unmount < remove && remove < exec);
    assert_eq!(plan[remove].action, Action::RemoveDirAll { path: s("/old_root") });
    for step in plan[remove + 1..].iter() {
        assert!(!matches!(step.action, Action::CreateDirAll { .. } | Action::Mount { .. }));
    }
}

#[test]
fn the_command_runs_under_the_configured_ids() {
    let plan = busybox(&["/bin/id"], 0, 1234, 5678).contain(1);
    assert_eq!(plan[33].action, Action::SetGid { gid: 5678 });
    assert_eq!(plan[34].action, Action::SetUid { uid: 1234 });
    assert_eq!(plan[35].action, Action::Execute { command: vec![s("/bin/id")] });
}

#[test]
fn the_hostname_is_the_identifier() {
    let plan = busybox(&["/bin/hostname"], 0, 0, 0).contain(1);
    assert_eq!(plan[6].action, Action::SetHostname { name: s(ID) });
    assert_eq!(plan[0], write("container.cid", ID));
}

#[test]
fn cpu_shares_reach_the_control_file() {
    let plan = busybox(&["/bin/true"], 512, 0, 0).contain(1);
    assert_eq!(
        plan[3],
        write(
            "/sys/fs/cgroup/cpu/rubber_docker/0123456789abcdef0123456789abcdef/cpu.shares",
            "512"
        )
    );
    assert_eq!(
        plan[2],
        write("/sys/fs/cgroup/cpu/rubber_docker/0123456789abcdef0123456789abcdef/tasks", "1")
    );
    assert_eq!(
        plan[5],
        write(
            "/sys/fs/cgroup/memory/rubber_docker/0123456789abcdef0123456789abcdef/memory.limit_in_bytes",
            "512M"
        )
    );
}

#[test]
fn an_empty_command_is_handed_over_as_it_is() {
    let plan = busybox(&[], 0, 0, 0).contain(1);
    assert_eq!(plan[35].action, Action::Execute { command: vec![] });
}

#[test]
fn a_failed_handover_ends_with_a_status_other_than_zero() {
    assert_eq!(HANDOVER_FAILED, 2);
}

#[test]
fn steps_without_a_path_are_always_due() {
    let step = Step::always(set_dns());
    assert!(step.due(false));
    assert!(step.due(true));
    let guarded = Step::unless_exists(s("/x"), Action::CreateDirAll { path: s("/x") });
    assert_eq!(guarded.unless_exists, Some(s("/x")));
    assert!(guarded.due(false));
    assert!(!guarded.due(true));
}
