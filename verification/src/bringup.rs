//! The bring-up of a container: what the parent asks for when it starts the
//! guest, and the steps that the guest takes, in order, before it hands over to
//! the command.

use vstd::prelude::*;
use crate::flags::{
    char_device_bits, char_device_kind, detach_bits, detach_flags, device_id, device_number,
    namespace_bits, namespace_flags, overlay_bits, overlay_flags, propagation_bits,
    propagation_flags, tmpfs_bits, tmpfs_flags, wait_bits, wait_flags,
};
use crate::paths::{
    container_path, cpu_cgroup_dir, get_container_path, get_image_lock_path, get_image_path,
    get_image_root_path, image_archive, image_lock, image_root, join, joined, memory_cgroup_dir,
};
use crate::plan::{
    always, plan_view, push_step, push_steps, texts, unless_exists, Action, ActionModel, Step,
    StepModel,
};
use crate::text::{decimal, decimal_text, is_container_id};
use crate::util::{id_file, uuid, write_container_id};

verus! {

/// A mount of a file system that has no backing device: the source token is
/// the name of the file system type.
pub open spec fn fs_mount(
    fstype: Seq<char>,
    target: Seq<char>,
    flags: u64,
    data: Option<Seq<char>>,
) -> StepModel {
    always(
        ActionModel::Mount { source: Some(fstype), target, fstype: Some(fstype), flags, data },
    )
}

/// The steps that enrol a process under the CPU controller: make the
/// container's node, put the process id into `tasks`, and the weight into
/// `cpu.shares`.
pub open spec fn cpu_cgroup_plan(container_id: Seq<char>, pid: i32, cpu_shares: i32) -> Seq<
    StepModel,
> {
    let dir = cpu_cgroup_dir(container_id);
    seq![
        always(ActionModel::CreateDirAll { path: dir }),
        always(
            ActionModel::WriteFile { path: joined(dir, "tasks"@), text: decimal(pid as int) },
        ),
        always(
            ActionModel::WriteFile {
                path: joined(dir, "cpu.shares"@),
                text: decimal(cpu_shares as int),
            },
        ),
    ]
}

/// The steps that set a container's memory limit: make the container's node
/// under the memory controller and put the limit, as it was given, into
/// `memory.limit_in_bytes`.
pub open spec fn memory_cgroup_plan(container_id: Seq<char>, memory: Seq<char>) -> Seq<StepModel> {
    let dir = memory_cgroup_dir(container_id);
    seq![
        always(ActionModel::CreateDirAll { path: dir }),
        always(ActionModel::WriteFile { path: joined(dir, "memory.limit_in_bytes"@), text: memory }),
    ]
}

/// The request that names the guest's host.
pub open spec fn hostname_action(hostname: Seq<char>) -> ActionModel {
    ActionModel::SetHostname { name: hostname }
}

/// The request that points the guest's resolver at a public name server.
pub open spec fn dns_action() -> ActionModel {
    ActionModel::WriteFile { path: "/etc/resolv.conf"@, text: "nameserver 8.8.8.8"@ }
}

/// The request that makes the whole mount tree private, so that no later mount
/// reaches the host.
pub open spec fn private_root_action() -> ActionModel {
    ActionModel::Mount {
        source: None,
        target: "/"@,
        fstype: None,
        flags: propagation_bits(),
        data: None,
    }
}

/// The steps that swap the root: make `old_root` under the new root, pivot,
/// go to the new `/`, detach the old root and remove its mount point.
pub open spec fn pivot_plan(new_root: Seq<char>) -> Seq<StepModel> {
    seq![
        always(ActionModel::CreateDirAll { path: joined(new_root, "old_root"@) }),
        always(
            ActionModel::PivotRoot { new_root: new_root, put_old: joined(new_root, "old_root"@) },
        ),
        always(ActionModel::ChangeDir { path: "/"@ }),
        always(ActionModel::Unmount { target: "/old_root"@, how: detach_bits() }),
        always(ActionModel::RemoveDirAll { path: "/old_root"@ }),
    ]
}

fn fs_mount_step(fstype: &str, target: String, flags: u64, data: Option<String>) -> (step: Step)
    ensures
        step@ == fs_mount(fstype@, target@, flags, crate::plan::optional_text(data)),
{
    Step::always(
        Action::Mount {
            source: Some(String::from_str(fstype)),
            target,
            fstype: Some(String::from_str(fstype)),
            flags,
            data,
        },
    )
}

/// Plans the enrolment of the process `pid` under the CPU controller, with the
/// weight `cpu_shares`.
pub fn set_cpu_cgroup(container_id: String, pid: i32, cpu_shares: i32) -> (plan: Vec<Step>)
    ensures
        plan_view(plan@) == cpu_cgroup_plan(container_id@, pid, cpu_shares),
{
    let dir = join("/sys/fs/cgroup/cpu/rubber_docker", container_id.as_str());
    let tasks_file = join(dir.as_str(), "tasks");
    let shares_file = join(dir.as_str(), "cpu.shares");
    let mut plan: Vec<Step> = Vec::new();
    assert(plan_view(plan@) =~= Seq::empty());
    push_step(&mut plan, Step::always(Action::CreateDirAll { path: dir }));
    push_step(
        &mut plan,
        Step::always(Action::WriteFile { path: tasks_file, text: decimal_text(pid as i64) }),
    );
    push_step(
        &mut plan,
        Step::always(
            Action::WriteFile { path: shares_file, text: decimal_text(cpu_shares as i64) },
        ),
    );
    plan
}

/// Plans the memory limit of a container. The limit goes to the kernel as it
/// was given; the limit on memory plus swap is taken and not applied.
pub fn set_memory_cgroup(container_id: String, memory: String, _memory_swap: i32) -> (plan: Vec<
    Step,
>)
    ensures
        plan_view(plan@) == memory_cgroup_plan(container_id@, memory@),
{
    let dir = join("/sys/fs/cgroup/memory/rubber_docker", container_id.as_str());
    let memory_file = join(dir.as_str(), "memory.limit_in_bytes");
    let mut plan: Vec<Step> = Vec::new();
    assert(plan_view(plan@) =~= Seq::empty());
    push_step(&mut plan, Step::always(Action::CreateDirAll { path: dir }));
    push_step(&mut plan, Step::always(Action::WriteFile { path: memory_file, text: memory }));
    plan
}

/// The request that sets the guest's host name.
pub fn set_hostname(hostname: String) -> (action: Action)
    ensures
        action@ == hostname_action(hostname@),
{
    Action::SetHostname { name: hostname }
}

/// The request that writes the guest's `/etc/resolv.conf`.
pub fn set_dns() -> (action: Action)
    ensures
        action@ == dns_action(),
{
    Action::WriteFile {
        path: String::from_str("/etc/resolv.conf"),
        text: String::from_str("nameserver 8.8.8.8"),
    }
}

/// The request that makes `/` and all below it private.
pub fn mount_bind_root() -> (action: Action)
    ensures
        action@ == private_root_action(),
{
    Action::Mount {
        source: None,
        target: String::from_str("/"),
        fstype: None,
        flags: propagation_flags(),
        data: None,
    }
}

/// Plans the change of root to `new_root`.
pub fn pivot_root_fs(new_root: String) -> (plan: Vec<Step>)
    ensures
        plan_view(plan@) == pivot_plan(new_root@),
{
    let old_root = join(new_root.as_str(), "old_root");
    let mut plan: Vec<Step> = Vec::new();
    assert(plan_view(plan@) =~= Seq::empty());
    push_step(&mut plan, Step::always(Action::CreateDirAll { path: old_root.clone() }));
    push_step(&mut plan, Step::always(Action::PivotRoot { new_root, put_old: old_root }));
    push_step(&mut plan, Step::always(Action::ChangeDir { path: String::from_str("/") }));
    push_step(
        &mut plan,
        Step::always(
            Action::Unmount { target: String::from_str("/old_root"), how: detach_flags() },
        ),
    );
    push_step(
        &mut plan,
        Step::always(Action::RemoveDirAll { path: String::from_str("/old_root") }),
    );
    plan
}

/// The step that makes an image's root: unless the root is there already, it is
/// created and the image's archive is unpacked into it, with the permissions
/// that the archive records, under the image's lock.
pub open spec fn image_root_step(image_name: Seq<char>, image_dir: Seq<char>) -> StepModel {
    unless_exists(
        image_root(image_name, image_dir),
        ActionModel::ExtractImage {
            archive: image_archive(image_name, image_dir),
            root: image_root(image_name, image_dir),
            lock: image_lock(image_name, image_dir),
            preserve_permissions: true,
        },
    )
}

/// The options of an overlay mount: the read-only layer, the writable layer
/// and the work directory.
pub open spec fn overlay_data(lower: Seq<char>, upper: Seq<char>, work: Seq<char>) -> Seq<char> {
    "lowerdir="@ + lower + ",upperdir="@ + upper + ",workdir="@ + work
}

/// The step that creates a directory unless the path exists.
pub open spec fn ensure_dir(path: Seq<char>) -> StepModel {
    unless_exists(path, ActionModel::CreateDirAll { path })
}

/// The steps that assemble a container's root: the image's root, the three
/// directories of the workspace, and the overlay mounted on `rootfs`.
pub open spec fn rootfs_plan(
    container_id: Seq<char>,
    container_dir: Seq<char>,
    image_name: Seq<char>,
    image_dir: Seq<char>,
) -> Seq<StepModel> {
    let lower = image_root(image_name, image_dir);
    let upper = container_path(container_id, container_dir, "cow_rw"@);
    let work = container_path(container_id, container_dir, "cow_workdir"@);
    let merged = container_path(container_id, container_dir, "rootfs"@);
    seq![
        image_root_step(image_name, image_dir),
        ensure_dir(upper),
        ensure_dir(work),
        ensure_dir(merged),
        fs_mount("overlay"@, merged, overlay_bits(), Some(overlay_data(lower, upper, work))),
    ]
}

/// The step that links a standard stream under the guest's `/dev` to the
/// descriptor with the given number.
pub open spec fn std_link(rootfs: Seq<char>, index: int, name: Seq<char>) -> StepModel {
    always(
        ActionModel::Symlink {
            points_to: joined("/proc/self/fd"@, decimal(index)),
            link: joined(joined(rootfs, "dev"@), name),
        },
    )
}

/// The step that makes a character device readable and writable by all, unless
/// something is there under its name.
pub open spec fn device_node(dev: Seq<char>, name: Seq<char>, major: u64, minor: u64) -> StepModel {
    unless_exists(
        joined(dev, name),
        ActionModel::MakeNode {
            path: joined(dev, name),
            kind: char_device_bits(),
            perm: 0o666,
            device: device_number(major, minor),
        },
    )
}

/// The steps that fill the guest's `/dev`: the pseudo-terminal file system, the
/// links of the standard streams, and the device nodes.
pub open spec fn devices_plan(rootfs: Seq<char>) -> Seq<StepModel> {
    let dev = joined(rootfs, "dev"@);
    let pts = joined(dev, "pts"@);
    seq![
        ensure_dir(pts),
        fs_mount("devpts"@, pts, 0, None),
        std_link(rootfs, 0, "stdin"@),
        std_link(rootfs, 1, "stdout"@),
        std_link(rootfs, 2, "stderr"@),
        device_node(dev, "null"@, 1, 3),
        device_node(dev, "zero"@, 1, 5),
        device_node(dev, "random"@, 1, 8),
        device_node(dev, "urandom"@, 1, 9),
        device_node(dev, "console"@, 136, 3),
        device_node(dev, "null"@, 1, 3),
    ]
}

/// The mounts inside the guest's root, before its `/dev` is filled.
pub open spec fn system_mounts(rootfs: Seq<char>) -> Seq<StepModel> {
    seq![
        fs_mount("proc"@, joined(rootfs, "proc"@), 0, None),
        fs_mount("sysfs"@, joined(rootfs, "sys"@), 0, None),
        fs_mount("tmpfs"@, joined(rootfs, "dev"@), tmpfs_bits(), Some("mode=755"@)),
    ]
}

/// The steps that populate the guest's root: `proc`, `sysfs` and a `tmpfs` for
/// `/dev`, then what `/dev` holds.
pub open spec fn mounts_plan(rootfs: Seq<char>) -> Seq<StepModel> {
    system_mounts(rootfs) + devices_plan(rootfs)
}

fn ensure_dir_step(path: String) -> (step: Step)
    ensures
        step@ == ensure_dir(path@),
{
    Step::unless_exists(path.clone(), Action::CreateDirAll { path })
}

fn std_link_step(rootfs: &str, index: u8, name: &str) -> (step: Step)
    ensures
        step@ == std_link(rootfs@, index as int, name@),
{
    let source = join("/proc/self/fd", decimal_text(index as i64).as_str());
    let dev = join(rootfs, "dev");
    let dest = join(dev.as_str(), name);
    Step::always(Action::Symlink { points_to: source, link: dest })
}

fn device_node_step(dev: &str, name: &str, major: u64, minor: u64) -> (step: Step)
    ensures
        step@ == device_node(dev@, name@, major, minor),
{
    let path = join(dev, name);
    Step::unless_exists(
        path.clone(),
        Action::MakeNode {
            path,
            kind: char_device_kind(),
            perm: 0o666,
            device: device_id(major, minor),
        },
    )
}

/// Plans the root of an image: the path of the root, and the step that makes it
/// from the image's archive unless it is there.
pub fn create_image_root(image_name: String, image_dir: String) -> (planned: (String, Step))
    ensures
        planned.0@ == image_root(image_name@, image_dir@),
        planned.1@ == image_root_step(image_name@, image_dir@),
{
    let image_path = get_image_path(image_name.clone(), image_dir.clone());
    let lock = get_image_lock_path(image_name.clone(), image_dir.clone());
    let root = get_image_root_path(image_name, image_dir);
    let step = Step::unless_exists(
        root.clone(),
        Action::ExtractImage {
            archive: image_path,
            root: root.clone(),
            lock,
            preserve_permissions: true,
        },
    );
    (root, step)
}

/// Plans a container's root file system: the path where the overlay is
/// mounted, and the steps that lead to it.
pub fn create_container_rootfs(
    container_id: String,
    container_dir: String,
    image_name: String,
    image_dir: String,
) -> (planned: (String, Vec<Step>))
    ensures
        planned.0@ == container_path(container_id@, container_dir@, "rootfs"@),
        plan_view(planned.1@) == rootfs_plan(
            container_id@,
            container_dir@,
            image_name@,
            image_dir@,
        ),
{
    let (lower, image_step) = create_image_root(image_name, image_dir);
    let upper = get_container_path(
        container_id.clone(),
        container_dir.clone(),
        String::from_str("cow_rw"),
    );
    let work = get_container_path(
        container_id.clone(),
        container_dir.clone(),
        String::from_str("cow_workdir"),
    );
    let merged = get_container_path(container_id, container_dir, String::from_str("rootfs"));

    let mut data = String::from_str("lowerdir=");
    data.append(lower.as_str());
    data.append(",upperdir=");
    data.append(upper.as_str());
    data.append(",workdir=");
    data.append(work.as_str());
    assert(data@ == overlay_data(lower@, upper@, work@));

    let mut plan: Vec<Step> = Vec::new();
    assert(plan_view(plan@) =~= Seq::empty());
    push_step(&mut plan, image_step);
    push_step(&mut plan, ensure_dir_step(upper));
    push_step(&mut plan, ensure_dir_step(work));
    push_step(&mut plan, ensure_dir_step(merged.clone()));
    push_step(&mut plan, fs_mount_step("overlay", merged.clone(), overlay_flags(), Some(data)));
    (merged, plan)
}

/// Plans the contents of the guest's `/dev`.
pub fn add_devices(container_rootfs: String) -> (plan: Vec<Step>)
    ensures
        plan_view(plan@) == devices_plan(container_rootfs@),
{
    let rootfs = container_rootfs.as_str();
    let dev_path = join(rootfs, "dev");
    let dev = dev_path.as_str();
    let devpts_path = join(dev, "pts");

    let mut plan: Vec<Step> = Vec::new();
    assert(plan_view(plan@) =~= Seq::empty());
    push_step(&mut plan, ensure_dir_step(devpts_path.clone()));
    push_step(&mut plan, fs_mount_step("devpts", devpts_path, 0, None));
    push_step(&mut plan, std_link_step(rootfs, 0, "stdin"));
    push_step(&mut plan, std_link_step(rootfs, 1, "stdout"));
    push_step(&mut plan, std_link_step(rootfs, 2, "stderr"));
    push_step(&mut plan, device_node_step(dev, "null", 1, 3));
    push_step(&mut plan, device_node_step(dev, "zero", 1, 5));
    push_step(&mut plan, device_node_step(dev, "random", 1, 8));
    push_step(&mut plan, device_node_step(dev, "urandom", 1, 9));
    push_step(&mut plan, device_node_step(dev, "console", 136, 3));
    push_step(&mut plan, device_node_step(dev, "null", 1, 3));
    plan
}

/// Plans the mounts inside the guest's root and the contents of its `/dev`.
pub fn create_mounts(container_rootfs: String) -> (plan: Vec<Step>)
    ensures
        plan_view(plan@) == mounts_plan(container_rootfs@),
{
    let rootfs = container_rootfs.as_str();
    let proc_guest = join(rootfs, "proc");
    let sys_guest = join(rootfs, "sys");
    let dev_guest = join(rootfs, "dev");

    let mut plan: Vec<Step> = Vec::new();
    assert(plan_view(plan@) =~= Seq::empty());
    push_step(&mut plan, fs_mount_step("proc", proc_guest, 0, None));
    push_step(&mut plan, fs_mount_step("sysfs", sys_guest, 0, None));
    push_step(
        &mut plan,
        fs_mount_step("tmpfs", dev_guest, tmpfs_flags(), Some(String::from_str("mode=755"))),
    );
    push_steps(&mut plan, add_devices(container_rootfs.clone()));
    plan
}

/// The status that the guest ends with when it could not hand over to the
/// command.
pub const HANDOVER_FAILED: isize = 2;

/// A container: the image it is made from, where its workspace lies, the
/// command it runs, its limits and the identity the command runs under.
#[derive(Debug)]
pub struct Container {
    image_name: String,
    image_dir: String,
    container_dir: String,
    command: Vec<String>,
    container_id: String,
    memory: String,
    memory_swap: i32,
    cpu_shares: i32,
    uid: u32,
    gid: u32,
}

/// What a `Container` holds, with its texts as sequences of characters.
pub struct ContainerModel {
    pub image_name: Seq<char>,
    pub image_dir: Seq<char>,
    pub container_dir: Seq<char>,
    pub command: Seq<Seq<char>>,
    pub container_id: Seq<char>,
    pub memory: Seq<char>,
    pub memory_swap: i32,
    pub cpu_shares: i32,
    pub uid: u32,
    pub gid: u32,
}

/// What the parent asks for when it starts the guest: the namespaces that the
/// guest is born into, the size of its stack in bytes, and how it is waited
/// for.
#[derive(Debug, Clone, Copy, PartialEq, Eq, Structural)]
pub struct Launch {
    pub flags: i32,
    pub stack_size: usize,
    pub wait_flags: i32,
}

/// The last steps of a bring-up: the resolver's file, the drop to the guest's
/// group and user, in that order, and the hand-over to the command.
pub open spec fn handover_plan(c: ContainerModel) -> Seq<StepModel> {
    seq![
        always(dns_action()),
        always(ActionModel::SetGid { gid: c.gid }),
        always(ActionModel::SetUid { uid: c.uid }),
        always(ActionModel::Execute { command: c.command }),
    ]
}

/// The first steps of a bring-up, which need the host's view of the system:
/// the identity file, the enrolment of the guest under both controllers, the
/// host name, and the mount tree made private.
pub open spec fn enrolment_plan(c: ContainerModel, pid: i32) -> Seq<StepModel> {
    seq![always(id_file(c.container_id))] + cpu_cgroup_plan(c.container_id, pid, c.cpu_shares)
        + memory_cgroup_plan(c.container_id, c.memory) + seq![
        always(hostname_action(c.container_id)),
        always(private_root_action()),
    ]
}

/// The steps that the guest takes from its first instruction to the command,
/// in order.
pub open spec fn contain_plan(c: ContainerModel, pid: i32) -> Seq<StepModel> {
    let rootfs = container_path(c.container_id, c.container_dir, "rootfs"@);
    enrolment_plan(c, pid) + rootfs_plan(c.container_id, c.container_dir, c.image_name, c.image_dir)
        + mounts_plan(rootfs) + pivot_plan(rootfs) + handover_plan(c)
}

impl View for Container {
    type V = ContainerModel;

    closed spec fn view(&self) -> ContainerModel {
        ContainerModel {
            image_name: self.image_name@,
            image_dir: self.image_dir@,
            container_dir: self.container_dir@,
            command: texts(self.command@),
            container_id: self.container_id@,
            memory: self.memory@,
            memory_swap: self.memory_swap,
            cpu_shares: self.cpu_shares,
            uid: self.uid,
            gid: self.gid,
        }
    }
}

fn clone_texts(list: &Vec<String>) -> (copy: Vec<String>)
    ensures
        texts(copy@) == texts(list@),
{
    let mut copy: Vec<String> = Vec::new();
    let mut i: usize = 0;
    while i < list.len()
        invariant
            i <= list.len(),
            copy@.len() == i,
            forall|j: int| 0 <= j < i ==> (#[trigger] copy@[j])@ == list@[j]@,
        decreases list.len() - i,
    {
        copy.push(list[i].clone());
        i += 1;
    }
    assert(texts(copy@) =~= texts(list@));
    copy
}

impl Container {
    #[verifier::type_invariant]
    spec fn identified(self) -> bool {
        is_container_id(self.container_id@)
    }

    /// A container with a fresh identifier.
    pub fn new(
        image_name: String,
        image_dir: String,
        container_dir: String,
        command: Vec<String>,
        memory: String,
        memory_swap: i32,
        cpu_shares: i32,
        uid: u32,
        gid: u32,
    ) -> (container: Container)
        ensures
            is_container_id(container@.container_id),
            container@ == (ContainerModel {
                image_name: image_name@,
                image_dir: image_dir@,
                container_dir: container_dir@,
                command: texts(command@),
                container_id: container@.container_id,
                memory: memory@,
                memory_swap,
                cpu_shares,
                uid,
                gid,
            }),
    {
        Container {
            image_name,
            image_dir,
            container_dir,
            command,
            container_id: uuid(),
            memory,
            memory_swap,
            cpu_shares,
            uid,
            gid,
        }
    }

    /// A container with the identifier that is given, if that has the shape of
    /// an identifier; else nothing.
    pub fn with_id(
        image_name: String,
        image_dir: String,
        container_dir: String,
        command: Vec<String>,
        container_id: String,
        memory: String,
        memory_swap: i32,
        cpu_shares: i32,
        uid: u32,
        gid: u32,
    ) -> (made: Option<Container>)
        ensures
            made is Some <==> is_container_id(container_id@),
            made is Some ==> made->0@ == (ContainerModel {
                image_name: image_name@,
                image_dir: image_dir@,
                container_dir: container_dir@,
                command: texts(command@),
                container_id: container_id@,
                memory: memory@,
                memory_swap,
                cpu_shares,
                uid,
                gid,
            }),
    {
        if !crate::text::is_valid_id(container_id.as_str()) {
            return None;
        }
        Some(
            Container {
                image_name,
                image_dir,
                container_dir,
                command,
                container_id,
                memory,
                memory_swap,
                cpu_shares,
                uid,
                gid,
            },
        )
    }

    /// The container's identifier: 32 lowercase hexadecimal characters.
    pub fn container_id(&self) -> (id: &String)
        ensures
            id@ == self@.container_id,
            is_container_id(id@),
    {
        proof {
            use_type_invariant(self);
        }
        &self.container_id
    }

    /// The name of the image that the container is made from.
    pub fn image_name(&self) -> (name: &String)
        ensures
            name@ == self@.image_name,
    {
        &self.image_name
    }

    /// The directory that holds the image.
    pub fn image_dir(&self) -> (dir: &String)
        ensures
            dir@ == self@.image_dir,
    {
        &self.image_dir
    }

    /// The directory that holds the container's workspace.
    pub fn container_dir(&self) -> (dir: &String)
        ensures
            dir@ == self@.container_dir,
    {
        &self.container_dir
    }

    /// The command and its arguments.
    pub fn command(&self) -> (command: &Vec<String>)
        ensures
            texts(command@) == self@.command,
    {
        &self.command
    }

    /// The memory limit, as it was given.
    pub fn memory(&self) -> (memory: &String)
        ensures
            memory@ == self@.memory,
    {
        &self.memory
    }

    /// The limit on memory plus swap; -1 stands for no limit.
    pub fn memory_swap(&self) -> (limit: i32)
        ensures
            limit == self@.memory_swap,
    {
        self.memory_swap
    }

    /// The CPU weight.
    pub fn cpu_shares(&self) -> (shares: i32)
        ensures
            shares == self@.cpu_shares,
    {
        self.cpu_shares
    }

    /// The user id that the command runs under.
    pub fn uid(&self) -> (uid: u32)
        ensures
            uid == self@.uid,
    {
        self.uid
    }

    /// The group id that the command runs under.
    pub fn gid(&self) -> (gid: u32)
        ensures
            gid == self@.gid,
    {
        self.gid
    }

    /// What the parent asks for when it starts the guest: new mount, UTS,
    /// network and PID namespaces, a stack of one mebibyte, and a wait that
    /// matches a child made by `clone`.
    pub fn run(&self) -> (launch: Launch)
        ensures
            launch == (Launch {
                flags: namespace_bits(),
                stack_size: 0x10_0000,
                wait_flags: wait_bits(),
            }),
    {
        Launch { flags: namespace_flags(), stack_size: 1024 * 1024, wait_flags: wait_flags() }
    }

    /// What the guest, running as process `pid`, does before the command takes
    /// over, step by step.
    pub fn contain(&self, pid: i32) -> (plan: Vec<Step>)
        ensures
            plan_view(plan@) == contain_plan(self@, pid),
    {
        let mut plan: Vec<Step> = Vec::new();
        assert(plan_view(plan@) =~= Seq::empty());
        push_step(&mut plan, Step::always(write_container_id(self.container_id.clone())));
        push_steps(&mut plan, set_cpu_cgroup(self.container_id.clone(), pid, self.cpu_shares));
        push_steps(
            &mut plan,
            set_memory_cgroup(self.container_id.clone(), self.memory.clone(), self.memory_swap),
        );
        push_step(&mut plan, Step::always(set_hostname(self.container_id.clone())));
        push_step(&mut plan, Step::always(mount_bind_root()));
        assert(plan_view(plan@) =~= enrolment_plan(self@, pid));

        let (container_rootfs, rootfs_steps) = create_container_rootfs(
            self.container_id.clone(),
            self.container_dir.clone(),
            self.image_name.clone(),
            self.image_dir.clone(),
        );
        push_steps(&mut plan, rootfs_steps);
        push_steps(&mut plan, create_mounts(container_rootfs.clone()));
        push_steps(&mut plan, pivot_root_fs(container_rootfs));

        let ghost before = plan_view(plan@);
        push_step(&mut plan, Step::always(set_dns()));
        push_step(&mut plan, Step::always(Action::SetGid { gid: self.gid }));
        push_step(&mut plan, Step::always(Action::SetUid { uid: self.uid }));
        push_step(
            &mut plan,
            Step::always(Action::Execute { command: clone_texts(&self.command) }),
        );
        assert(plan_view(plan@) =~= before + handover_plan(self@));
        plan
    }
}

} // verus!
