//! The order of a bring-up: what is certain to have happened before what,
//! whatever the container.

use vstd::prelude::*;
use crate::bringup::{
    contain_plan, cpu_cgroup_plan, devices_plan, enrolment_plan, fs_mount, handover_plan,
    memory_cgroup_plan, mounts_plan, overlay_data, pivot_plan, private_root_action, rootfs_plan,
    system_mounts, ContainerModel,
};
use crate::bringup::{device_node, ensure_dir, std_link};
use crate::flags::{char_device_bits, detach_bits, device_number, overlay_bits, tmpfs_bits};
use crate::flags::lemma_small_device_number;
use crate::plan::unless_exists;
use crate::paths::{container_path, image_root, joined};
use crate::plan::{always, ActionModel, StepModel};

verus! {

/// Where a container's root file system is put together.
pub open spec fn rootfs_of(c: ContainerModel) -> Seq<char> {
    container_path(c.container_id, c.container_dir, "rootfs"@)
}

/// The step that mounts a container's overlay.
pub open spec fn overlay_step(c: ContainerModel) -> StepModel {
    fs_mount(
        "overlay"@,
        rootfs_of(c),
        overlay_bits(),
        Some(
            overlay_data(
                image_root(c.image_name, c.image_dir),
                container_path(c.container_id, c.container_dir, "cow_rw"@),
                container_path(c.container_id, c.container_dir, "cow_workdir"@),
            ),
        ),
    )
}

/// The step that mounts the guest's `/dev`.
pub open spec fn dev_step(c: ContainerModel) -> StepModel {
    fs_mount("tmpfs"@, joined(rootfs_of(c), "dev"@), tmpfs_bits(), Some("mode=755"@))
}

/// The step that makes the character device `path` with the device number
/// `device`, readable and writable by all, unless `path` exists.
pub open spec fn char_device(path: Seq<char>, device: u64) -> StepModel {
    unless_exists(
        path,
        ActionModel::MakeNode { path, kind: char_device_bits(), perm: 0o666, device },
    )
}

/// Whether a step mounts a file system of the type `overlay`.
pub open spec fn mounts_overlay(step: StepModel) -> bool {
    match step.action {
        ActionModel::Mount { fstype, .. } => fstype == Some("overlay"@),
        _ => false,
    }
}

/// Whether a step changes who the process runs as, or hands over to the
/// command.
pub open spec fn is_handover(step: StepModel) -> bool {
    step.action is SetGid || step.action is SetUid || step.action is Execute
}

/// A bring-up has 36 steps, of which the first eight are the enrolment, the
/// next five make the root file system, fourteen populate it, five swap the
/// root, and four hand over.
pub proof fn lemma_plan_shape(c: ContainerModel, pid: i32)
    ensures
        contain_plan(c, pid).len() == 36,
        contain_plan(c, pid).subrange(0, 8) == enrolment_plan(c, pid),
        contain_plan(c, pid).subrange(8, 13) == rootfs_plan(
            c.container_id,
            c.container_dir,
            c.image_name,
            c.image_dir,
        ),
        contain_plan(c, pid).subrange(13, 27) == mounts_plan(rootfs_of(c)),
        contain_plan(c, pid).subrange(27, 32) == pivot_plan(rootfs_of(c)),
        contain_plan(c, pid).subrange(32, 36) == handover_plan(c),
{
    let plan = contain_plan(c, pid);
    let rootfs = rootfs_of(c);
    assert(cpu_cgroup_plan(c.container_id, pid, c.cpu_shares).len() == 3);
    assert(memory_cgroup_plan(c.container_id, c.memory).len() == 2);
    assert(enrolment_plan(c, pid).len() == 8);
    assert(rootfs_plan(c.container_id, c.container_dir, c.image_name, c.image_dir).len() == 5);
    assert(system_mounts(rootfs).len() == 3);
    assert(devices_plan(rootfs).len() == 11);
    assert(mounts_plan(rootfs).len() == 14);
    assert(pivot_plan(rootfs).len() == 5);
    assert(handover_plan(c).len() == 4);
    assert(plan.subrange(0, 8) =~= enrolment_plan(c, pid));
    assert(plan.subrange(8, 13) =~= rootfs_plan(
        c.container_id,
        c.container_dir,
        c.image_name,
        c.image_dir,
    ));
    assert(plan.subrange(13, 27) =~= mounts_plan(rootfs));
    assert(plan.subrange(27, 32) =~= pivot_plan(rootfs));
    assert(plan.subrange(32, 36) =~= handover_plan(c));
}

/// Each step of a bring-up is the step of the part that it lies in.
proof fn lemma_step_of_part(c: ContainerModel, pid: i32, i: int)
    requires
        0 <= i < 36,
    ensures
        i < 8 ==> contain_plan(c, pid)[i] == enrolment_plan(c, pid)[i],
        8 <= i < 13 ==> contain_plan(c, pid)[i] == rootfs_plan(
            c.container_id,
            c.container_dir,
            c.image_name,
            c.image_dir,
        )[i - 8],
        13 <= i < 16 ==> contain_plan(c, pid)[i] == system_mounts(rootfs_of(c))[i - 13],
        16 <= i < 27 ==> contain_plan(c, pid)[i] == devices_plan(rootfs_of(c))[i - 16],
        27 <= i < 32 ==> contain_plan(c, pid)[i] == pivot_plan(rootfs_of(c))[i - 27],
        32 <= i ==> contain_plan(c, pid)[i] == handover_plan(c)[i - 32],
{
    lemma_plan_shape(c, pid);
    let plan = contain_plan(c, pid);
    let rootfs = rootfs_of(c);
    assert(system_mounts(rootfs).len() == 3);
    assert(devices_plan(rootfs).len() == 11);
    if i < 8 {
        assert(plan.subrange(0, 8)[i] == plan[i]);
    } else if i < 13 {
        assert(plan.subrange(8, 13)[i - 8] == plan[i]);
    } else if i < 27 {
        assert(plan.subrange(13, 27)[i - 13] == plan[i]);
    } else if i < 32 {
        assert(plan.subrange(27, 32)[i - 27] == plan[i]);
    } else {
        assert(plan.subrange(32, 36)[i - 32] == plan[i]);
    }
}

/// Nothing is mounted before the mount tree has been made private: whatever
/// step of a bring-up mounts something, the step that makes `/` private,
/// recursively, is that step or an earlier one. So no mount of the guest can
/// reach the host.
pub proof fn lemma_private_root_before_mounts(c: ContainerModel, pid: i32, i: int)
    requires
        0 <= i < contain_plan(c, pid).len(),
        contain_plan(c, pid)[i].action is Mount,
    ensures
        exists|j: int| 0 <= j <= i && contain_plan(c, pid)[j] == always(private_root_action()),
{
    lemma_plan_shape(c, pid);
    lemma_step_of_part(c, pid, i);
    lemma_step_of_part(c, pid, 7);
    let plan = contain_plan(c, pid);
    assert(plan[7] == always(private_root_action()));
    assert(i >= 7);
}

/// The overlay is mounted before anything is mounted inside it: whatever step
/// mounts something other than the private `/`, the step that mounts the
/// overlay on the container's `rootfs` is that step or an earlier one.
pub proof fn lemma_overlay_before_inner_mounts(c: ContainerModel, pid: i32, i: int)
    requires
        0 <= i < contain_plan(c, pid).len(),
        contain_plan(c, pid)[i].action is Mount,
        contain_plan(c, pid)[i] != always(private_root_action()),
    ensures
        exists|j: int| 0 <= j <= i && contain_plan(c, pid)[j] == overlay_step(c),
{
    lemma_plan_shape(c, pid);
    lemma_step_of_part(c, pid, i);
    lemma_step_of_part(c, pid, 12);
    let plan = contain_plan(c, pid);
    assert(plan[12] == overlay_step(c));
    assert(i >= 12);
}

/// The guest's `/dev` is a fresh `tmpfs` before anything is put into it: every
/// step that makes a link or a device node comes after the step that mounts
/// it.
pub proof fn lemma_dev_mounted_before_devices(c: ContainerModel, pid: i32, i: int)
    requires
        0 <= i < contain_plan(c, pid).len(),
        contain_plan(c, pid)[i].action is Symlink || contain_plan(c, pid)[i].action is MakeNode,
    ensures
        exists|j: int| 0 <= j < i && contain_plan(c, pid)[j] == dev_step(c),
{
    lemma_plan_shape(c, pid);
    lemma_step_of_part(c, pid, i);
    lemma_step_of_part(c, pid, 15);
    let plan = contain_plan(c, pid);
    assert(plan[15] == dev_step(c));
    assert(i > 15);
}

/// A bring-up ends with the drop to the configured group, then to the
/// configured user, then the hand-over to the command, and no earlier step
/// does any of the three. So every mount, every device node and every write
/// to a control group is made with the privileges that the runtime started
/// with, and the command runs with the configured ones.
pub proof fn lemma_handover_comes_last(c: ContainerModel, pid: i32)
    ensures
        contain_plan(c, pid).len() >= 3,
        contain_plan(c, pid)[contain_plan(c, pid).len() - 3] == always(
            ActionModel::SetGid { gid: c.gid },
        ),
        contain_plan(c, pid)[contain_plan(c, pid).len() - 2] == always(
            ActionModel::SetUid { uid: c.uid },
        ),
        contain_plan(c, pid)[contain_plan(c, pid).len() - 1] == always(
            ActionModel::Execute { command: c.command },
        ),
        forall|i: int|
            0 <= i < contain_plan(c, pid).len() - 3 ==> !is_handover(
                #[trigger] contain_plan(c, pid)[i],
            ),
{
    lemma_plan_shape(c, pid);
    let plan = contain_plan(c, pid);
    lemma_step_of_part(c, pid, 33);
    lemma_step_of_part(c, pid, 34);
    lemma_step_of_part(c, pid, 35);
    assert forall|i: int| 0 <= i < plan.len() - 3 implies !is_handover(#[trigger] plan[i]) by {
        lemma_step_of_part(c, pid, i);
    }
}

/// The guest is enrolled in its control groups before the mount tree is
/// touched: the steps after the identity file are those of the CPU controller
/// and then those of the memory controller, and every step that mounts,
/// pivots or unmounts comes after them.
pub proof fn lemma_enrolment_first(c: ContainerModel, pid: i32)
    ensures
        contain_plan(c, pid).len() >= 6,
        contain_plan(c, pid).subrange(1, 6) == cpu_cgroup_plan(c.container_id, pid, c.cpu_shares)
            + memory_cgroup_plan(c.container_id, c.memory),
        forall|i: int|
            0 <= i < 6 ==> {
                let action = (#[trigger] contain_plan(c, pid)[i]).action;
                !(action is Mount) && !(action is PivotRoot) && !(action is Unmount)
            },
{
    lemma_plan_shape(c, pid);
    let plan = contain_plan(c, pid);
    let cpu = cpu_cgroup_plan(c.container_id, pid, c.cpu_shares);
    let memory = memory_cgroup_plan(c.container_id, c.memory);
    assert(cpu.len() == 3);
    assert(memory.len() == 2);
    assert forall|i: int| 0 <= i < 6 implies {
        let action = (#[trigger] plan[i]).action;
        !(action is Mount) && !(action is PivotRoot) && !(action is Unmount)
    } by {
        lemma_step_of_part(c, pid, i);
    }
    assert forall|k: int| 0 <= k < 5 implies plan.subrange(1, 6)[k] == (cpu + memory)[k] by {
        lemma_step_of_part(c, pid, k + 1);
    }
    assert(plan.subrange(1, 6) =~= cpu + memory);
}

/// The old root is let go before the command runs: the root is swapped with
/// the old one put at `old_root` under the new one, then `/old_root` is
/// unmounted lazily, then its directory is removed, and no later step creates
/// a directory, mounts or swaps the root again.
pub proof fn lemma_old_root_released(c: ContainerModel, pid: i32)
    ensures
        contain_plan(c, pid).len() == 36,
        contain_plan(c, pid)[28] == always(
            ActionModel::PivotRoot {
                new_root: rootfs_of(c),
                put_old: joined(rootfs_of(c), "old_root"@),
            },
        ),
        contain_plan(c, pid)[30] == always(
            ActionModel::Unmount { target: "/old_root"@, how: detach_bits() },
        ),
        contain_plan(c, pid)[31] == always(ActionModel::RemoveDirAll { path: "/old_root"@ }),
        forall|i: int|
            31 < i < 36 ==> {
                let action = (#[trigger] contain_plan(c, pid)[i]).action;
                !(action is CreateDirAll) && !(action is Mount) && !(action is PivotRoot)
            },
{
    lemma_plan_shape(c, pid);
    let plan = contain_plan(c, pid);
    lemma_step_of_part(c, pid, 28);
    lemma_step_of_part(c, pid, 30);
    lemma_step_of_part(c, pid, 31);
    assert forall|i: int| 31 < i < 36 implies {
        let action = (#[trigger] plan[i]).action;
        !(action is CreateDirAll) && !(action is Mount) && !(action is PivotRoot)
    } by {
        lemma_step_of_part(c, pid, i);
    }
}

/// The overlay is mounted exactly once, on the container's `rootfs`: one step
/// of a bring-up is the mount of the overlay, and no other step mounts a file
/// system of that type.
pub proof fn lemma_overlay_mounted_once(c: ContainerModel, pid: i32)
    ensures
        contain_plan(c, pid).len() == 36,
        contain_plan(c, pid)[12] == overlay_step(c),
        forall|i: int| 0 <= i < 36 && mounts_overlay(#[trigger] contain_plan(c, pid)[i]) ==> i == 12,
{
    lemma_plan_shape(c, pid);
    lemma_step_of_part(c, pid, 12);
    let plan = contain_plan(c, pid);
    reveal_strlit("overlay");
    reveal_strlit("proc");
    reveal_strlit("sysfs");
    reveal_strlit("tmpfs");
    reveal_strlit("devpts");
    assert("overlay"@.len() == 7);
    assert forall|i: int| 0 <= i < 36 && mounts_overlay(#[trigger] plan[i]) implies i == 12 by {
        lemma_step_of_part(c, pid, i);
    }
}

/// Inside the guest's root exactly four file systems are mounted: `proc` on
/// `proc`, `sysfs` on `sys`, a `tmpfs` with mode 755 on `dev`, and `devpts` on
/// `dev/pts`, whose directory is created first if it is missing.
pub proof fn lemma_guest_mounts(rootfs: Seq<char>)
    ensures
        mounts_plan(rootfs).len() == 14,
        mounts_plan(rootfs)[0] == fs_mount("proc"@, joined(rootfs, "proc"@), 0, None),
        mounts_plan(rootfs)[1] == fs_mount("sysfs"@, joined(rootfs, "sys"@), 0, None),
        mounts_plan(rootfs)[2] == fs_mount(
            "tmpfs"@,
            joined(rootfs, "dev"@),
            tmpfs_bits(),
            Some("mode=755"@),
        ),
        mounts_plan(rootfs)[3] == ensure_dir(joined(joined(rootfs, "dev"@), "pts"@)),
        mounts_plan(rootfs)[4] == fs_mount(
            "devpts"@,
            joined(joined(rootfs, "dev"@), "pts"@),
            0,
            None,
        ),
        forall|i: int|
            0 <= i < 14 && (#[trigger] mounts_plan(rootfs)[i]).action is Mount ==> i == 0 || i == 1
                || i == 2 || i == 4,
{
    assert(system_mounts(rootfs).len() == 3);
    assert(devices_plan(rootfs).len() == 11);
    let plan = mounts_plan(rootfs);
    assert forall|i: int| 0 <= i < 14 implies (i < 3 ==> plan[i] == system_mounts(rootfs)[i]) && (i
        >= 3 ==> #[trigger] plan[i] == devices_plan(rootfs)[i - 3]) by {}
    assert(plan[3] == devices_plan(rootfs)[0]);
    assert(plan[4] == devices_plan(rootfs)[1]);
}

/// The guest's `/dev` gets the three links of the standard streams, each to
/// the descriptor of its number, and the five standard character devices with
/// their device numbers, `null` being asked for a second time at the end.
pub proof fn lemma_standard_devices(rootfs: Seq<char>)
    ensures
        devices_plan(rootfs).len() == 11,
        devices_plan(rootfs)[2] == std_link(rootfs, 0, "stdin"@),
        devices_plan(rootfs)[3] == std_link(rootfs, 1, "stdout"@),
        devices_plan(rootfs)[4] == std_link(rootfs, 2, "stderr"@),
        devices_plan(rootfs)[5] == char_device(joined(joined(rootfs, "dev"@), "null"@), 259),
        devices_plan(rootfs)[6] == char_device(joined(joined(rootfs, "dev"@), "zero"@), 261),
        devices_plan(rootfs)[7] == char_device(joined(joined(rootfs, "dev"@), "random"@), 264),
        devices_plan(rootfs)[8] == char_device(joined(joined(rootfs, "dev"@), "urandom"@), 265),
        devices_plan(rootfs)[9] == char_device(joined(joined(rootfs, "dev"@), "console"@), 34819),
        devices_plan(rootfs)[10] == devices_plan(rootfs)[5],
        forall|i: int|
            0 <= i < 11 && (#[trigger] devices_plan(rootfs)[i]).action is MakeNode ==> 5 <= i,
{
    lemma_small_device_number(1, 3);
    lemma_small_device_number(1, 5);
    lemma_small_device_number(1, 8);
    lemma_small_device_number(1, 9);
    lemma_small_device_number(136, 3);
}

} // verus!
