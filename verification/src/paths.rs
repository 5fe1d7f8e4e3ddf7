//! Where things live: the image archive and its unpacked root, the three
//! directories of a container's workspace, and the control-group nodes.

use vstd::prelude::*;

verus! {

/// A path with another one adjoined. An absolute second path replaces the
/// first; otherwise the two are put together with exactly one separator between
/// them, none being added to an empty first path or after a trailing separator.
pub open spec fn joined(base: Seq<char>, part: Seq<char>) -> Seq<char> {
    if part.len() > 0 && part[0] == '/' {
        part
    } else if base.len() == 0 || base.last() == '/' {
        base + part
    } else {
        base + seq!['/'] + part
    }
}

/// The archive an image is read from: `{image_dir}/{image_name}.tar`.
pub open spec fn image_archive(image_name: Seq<char>, image_dir: Seq<char>) -> Seq<char> {
    joined(image_dir, image_name + ".tar"@)
}

/// The directory an image is unpacked into: `{image_dir}/{image_name}.root.d`.
pub open spec fn image_root(image_name: Seq<char>, image_dir: Seq<char>) -> Seq<char> {
    joined(image_dir, image_name + ".root.d"@)
}

/// The file that is locked while an image is unpacked:
/// `{image_dir}/{image_name}.lock`.
pub open spec fn image_lock(image_name: Seq<char>, image_dir: Seq<char>) -> Seq<char> {
    joined(image_dir, image_name + ".lock"@)
}

/// A directory of a container's workspace: `{container_dir}/{container_id}/{subdir_name}`.
pub open spec fn container_path(
    container_id: Seq<char>,
    container_dir: Seq<char>,
    subdir_name: Seq<char>,
) -> Seq<char> {
    joined(joined(container_dir, container_id), subdir_name)
}

/// The node of a container under the CPU controller.
pub open spec fn cpu_cgroup_dir(container_id: Seq<char>) -> Seq<char> {
    joined("/sys/fs/cgroup/cpu/rubber_docker"@, container_id)
}

/// The node of a container under the memory controller.
pub open spec fn memory_cgroup_dir(container_id: Seq<char>) -> Seq<char> {
    joined("/sys/fs/cgroup/memory/rubber_docker"@, container_id)
}

/// Adjoins `part` to `base`.
pub fn join(base: &str, part: &str) -> (path: String)
    ensures
        path@ == joined(base@, part@),
{
    let part_len = part.unicode_len();
    if part_len > 0 && part.get_char(0) == '/' {
        return String::from_str(part);
    }
    let base_len = base.unicode_len();
    let mut path = String::from_str(base);
    if base_len > 0 && base.get_char(base_len - 1) != '/' {
        proof {
            reveal_strlit("/");
        }
        path.append("/");
        assert(path@ =~= base@ + seq!['/']);
    }
    path.append(part);
    path
}

/// The path of the archive of the image `image_name` kept in `image_dir`.
pub fn get_image_path(image_name: String, image_dir: String) -> (path: String)
    ensures
        path@ == image_archive(image_name@, image_dir@),
{
    let image = crate::text::conjoin(image_name.as_str(), ".tar");
    join(image_dir.as_str(), image.as_str())
}

/// The path of the unpacked root of the image `image_name` kept in `image_dir`.
pub fn get_image_root_path(image_name: String, image_dir: String) -> (path: String)
    ensures
        path@ == image_root(image_name@, image_dir@),
{
    let root_dir = crate::text::conjoin(image_name.as_str(), ".root.d");
    join(image_dir.as_str(), root_dir.as_str())
}

/// The path of the file that is locked while the image `image_name` kept in
/// `image_dir` is unpacked.
pub fn get_image_lock_path(image_name: String, image_dir: String) -> (path: String)
    ensures
        path@ == image_lock(image_name@, image_dir@),
{
    let lock = crate::text::conjoin(image_name.as_str(), ".lock");
    join(image_dir.as_str(), lock.as_str())
}

/// The path of the directory `subdir_name` in the workspace that the container
/// `container_id` has under `container_dir`.
pub fn get_container_path(container_id: String, container_dir: String, subdir_name: String) -> (path:
    String)
    ensures
        path@ == container_path(container_id@, container_dir@, subdir_name@),
{
    let workspace = join(container_dir.as_str(), container_id.as_str());
    join(workspace.as_str(), subdir_name.as_str())
}

/// Adjoining a relative, non-empty name leaves the base in front and the name
/// at the end, with at most one separator added between them.
pub proof fn lemma_joined_relative(base: Seq<char>, part: Seq<char>)
    requires
        part.len() > 0,
        part[0] != '/',
    ensures
        joined(base, part).len() >= base.len() + part.len(),
        joined(base, part).len() <= base.len() + part.len() + 1,
        joined(base, part).subrange(0, base.len() as int) == base,
        joined(base, part).subrange(
            joined(base, part).len() - part.len(),
            joined(base, part).len() as int,
        ) == part,
{
    let whole = joined(base, part);
    assert(whole.subrange(0, base.len() as int) =~= base);
    assert(whole.subrange(whole.len() - part.len(), whole.len() as int) =~= part);
}

/// Two relative, non-empty names adjoined to the same base give the same path
/// only if they are the same name.
pub proof fn lemma_joined_injective(base: Seq<char>, first: Seq<char>, second: Seq<char>)
    requires
        first.len() > 0,
        first[0] != '/',
        second.len() > 0,
        second[0] != '/',
        joined(base, first) == joined(base, second),
    ensures
        first == second,
{
    let prefix = if base.len() == 0 || base.last() == '/' {
        base
    } else {
        base + seq!['/']
    };
    assert(joined(base, first) =~= prefix + first);
    assert(joined(base, second) =~= prefix + second);
    assert(first.len() == second.len());
    assert forall|i: int| 0 <= i < first.len() implies first[i] == second[i] by {
        assert((prefix + first)[prefix.len() + i] == first[i]);
        assert((prefix + second)[prefix.len() + i] == second[i]);
    }
    assert(first =~= second);
}

/// The three directories of a container's workspace are three different paths,
/// whatever the container and wherever its workspace lies.
pub proof fn lemma_workspace_distinct(container_id: Seq<char>, container_dir: Seq<char>)
    ensures
        container_path(container_id, container_dir, "rootfs"@) != container_path(
            container_id,
            container_dir,
            "cow_rw"@,
        ),
        container_path(container_id, container_dir, "rootfs"@) != container_path(
            container_id,
            container_dir,
            "cow_workdir"@,
        ),
        container_path(container_id, container_dir, "cow_rw"@) != container_path(
            container_id,
            container_dir,
            "cow_workdir"@,
        ),
{
    reveal_strlit("rootfs");
    reveal_strlit("cow_rw");
    reveal_strlit("cow_workdir");
    let base = joined(container_dir, container_id);
    let rootfs = "rootfs"@;
    let upper = "cow_rw"@;
    let work = "cow_workdir"@;
    assert(rootfs[0] == 'r' && upper[0] == 'c' && work[0] == 'c');
    if joined(base, rootfs) == joined(base, upper) {
        lemma_joined_injective(base, rootfs, upper);
    }
    if joined(base, rootfs) == joined(base, work) {
        lemma_joined_injective(base, rootfs, work);
    }
    if joined(base, upper) == joined(base, work) {
        lemma_joined_injective(base, upper, work);
    }
}

} // verus!
