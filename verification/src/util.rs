//! Identifiers, identity files, and the choice of what is unpacked from an
//! image.

use vstd::prelude::*;
use crate::plan::{Action, ActionModel};
use crate::text::{decimal, decimal_text, is_container_id};

verus! {

/// Whether an archive entry with this type byte is a character or a block
/// device.
pub open spec fn is_device_type(type_byte: u8) -> bool {
    type_byte == 0x33 || type_byte == 0x34
}

/// Whether `picked` lists, in rising order, exactly the positions of the
/// entries that are no devices.
pub open spec fn picks_all_but_devices(entry_types: Seq<u8>, picked: Seq<usize>) -> bool {
    &&& forall|k: int|
        0 <= k < picked.len() ==> #[trigger] picked[k] < entry_types.len() && !is_device_type(
            entry_types[picked[k] as int],
        )
    &&& forall|i: int|
        0 <= i < entry_types.len() && !is_device_type(#[trigger] entry_types[i]) ==> exists|k: int|
            0 <= k < picked.len() && #[trigger] picked[k] == i
    &&& forall|j: int, k: int| 0 <= j < k < picked.len() ==> picked[j] < picked[k]
}

/// The file that records a container's identifier.
pub open spec fn id_file(cid: Seq<char>) -> ActionModel {
    ActionModel::WriteFile { path: "container.cid"@, text: cid }
}

/// The file that records the guest's process id.
pub open spec fn pid_file(pid: i32) -> ActionModel {
    ActionModel::WriteFile { path: "container.pid"@, text: decimal(pid as int) }
}

/// Trusted: `uuid::Uuid::new_v4`, rendered by `to_simple` and `encode_lower`.
/// Whatever the random value, the rendering is 32 characters long, each of them
/// one of `0`-`9` and `a`-`f`. The call aborts the process if the system cannot
/// supply random bytes.
#[verifier::external_body]
fn random_simple_lower() -> (id: String)
    ensures
        is_container_id(id@),
{
    let mut buffer = uuid::Uuid::encode_buffer();
    uuid::Uuid::new_v4().to_simple().encode_lower(&mut buffer).to_owned()
}

/// Trusted: `tar::EntryType::new` followed by `is_character_special`. Only the
/// type byte `3` stands for a character device.
#[verifier::external_body]
fn tar_is_character_special(type_byte: u8) -> (special: bool)
    ensures
        special == (type_byte == 0x33),
{
    tar::EntryType::new(type_byte).is_character_special()
}

/// Trusted: `tar::EntryType::new` followed by `is_block_special`. Only the type
/// byte `4` stands for a block device.
#[verifier::external_body]
fn tar_is_block_special(type_byte: u8) -> (special: bool)
    ensures
        special == (type_byte == 0x34),
{
    tar::EntryType::new(type_byte).is_block_special()
}

/// A fresh container identifier.
pub fn uuid() -> (id: String)
    ensures
        is_container_id(id@),
{
    random_simple_lower()
}

/// Tells whether an archive entry with this type byte is a device, and so is
/// left out when an image is unpacked.
pub fn is_device_entry(type_byte: u8) -> (device: bool)
    ensures
        device == is_device_type(type_byte),
{
    tar_is_character_special(type_byte) || tar_is_block_special(type_byte)
}

/// The positions of the entries of an archive that are unpacked, given the type
/// byte of each entry in the order of the archive: all but the devices.
pub fn untar(entry_types: &Vec<u8>) -> (picked: Vec<usize>)
    ensures
        picks_all_but_devices(entry_types@, picked@),
{
    let mut picked: Vec<usize> = Vec::new();
    let mut i: usize = 0;
    while i < entry_types.len()
        invariant
            i <= entry_types.len(),
            picks_all_but_devices(entry_types@.subrange(0, i as int), picked@),
        decreases entry_types.len() - i,
    {
        let ghost before = picked@;
        let ghost seen = entry_types@.subrange(0, i as int);
        let ghost next = entry_types@.subrange(0, i + 1);
        if !is_device_entry(entry_types[i]) {
            picked.push(i);
        }
        proof {
            assert(forall|j: int| 0 <= j < i ==> next[j] == seen[j]);
            assert(next[i as int] == entry_types@[i as int]);
            assert forall|j: int|
                0 <= j < next.len() && !is_device_type(#[trigger] next[j]) implies exists|k: int|
                0 <= k < picked@.len() && #[trigger] picked@[k] == j by {
                if j < i {
                    assert(!is_device_type(seen[j]));
                    let k = choose|k: int| 0 <= k < before.len() && #[trigger] before[k] == j;
                    assert(picked@[k] == j);
                } else {
                    assert(picked@[picked@.len() - 1] == j);
                }
            }
            assert forall|k: int| 0 <= k < picked@.len() implies #[trigger] picked@[k]
                < next.len() && !is_device_type(next[picked@[k] as int]) by {
                if k < before.len() {
                    assert(before[k] < seen.len());
                }
            }
            assert forall|j: int, k: int| 0 <= j < k < picked@.len() implies picked@[j]
                < picked@[k] by {
                assert(before[j] < seen.len());
            }
        }
        i += 1;
    }
    assert(entry_types@.subrange(0, i as int) =~= entry_types@);
    picked
}

/// The request that records the guest's process id in `container.pid`.
pub fn write_pid(pid: i32) -> (action: Action)
    ensures
        action@ == pid_file(pid),
{
    Action::WriteFile { path: String::from_str("container.pid"), text: decimal_text(pid as i64) }
}

/// The request that records a container's identifier in `container.cid`.
pub fn write_container_id(cid: String) -> (action: Action)
    ensures
        action@ == id_file(cid@),
{
    Action::WriteFile { path: String::from_str("container.cid"), text: cid }
}

/// The names that unpacking an archive puts into a directory: the names of its
/// entries that are no devices. `names` and `entry_types` give the name and the
/// type byte of each entry, in the order of the archive.
pub open spec fn unpacked_names(names: Seq<Seq<char>>, entry_types: Seq<u8>) -> Set<Seq<char>> {
    Set::new(
        |name: Seq<char>|
            exists|i: int|
                0 <= i < names.len() && i < entry_types.len() && #[trigger] names[i] == name
                    && !is_device_type(entry_types[i]),
    )
}

/// The names in a directory after an archive has been unpacked into it: those
/// that were there, and those that the archive brings.
pub open spec fn names_after(
    before: Set<Seq<char>>,
    names: Seq<Seq<char>>,
    entry_types: Seq<u8>,
) -> Set<Seq<char>> {
    before.union(unpacked_names(names, entry_types))
}

/// What `untar` picks are the entries whose names an extraction brings.
pub proof fn lemma_picked_names(names: Seq<Seq<char>>, entry_types: Seq<u8>, picked: Seq<usize>)
    requires
        names.len() == entry_types.len(),
        picks_all_but_devices(entry_types, picked),
    ensures
        unpacked_names(names, entry_types) == Set::new(
            |name: Seq<char>|
                exists|k: int| 0 <= k < picked.len() && names[#[trigger] picked[k] as int] == name,
        ),
{
    let by_pick = Set::new(
        |name: Seq<char>|
            exists|k: int| 0 <= k < picked.len() && names[#[trigger] picked[k] as int] == name,
    );
    assert forall|name: Seq<char>| unpacked_names(names, entry_types).contains(name)
        implies by_pick.contains(name) by {
        let i = choose|i: int|
            0 <= i < names.len() && i < entry_types.len() && #[trigger] names[i] == name
                && !is_device_type(entry_types[i]);
        assert(!is_device_type(entry_types[i]));
        let k = choose|k: int| 0 <= k < picked.len() && #[trigger] picked[k] == i;
        assert(names[picked[k] as int] == name);
    }
    assert forall|name: Seq<char>| by_pick.contains(name) implies unpacked_names(
        names,
        entry_types,
    ).contains(name) by {
        let k = choose|k: int| 0 <= k < picked.len() && names[#[trigger] picked[k] as int] == name;
        let i = picked[k] as int;
        assert(names[i] == name && !is_device_type(entry_types[i]));
    }
    assert(unpacked_names(names, entry_types) =~= by_pick);
}

/// A device in an archive brings no name into the directory: if the name of a
/// device entry was not there before, and no entry other than devices has it,
/// it is not there after the extraction.
pub proof fn lemma_devices_bring_nothing(
    before: Set<Seq<char>>,
    names: Seq<Seq<char>>,
    entry_types: Seq<u8>,
    device: int,
)
    requires
        names.len() == entry_types.len(),
        0 <= device < names.len(),
        is_device_type(entry_types[device]),
        !before.contains(names[device]),
        forall|i: int|
            0 <= i < names.len() && #[trigger] names[i] == names[device] ==> is_device_type(
                entry_types[i],
            ),
    ensures
        !names_after(before, names, entry_types).contains(names[device]),
{
}

/// Unpacking the same archive a second time into the same directory leaves the
/// names in the directory as they were after the first time.
pub proof fn lemma_unpacking_twice(
    before: Set<Seq<char>>,
    names: Seq<Seq<char>>,
    entry_types: Seq<u8>,
)
    ensures
        names_after(names_after(before, names, entry_types), names, entry_types) == names_after(
            before,
            names,
            entry_types,
        ),
{
    assert(names_after(names_after(before, names, entry_types), names, entry_types)
        =~= names_after(before, names, entry_types));
}

} // verus!
