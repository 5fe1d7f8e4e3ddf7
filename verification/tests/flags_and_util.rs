use nix::mount::{MntFlags, MsFlags};
use nix::sched::CloneFlags;
use rdocker::flags::{
    char_device_kind, detach_flags, device_id, namespace_flags, overlay_flags, propagation_flags,
    tmpfs_flags, wait_flags,
};
use rdocker::plan::Action;
use rdocker::text::is_valid_id;
use rdocker::util::{is_device_entry, untar, uuid, write_container_id, write_pid};

#[test]
fn mount_flags_have_the_kernel_values() {
    assert_eq!(propagation_flags(), 0x40000 | 0x4000);
    assert_eq!(overlay_flags(), 0x4);
    assert_eq!(tmpfs_flags(), 0x2 | 0x100_0000);
    assert_eq!(detach_flags(), 2);
}

#[test]
fn mount_flags_are_those_of_nix() {
    assert_eq!(propagation_flags(), (MsFlags::MS_PRIVATE | MsFlags::MS_REC).bits() as u64);
    assert_eq!(overlay_flags(), MsFlags::MS_NODEV.bits() as u64);
    assert_eq!(tmpfs_flags(), (MsFlags::MS_NOSUID | MsFlags::MS_STRICTATIME).bits() as u64);
    assert_eq!(detach_flags(), MntFlags::MNT_DETACH.bits() as i32);
}

#[test]
fn namespace_flags_name_the_four_namespaces() {
    assert_eq!(namespace_flags(), 0x6402_0000);
    let flags = CloneFlags::CLONE_NEWNS
        | CloneFlags::CLONE_NEWUTS
        | CloneFlags::CLONE_NEWNET
        | CloneFlags::CLONE_NEWPID;
    assert_eq!(namespace_flags(), flags.bits() as i32);
}

#[test]
fn wait_flags_match_cloned_children() {
    assert_eq!(wait_flags(), i32::MIN);
    assert_eq!(wait_flags(), nix::sys::wait::WaitPidFlag::__WCLONE.bits() as i32);
}

#[test]
fn character_devices_have_their_type_bits() {
    assert_eq!(char_device_kind(), 0o020000);
    assert_eq!(char_device_kind(), nix::sys::stat::SFlag::S_IFCHR.bits() as u32);
}

#[test]
fn device_ids_of_the_standard_devices() {
    assert_eq!(device_id(1, 3), 259);
    assert_eq!(device_id(1, 5), 261);
    assert_eq!(device_id(1, 8), 264);
    assert_eq!(device_id(1, 9), 265);
    assert_eq!(device_id(136, 3), 34819);
    assert_eq!(device_id(0, 0), 0);
}

#[test]
fn device_ids_spread_large_numbers() {
    assert_eq!(device_id(0xfff, 0xff), 0xfffff);
    assert_eq!(device_id(0x1000, 0), 0x1000u64 << 32);
    assert_eq!(device_id(0, 0x100), 0x100u64 << 12);
    assert_eq!(device_id(0x1234_5678, 0x9abc_def0), {
        let major: u64 = 0x1234_5678;
        let minor: u64 = 0x9abc_def0;
        ((major & 0xffff_f000) << 32)
            | ((major & 0xfff) << 8)
            | ((minor & 0xffff_ff00) << 12)
            | (minor & 0xff)
    });
    assert_eq!(device_id(7, 300), nix::sys::stat::makedev(7, 300) as u64);
}

#[test]
fn identifiers_are_32_lowercase_hex_characters() {
    for _ in 0..64 {
        let id = uuid();
        assert_eq!(id.len(), 32);
        assert!(id.chars().all(|c| matches!(c, '0'..='9' | 'a'..='f')));
        assert!(is_valid_id(&id));
    }
}

#[test]
fn identifiers_differ_from_call_to_call() {
    let mut seen = std::collections::HashSet::new();
    for _ in 0..256 {
        assert!(seen.insert(uuid()));
    }
}

#[test]
fn only_character_and_block_devices_are_device_entries() {
    for byte in 0..=255u8 {
        assert_eq!(is_device_entry(byte), byte == b'3' || byte == b'4', "type byte {}", byte);
    }
}

#[test]
fn device_entries_are_those_that_tar_calls_devices() {
    for byte in 0..=255u8 {
        let kind = tar::EntryType::new(byte);
        assert_eq!(is_device_entry(byte), kind.is_character_special() || kind.is_block_special());
        assert_eq!(
            is_device_entry(byte),
            kind == tar::EntryType::Char || kind == tar::EntryType::Block
        );
    }
}

#[test]
fn untar_leaves_out_the_devices() {
    let types = vec![b'5', b'0', b'3', b'2', b'4', b'1', b'6', 0u8, b'3'];
    assert_eq!(untar(&types), vec![0, 1, 3, 5, 6, 7]);
}

#[test]
fn untar_of_an_empty_archive_picks_nothing() {
    assert_eq!(untar(&Vec::new()), Vec::<usize>::new());
}

#[test]
fn untar_of_devices_only_picks_nothing() {
    assert_eq!(untar(&vec![b'3', b'4', b'4', b'3']), Vec::<usize>::new());
}

#[test]
fn untar_without_devices_picks_everything() {
    let types = vec![b'0', b'5', b'2', b'1', b'6', b'7', b'x', b'g', b'L', b'K', b'S', 200];
    assert_eq!(untar(&types), (0..types.len()).collect::<Vec<usize>>());
}

#[test]
fn untar_picks_the_same_entries_each_time() {
    let types = vec![b'5', b'3', b'0', b'4', b'0'];
    assert_eq!(untar(&types), untar(&types));
    assert_eq!(untar(&types), vec![0, 2, 4]);
}

#[test]
fn untar_reads_the_types_of_a_real_archive() {
    let mut builder = tar::Builder::new(Vec::new());
    let mut add = |name: &str, kind: tar::EntryType| {
        let mut header = tar::Header::new_gnu();
        header.set_path(name).unwrap();
        header.set_entry_type(kind);
        header.set_size(0);
        header.set_mode(0o644);
        header.set_cksum();
        builder.append(&header, std::io::empty()).unwrap();
    };
    add("bin/", tar::EntryType::Directory);
    add("dev/foo", tar::EntryType::Char);
    add("bin/busybox", tar::EntryType::Regular);
    add("dev/sda", tar::EntryType::Block);
    add("pipe", tar::EntryType::Fifo);
    let bytes = builder.into_inner().unwrap();

    let mut archive = tar::Archive::new(&bytes[..]);
    let mut names = Vec::new();
    let mut types = Vec::new();
    for entry in archive.entries().unwrap() {
        let entry = entry.unwrap();
        names.push(entry.path().unwrap().to_str().unwrap().to_owned());
        types.push(entry.header().entry_type().as_byte());
    }
    let picked: Vec<&str> = untar(&types).into_iter().map(|i| names[i].as_str()).collect();
    assert_eq!(picked, vec!["bin/", "bin/busybox", "pipe"]);
}

#[test]
fn the_pid_file_holds_the_pid_in_decimal() {
    assert_eq!(
        write_pid(4711),
        Action::WriteFile { path: "container.pid".to_owned(), text: "4711".to_owned() }
    );
    assert_eq!(
        write_pid(1),
        Action::WriteFile { path: "container.pid".to_owned(), text: "1".to_owned() }
    );
}

#[test]
fn the_id_file_holds_the_identifier() {
    assert_eq!(
        write_container_id("0123456789abcdef0123456789abcdef".to_owned()),
        Action::WriteFile {
            path: "container.cid".to_owned(),
            text: "0123456789abcdef0123456789abcdef".to_owned()
        }
    );
}
