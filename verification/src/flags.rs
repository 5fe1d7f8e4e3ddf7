//! The kernel's flag words and device numbers, as the `nix` crate names them on
//! Linux, and the combinations of them that a container's bring-up uses.

use vstd::prelude::*;

verus! {

/// The device number that the kernel forms from a major and a minor number.
pub open spec fn device_number(major: u64, minor: u64) -> u64 {
    ((major & 0xffff_f000) << 32) | ((major & 0x0000_0fff) << 8) | ((minor & 0xffff_ff00) << 12) | (
    minor & 0x0000_00ff)
}

/// Mount flags for making a tree private, recursively.
pub open spec fn propagation_bits() -> u64 {
    0x44000
}

/// Mount flags of the overlay: no device files.
pub open spec fn overlay_bits() -> u64 {
    0x4
}

/// Mount flags of the guest's `/dev`: no set-uid, strict access times.
pub open spec fn tmpfs_bits() -> u64 {
    0x1000002
}

/// Clone flags for new mount, UTS, network and PID namespaces.
pub open spec fn namespace_bits() -> i32 {
    0x6402_0000
}

/// Wait flag that matches children made by `clone`.
pub open spec fn wait_bits() -> i32 {
    i32::MIN
}

/// Unmount flag for a lazy unmount.
pub open spec fn detach_bits() -> i32 {
    0x2
}

/// File type bits of a character device.
pub open spec fn char_device_bits() -> u32 {
    0o020000
}

/// Trusted: the bits of `nix::mount::MsFlags::MS_NOSUID`, which on Linux are 0x2.
#[verifier::external_body]
fn ms_nosuid() -> (bits: u64)
    ensures
        bits == 0x2,
{
    nix::mount::MsFlags::MS_NOSUID.bits() as u64
}

/// Trusted: the bits of `nix::mount::MsFlags::MS_NODEV`, which on Linux are 0x4.
#[verifier::external_body]
fn ms_nodev() -> (bits: u64)
    ensures
        bits == 0x4,
{
    nix::mount::MsFlags::MS_NODEV.bits() as u64
}

/// Trusted: the bits of `nix::mount::MsFlags::MS_REC`, which on Linux are 0x4000.
#[verifier::external_body]
fn ms_rec() -> (bits: u64)
    ensures
        bits == 0x4000,
{
    nix::mount::MsFlags::MS_REC.bits() as u64
}

/// Trusted: the bits of `nix::mount::MsFlags::MS_PRIVATE`, which on Linux are 0x40000.
#[verifier::external_body]
fn ms_private() -> (bits: u64)
    ensures
        bits == 0x40000,
{
    nix::mount::MsFlags::MS_PRIVATE.bits() as u64
}

/// Trusted: the bits of `nix::mount::MsFlags::MS_STRICTATIME`, which on Linux are
/// 0x1000000.
#[verifier::external_body]
fn ms_strictatime() -> (bits: u64)
    ensures
        bits == 0x1000000,
{
    nix::mount::MsFlags::MS_STRICTATIME.bits() as u64
}

/// Trusted: the bits of `nix::mount::MntFlags::MNT_DETACH`, which on Linux are 0x2.
#[verifier::external_body]
fn mnt_detach() -> (bits: i32)
    ensures
        bits == 0x2,
{
    nix::mount::MntFlags::MNT_DETACH.bits() as i32
}

/// Trusted: the bits of `nix::sched::CloneFlags::CLONE_NEWNS`, which on Linux are
/// 0x20000.
#[verifier::external_body]
fn clone_newns() -> (bits: i32)
    ensures
        bits == 0x20000,
{
    nix::sched::CloneFlags::CLONE_NEWNS.bits() as i32
}

/// Trusted: the bits of `nix::sched::CloneFlags::CLONE_NEWUTS`, which on Linux are
/// 0x4000000.
#[verifier::external_body]
fn clone_newuts() -> (bits: i32)
    ensures
        bits == 0x400_0000,
{
    nix::sched::CloneFlags::CLONE_NEWUTS.bits() as i32
}

/// Trusted: the bits of `nix::sched::CloneFlags::CLONE_NEWPID`, which on Linux are
/// 0x20000000.
#[verifier::external_body]
fn clone_newpid() -> (bits: i32)
    ensures
        bits == 0x2000_0000,
{
    nix::sched::CloneFlags::CLONE_NEWPID.bits() as i32
}

/// Trusted: the bits of `nix::sched::CloneFlags::CLONE_NEWNET`, which on Linux are
/// 0x40000000.
#[verifier::external_body]
fn clone_newnet() -> (bits: i32)
    ensures
        bits == 0x4000_0000,
{
    nix::sched::CloneFlags::CLONE_NEWNET.bits() as i32
}

/// Trusted: the bits of `nix::sys::wait::WaitPidFlag::__WCLONE`, which on Linux are
/// 0x80000000 read as a signed 32-bit integer.
#[verifier::external_body]
fn wait_clone() -> (bits: i32)
    ensures
        bits == i32::MIN,
{
    nix::sys::wait::WaitPidFlag::__WCLONE.bits() as i32
}

/// Trusted: the bits of `nix::sys::stat::SFlag::S_IFCHR`, which on Linux are 0o020000.
#[verifier::external_body]
fn s_ifchr() -> (bits: u32)
    ensures
        bits == 0o020000,
{
    nix::sys::stat::SFlag::S_IFCHR.bits() as u32
}

/// Trusted: `nix::sys::stat::makedev`, which on Linux spreads the two numbers over
/// the 64 bits of a device number as `device_number` says.
#[verifier::external_body]
fn nix_makedev(major: u64, minor: u64) -> (device: u64)
    ensures
        device == device_number(major, minor),
{
    nix::sys::stat::makedev(major, minor) as u64
}

/// The mount flags that make a tree private, recursively.
pub fn propagation_flags() -> (bits: u64)
    ensures
        bits == propagation_bits(),
{
    let private = ms_private();
    let recursive = ms_rec();
    assert(0x40000u64 | 0x4000u64 == 0x44000u64) by (bit_vector);
    private | recursive
}

/// The mount flags of the overlay.
pub fn overlay_flags() -> (bits: u64)
    ensures
        bits == overlay_bits(),
{
    ms_nodev()
}

/// The mount flags of the guest's `/dev`.
pub fn tmpfs_flags() -> (bits: u64)
    ensures
        bits == tmpfs_bits(),
{
    let nosuid = ms_nosuid();
    let strictatime = ms_strictatime();
    assert(0x2u64 | 0x1000000u64 == 0x1000002u64) by (bit_vector);
    nosuid | strictatime
}

/// The clone flags that give the guest its own mount, UTS, network and PID
/// namespaces.
pub fn namespace_flags() -> (bits: i32)
    ensures
        bits == namespace_bits(),
{
    let mounts = clone_newns();
    let uts = clone_newuts();
    let net = clone_newnet();
    let pid = clone_newpid();
    assert(0x20000i32 | 0x400_0000i32 | 0x4000_0000i32 | 0x2000_0000i32 == 0x6402_0000i32)
        by (bit_vector);
    mounts | uts | net | pid
}

/// The flag to wait for a child made by `clone`.
pub fn wait_flags() -> (bits: i32)
    ensures
        bits == wait_bits(),
{
    wait_clone()
}

/// The flag for a lazy unmount.
pub fn detach_flags() -> (bits: i32)
    ensures
        bits == detach_bits(),
{
    mnt_detach()
}

/// The file type bits of a character device.
pub fn char_device_kind() -> (bits: u32)
    ensures
        bits == char_device_bits(),
{
    s_ifchr()
}

/// The device number of the device with the given major and minor numbers.
pub fn device_id(major: u64, minor: u64) -> (device: u64)
    ensures
        device == device_number(major, minor),
        major < 0x1000 && minor < 0x100 ==> device == major * 256 + minor,
{
    let device = nix_makedev(major, minor);
    proof {
        lemma_small_device_number(major, minor);
    }
    device
}

/// With a major number under 4096 and a minor number under 256, the device
/// number is the major number times 256 plus the minor number.
pub proof fn lemma_small_device_number(major: u64, minor: u64)
    ensures
        major < 0x1000 && minor < 0x100 ==> device_number(major, minor) == major * 256 + minor,
{
    if major < 0x1000 && minor < 0x100 {
        assert(((major & 0xffff_f000) << 32) | ((major & 0x0000_0fff) << 8) | ((minor & 0xffff_ff00)
            << 12) | (minor & 0x0000_00ff) == major * 256 + minor) by (bit_vector)
            requires
                major < 0x1000,
                minor < 0x100,
        ;
    }
}

} // verus!
