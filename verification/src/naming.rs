//! Naming conventions: the partition device derived from the drive path, and
//! the ephemeral mountpoints whose shared prefix lets cleanup find them.

use vstd::prelude::*;
use vstd::string::StrSliceExecFns;
use vstd::string::StringExecFns;
use crate::text::contains_seq;
use crate::text::has_prefix;
use crate::text::spec_decimal;
use crate::text::str_contains;
use crate::text::push_decimal;

verus! {

/// The first partition's device path: a `p1` suffix for NVMe-style device
/// names, a bare `1` suffix otherwise.
pub open spec fn spec_partition_device(drive: Seq<char>) -> Seq<char> {
    if contains_seq(drive, "nvme"@) {
        drive + "p1"@
    } else {
        drive + "1"@
    }
}

/// Derives the first partition's device path from the drive path.
pub fn partition_device(drive: &str) -> (r: String)
    ensures
        r@ == spec_partition_device(drive@),
{
    let mut s = String::new();
    s.append(drive);
    if str_contains(drive, "nvme") {
        s.append("p1");
    } else {
        s.append("1");
    }
    proof {
        assert(s@ =~= spec_partition_device(drive@));
    }
    s
}

/// The prefix every ephemeral mountpoint of this system carries; cleanup
/// unmounts by this pattern.
pub open spec fn spec_mount_prefix() -> Seq<char> {
    "/tmp/windusb_"@
}

/// The ephemeral mountpoint for the target drive, for a given job tag.
pub open spec fn spec_usb_mount(tag: nat) -> Seq<char> {
    "/tmp/windusb_usb_"@ + spec_decimal(tag)
}

/// The ephemeral mountpoint for the image, for a given job tag.
pub open spec fn spec_iso_mount(tag: nat) -> Seq<char> {
    "/tmp/windusb_iso_"@ + spec_decimal(tag)
}

/// Builds the target-side mountpoint name for a job tag.
pub fn usb_mount_point(tag: u64) -> (r: String)
    ensures
        r@ == spec_usb_mount(tag as nat),
{
    let mut s = String::new();
    s.append("/tmp/windusb_usb_");
    push_decimal(&mut s, tag);
    proof {
        assert(s@ =~= spec_usb_mount(tag as nat));
    }
    s
}

/// Builds the image-side mountpoint name for a job tag.
pub fn iso_mount_point(tag: u64) -> (r: String)
    ensures
        r@ == spec_iso_mount(tag as nat),
{
    let mut s = String::new();
    s.append("/tmp/windusb_iso_");
    push_decimal(&mut s, tag);
    proof {
        assert(s@ =~= spec_iso_mount(tag as nat));
    }
    s
}

/// Every ephemeral mountpoint a job creates carries the cleanup prefix, so
/// the unmount-by-pattern step of cleanup reaches both of them.
pub proof fn lemma_mount_points_match_cleanup_pattern(tag: nat)
    ensures
        has_prefix(spec_usb_mount(tag), spec_mount_prefix()),
        has_prefix(spec_iso_mount(tag), spec_mount_prefix()),
{
    reveal_strlit("/tmp/windusb_");
    reveal_strlit("/tmp/windusb_usb_");
    reveal_strlit("/tmp/windusb_iso_");
    assert(spec_usb_mount(tag).subrange(0, spec_mount_prefix().len() as int)
        =~= spec_mount_prefix());
    assert(spec_iso_mount(tag).subrange(0, spec_mount_prefix().len() as int)
        =~= spec_mount_prefix());
}

} // verus!
