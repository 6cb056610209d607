//! Mapping a partition UUID to a mounted filesystem root.
//!
//! The partition UUID names a stable by-partition-UUID symlink; once the
//! surrounding program has resolved that symlink to a canonical device
//! node, the mount table is scanned for an entry whose device field
//! matches it exactly, and that entry's mount directory becomes the EFI
//! System Partition root.  Any failure along the way falls back to a
//! fixed conventional root and is never fatal.

use vstd::prelude::*;
use vstd::string::*;

use crate::hash::spec_hex;

verus! {

/// One entry of the live mount table: a device node and its mount directory.
pub struct MountEntry {
    pub device: String,
    pub mount_dir: String,
}

/// The big-endian bytes of a 128-bit value, most significant first.
pub open spec fn spec_be_bytes(id: u128) -> Seq<u8> {
    Seq::new(16, |i: int| ((id >> ((120 - 8 * i) as u128)) & 0xff) as u8)
}

/// The hyphenated lower-case rendering of a 128-bit UUID: the hex digits
/// of its big-endian bytes in groups of 8, 4, 4, 4 and 12.
pub open spec fn spec_uuid_hyphenated(id: u128) -> Seq<char> {
    let b = spec_be_bytes(id);
    spec_hex(b.subrange(0, 4)) + seq!['-'] + spec_hex(b.subrange(4, 6)) + seq!['-'] + spec_hex(
        b.subrange(6, 8),
    ) + seq!['-'] + spec_hex(b.subrange(8, 10)) + seq!['-'] + spec_hex(b.subrange(10, 16))
}

/// Relies on uuid::Uuid::from_u128 and its ToString rendering: the
/// hyphenated lower-case form of the value's big-endian bytes.
#[verifier::external_body]
fn uuid_hyphenated(id: u128) -> (r: String)
    ensures
        r@ == spec_uuid_hyphenated(id),
{
    uuid::Uuid::from_u128(id).to_string()
}

/// The stable symlink that names a partition by its UUID.
pub open spec fn spec_partuuid_symlink(id: u128) -> Seq<char> {
    "/dev/disk/by-partuuid/"@ + spec_uuid_hyphenated(id)
}

/// The path of the by-partition-UUID symlink for the given UUID.
pub fn partuuid_symlink(id: u128) -> (r: String)
    ensures
        r@ == spec_partuuid_symlink(id),
{
    let base = String::from_str("/dev/disk/by-partuuid/");
    base.concat(uuid_hyphenated(id).as_str())
}

/// The mount directory of the first mount-table entry whose device field
/// equals the canonical device path exactly, if any.
pub open spec fn spec_find_mount(mounts: Seq<MountEntry>, dev: Seq<char>) -> Option<Seq<char>>
    decreases mounts.len(),
{
    if mounts.len() == 0 {
        Option::None
    } else if mounts[0].device@ == dev {
        Option::Some(mounts[0].mount_dir@)
    } else {
        spec_find_mount(mounts.skip(1), dev)
    }
}

/// Scan the mount table in order for an entry whose device matches the
/// canonical device path exactly; the first match wins.
pub fn find_mount_dir(mounts: &Vec<MountEntry>, dev: &String) -> (r: Option<String>)
    ensures
        match spec_find_mount(mounts@, dev@) {
            Option::Some(d) => r matches Some(s) && s@ == d,
            Option::None => r is None,
        },
{
    let mut i: usize = 0;
    proof {
        assert(mounts@.skip(0) =~= mounts@);
    }
    while i < mounts.len()
        invariant
            i <= mounts@.len(),
            spec_find_mount(mounts@, dev@) == spec_find_mount(mounts@.skip(i as int), dev@),
        decreases mounts@.len() - i,
    {
        proof {
            assert(mounts@.skip(i as int)[0] == mounts@[i as int]);
            assert(mounts@.skip(i as int).skip(1) =~= mounts@.skip(i + 1));
        }
        if mounts[i].device == *dev {
            return Some(mounts[i].mount_dir.clone());
        }
        i = i + 1;
    }
    proof {
        assert(mounts@.skip(mounts@.len() as int).len() == 0);
    }
    None
}

/// The fixed fallback root: the conventional EFI System Partition mount
/// location.
pub open spec fn spec_default_root() -> Seq<char> {
    "/boot/efi"@
}

/// The conventional EFI System Partition mount location.
pub fn default_root() -> (r: String)
    ensures
        r@ == spec_default_root(),
{
    String::from_str("/boot/efi")
}

/// The root the path translator anchors at: the resolved mount directory
/// when the lookup succeeded, the fixed fallback otherwise.
pub open spec fn spec_effective_root(resolved: Option<Seq<char>>) -> Seq<char> {
    match resolved {
        Option::Some(d) => d,
        Option::None => spec_default_root(),
    }
}

/// Fall back to the conventional root when mount resolution failed.
pub fn effective_root(resolved: Option<String>) -> (r: String)
    ensures
        match resolved {
            Option::Some(d) => r@ == d@,
            Option::None => r@ == spec_default_root(),
        },
{
    match resolved {
        Option::Some(d) => d,
        Option::None => default_root(),
    }
}

/// Mount-resolution fallback: when the partition UUID is absent, or the
/// canonical device is unknown, or no mount-table entry matches it, the
/// effective root is exactly the fixed default location.
pub proof fn lemma_mount_fallback(
    canonical_dev: Option<Seq<char>>,
    mounts: Seq<MountEntry>,
)
    requires
        canonical_dev matches Option::Some(d) ==> spec_find_mount(mounts, d) is None,
    ensures
        spec_effective_root(
            match canonical_dev {
                Option::Some(d) => spec_find_mount(mounts, d),
                Option::None => Option::None,
            },
        ) == spec_default_root(),
{
}

} // verus!
