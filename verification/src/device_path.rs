//! Resolution of a boot device path to a partition identifier and an
//! on-volume executable path.
//!
//! A device path is a finite sequence of nodes.  Walking the nodes in
//! order, the last hard-drive-partition node carrying a GUID signature
//! determines the partition UUID (after byte-order fixup), and the last
//! file-path node determines the executable's native path; every other
//! node kind is ignored.  Either result may be absent.

use vstd::prelude::*;

use crate::util::{fixup_uuid, spec_fixup_uuid};

verus! {

/// How a hard-drive-partition node identifies its partition.
#[derive(Clone, Copy, PartialEq, Eq, Structural, Debug)]
pub enum SignatureKind {
    NoSignature,
    Mbr,
    Guid,
}

/// One node of a boot device path, reduced to the closed set of variants
/// the resolver distinguishes.
pub enum DevicePathNode {
    HardDrivePartition { partition_signature: Vec<u8>, signature_type: SignatureKind },
    FilePath { path: String },
    Other,
}

/// The 128-bit value stored big-endian in the first sixteen bytes.
pub open spec fn spec_u128_be(s: Seq<u8>) -> u128 {
    ((s[0] as u128) << 120) | ((s[1] as u128) << 112) | ((s[2] as u128) << 104)
        | ((s[3] as u128) << 96) | ((s[4] as u128) << 88) | ((s[5] as u128) << 80)
        | ((s[6] as u128) << 72) | ((s[7] as u128) << 64) | ((s[8] as u128) << 56)
        | ((s[9] as u128) << 48) | ((s[10] as u128) << 40) | ((s[11] as u128) << 32)
        | ((s[12] as u128) << 24) | ((s[13] as u128) << 16) | ((s[14] as u128) << 8)
        | (s[15] as u128)
}

/// Read the 128-bit partition signature from its first sixteen bytes.
pub fn u128_from_be_bytes(sig: &Vec<u8>) -> (r: u128)
    requires
        sig@.len() >= 16,
    ensures
        r == spec_u128_be(sig@),
{
    ((sig[0] as u128) << 120) | ((sig[1] as u128) << 112) | ((sig[2] as u128) << 104)
        | ((sig[3] as u128) << 96) | ((sig[4] as u128) << 88) | ((sig[5] as u128) << 80)
        | ((sig[6] as u128) << 72) | ((sig[7] as u128) << 64) | ((sig[8] as u128) << 56)
        | ((sig[9] as u128) << 48) | ((sig[10] as u128) << 40) | ((sig[11] as u128) << 32)
        | ((sig[12] as u128) << 24) | ((sig[13] as u128) << 16) | ((sig[14] as u128) << 8)
        | (sig[15] as u128)
}

/// Every GUID-signed partition node carries at least the sixteen
/// signature bytes the decoder reads.
pub open spec fn guid_nodes_wf(nodes: Seq<DevicePathNode>) -> bool {
    forall|i: int| 0 <= i < nodes.len() ==> match #[trigger] nodes[i] {
        DevicePathNode::HardDrivePartition { partition_signature, signature_type } =>
            signature_type == SignatureKind::Guid ==> partition_signature@.len() >= 16,
        _ => true,
    }
}

/// The partition UUID resolved from a node sequence: the fixed-up GUID of
/// the last GUID-signed hard-drive-partition node, if any.
pub open spec fn spec_traverse_uuid(nodes: Seq<DevicePathNode>) -> Option<u128>
    decreases nodes.len(),
{
    if nodes.len() == 0 {
        Option::None
    } else {
        match nodes.last() {
            DevicePathNode::HardDrivePartition { partition_signature, signature_type } => {
                if signature_type == SignatureKind::Guid {
                    Option::Some(spec_fixup_uuid(spec_u128_be(partition_signature@)))
                } else {
                    spec_traverse_uuid(nodes.drop_last())
                }
            },
            _ => spec_traverse_uuid(nodes.drop_last()),
        }
    }
}

/// The native path resolved from a node sequence: the last file-path
/// node's path, if any.
pub open spec fn spec_traverse_path(nodes: Seq<DevicePathNode>) -> Option<Seq<char>>
    decreases nodes.len(),
{
    if nodes.len() == 0 {
        Option::None
    } else {
        match nodes.last() {
            DevicePathNode::FilePath { path } => Option::Some(path@),
            _ => spec_traverse_path(nodes.drop_last()),
        }
    }
}

/// Walk the node sequence iteratively and return the accumulated
/// partition UUID and native path; the last node of each kind wins.
pub fn traverse_device_path(nodes: &Vec<DevicePathNode>) -> (r: (Option<u128>, Option<String>))
    requires
        guid_nodes_wf(nodes@),
    ensures
        r.0 == spec_traverse_uuid(nodes@),
        match spec_traverse_path(nodes@) {
            Option::Some(p) => r.1 matches Some(s) && s@ == p,
            Option::None => r.1 is None,
        },
{
    let mut uuid: Option<u128> = None;
    let mut path: Option<String> = None;
    let mut i: usize = 0;
    while i < nodes.len()
        invariant
            i <= nodes@.len(),
            guid_nodes_wf(nodes@),
            uuid == spec_traverse_uuid(nodes@.take(i as int)),
            match spec_traverse_path(nodes@.take(i as int)) {
                Option::Some(p) => path matches Some(s) && s@ == p,
                Option::None => path is None,
            },
        decreases nodes@.len() - i,
    {
        proof {
            assert(nodes@.take(i + 1).drop_last() =~= nodes@.take(i as int));
            assert(nodes@.take(i + 1).last() == nodes@[i as int]);
        }
        match &nodes[i] {
            DevicePathNode::HardDrivePartition { partition_signature, signature_type } => {
                if matches!(signature_type, SignatureKind::Guid) {
                    uuid = Some(fixup_uuid(u128_from_be_bytes(partition_signature)));
                }
            },
            DevicePathNode::FilePath { path: node_path } => {
                path = Some(node_path.clone());
            },
            DevicePathNode::Other => {},
        }
        i = i + 1;
    }
    proof {
        assert(nodes@.take(nodes@.len() as int) =~= nodes@);
    }
    (uuid, path)
}

/// When one of the nodes is a file-path node and no later node is one,
/// that node's path is the resolved path: the last file-path node wins.
pub proof fn lemma_last_file_path_wins(nodes: Seq<DevicePathNode>, i: int, p: Seq<char>)
    requires
        0 <= i < nodes.len(),
        nodes[i] matches DevicePathNode::FilePath { path } && path@ == p,
        forall|j: int| i < j < nodes.len() ==> !(#[trigger] nodes[j] is FilePath),
    ensures
        spec_traverse_path(nodes) == Option::Some(p),
    decreases nodes.len(),
{
    if i == nodes.len() - 1 {
    } else {
        assert(!(nodes.last() is FilePath));
        assert(nodes.drop_last()[i] == nodes[i]);
        lemma_last_file_path_wins(nodes.drop_last(), i, p);
    }
}

/// When no node is a file-path node, the resolved path is absent.
pub proof fn lemma_no_file_path_no_result(nodes: Seq<DevicePathNode>)
    requires
        forall|j: int| 0 <= j < nodes.len() ==> !(#[trigger] nodes[j] is FilePath),
    ensures
        spec_traverse_path(nodes) is None,
    decreases nodes.len(),
{
    if nodes.len() > 0 {
        lemma_no_file_path_no_result(nodes.drop_last());
    }
}

} // verus!
