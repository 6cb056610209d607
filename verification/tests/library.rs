use pcr_predict::device_path::{traverse_device_path, DevicePathNode, SignatureKind};
use pcr_predict::drop_ins::{DropIn, DropIns, FindDropIn, Matcher};
use pcr_predict::hash::{Hasher, MeasureInPlace};
use pcr_predict::hash::Hash as HashAlg;
use pcr_predict::mount::{default_root, find_mount_dir, partuuid_symlink, MountEntry};
use pcr_predict::paths::translate_path;
use pcr_predict::util::fixup_uuid;
use pcr_predict::hash::render_digest;

use sha2::Digest;

#[test]
fn fixup_swaps_the_three_leading_fields() {
    let raw: u128 = 0x00112233_4455_6677_8899aabbccddeeff;
    let fixed = fixup_uuid(raw);
    assert_eq!(fixed, 0x33221100_5544_7766_8899aabbccddeeff);
}

#[test]
fn fixup_is_an_involution() {
    let samples: Vec<u128> = vec![
        0,
        u128::MAX,
        0x00112233_4455_6677_8899aabbccddeeff,
        0xdeadbeef_cafe_f00d_0123456789abcdef,
        1,
        1 << 127,
    ];
    for x in samples {
        assert_eq!(fixup_uuid(fixup_uuid(x)), x);
    }
}

#[test]
fn hasher_digest_lengths_match_the_algorithm() {
    let data = b"some measured bytes";
    for (alg, len) in [(HashAlg::Sha1, 20), (HashAlg::Sha256, 32), (HashAlg::Sha512, 64)] {
        let mut h = Hasher::new(alg);
        h.update(data);
        let d = h.finalize();
        assert_eq!(d.len(), len);
    }
}

#[test]
fn hasher_matches_one_shot_digests() {
    let data = b"hello authenticode";
    let mut h = Hasher::new(HashAlg::Sha256);
    h.update(&data[..5]);
    h.update(&data[5..]);
    let d = h.finalize();
    assert_eq!(d, sha2::Sha256::digest(data).to_vec());

    let mut h = Hasher::new(HashAlg::Sha1);
    h.update(data);
    assert_eq!(h.finalize(), sha1::Sha1::digest(data).to_vec());

    let mut h = Hasher::new(HashAlg::Sha512);
    h.update(data);
    assert_eq!(h.finalize(), sha2::Sha512::digest(data).to_vec());
}

#[test]
fn measure_extends_the_register_and_keeps_its_length() {
    let d1 = vec![0x11u8; 32];
    let d2 = vec![0x22u8; 32];
    let mut state = vec![0u8; 32];

    state.measure(&d1, Hasher::new(HashAlg::Sha256));
    let mut expected = Vec::new();
    expected.extend_from_slice(&[0u8; 32]);
    expected.extend_from_slice(&d1);
    let expected1 = sha2::Sha256::digest(&expected).to_vec();
    assert_eq!(state, expected1);
    assert_eq!(state.len(), 32);

    state.measure(&d2, Hasher::new(HashAlg::Sha256));
    let mut expected = Vec::new();
    expected.extend_from_slice(&expected1);
    expected.extend_from_slice(&d2);
    assert_eq!(state, sha2::Sha256::digest(&expected).to_vec());
    assert_eq!(state.len(), 32);
}

#[test]
fn render_digest_is_padded_lower_case_hex() {
    let state = vec![0x00u8, 0xab, 0x01, 0xff];
    assert_eq!(render_digest(&state), "00ab01ff");
    let zero = vec![0u8; 4];
    assert_eq!(render_digest(&zero), "00000000");
}

fn guid_node(sig: [u8; 16]) -> DevicePathNode {
    DevicePathNode::HardDrivePartition {
        partition_signature: sig.to_vec(),
        signature_type: SignatureKind::Guid,
    }
}

#[test]
fn resolver_yields_fixed_up_uuid_and_path() {
    let sig: [u8; 16] = [
        0x00, 0x11, 0x22, 0x33, 0x44, 0x55, 0x66, 0x77, 0x88, 0x99, 0xaa, 0xbb, 0xcc, 0xdd, 0xee,
        0xff,
    ];
    let nodes = vec![
        guid_node(sig),
        DevicePathNode::FilePath { path: "\\EFI\\foo.efi".to_string() },
    ];
    let (uuid, path) = traverse_device_path(&nodes);
    assert_eq!(uuid, Some(fixup_uuid(0x00112233_4455_6677_8899aabbccddeeff)));
    assert_eq!(path.as_deref(), Some("\\EFI\\foo.efi"));
}

#[test]
fn resolver_last_file_path_wins() {
    let nodes = vec![
        DevicePathNode::FilePath { path: "\\EFI\\first.efi".to_string() },
        DevicePathNode::Other,
        DevicePathNode::FilePath { path: "\\EFI\\second.efi".to_string() },
    ];
    let (uuid, path) = traverse_device_path(&nodes);
    assert_eq!(uuid, None);
    assert_eq!(path.as_deref(), Some("\\EFI\\second.efi"));
}

#[test]
fn resolver_without_file_path_yields_none() {
    let nodes = vec![guid_node([7u8; 16]), DevicePathNode::Other];
    let (uuid, path) = traverse_device_path(&nodes);
    assert!(uuid.is_some());
    assert_eq!(path, None);
}

#[test]
fn resolver_ignores_mbr_signatures() {
    let nodes = vec![DevicePathNode::HardDrivePartition {
        partition_signature: vec![1u8; 16],
        signature_type: SignatureKind::Mbr,
    }];
    let (uuid, path) = traverse_device_path(&nodes);
    assert_eq!(uuid, None);
    assert_eq!(path, None);
}

#[test]
fn first_matching_rule_wins() {
    let digest = vec![0xaau8; 32];
    let table = DropIns {
        rules: vec![
            DropIn {
                matcher: Matcher::RecordedHash { hash: digest.clone() },
                path: "/override/first".to_string(),
            },
            DropIn {
                matcher: Matcher::Path { path: "/boot/efi/EFI/foo.efi".to_string() },
                path: "/override/second".to_string(),
            },
        ],
    };
    let found = table.find_drop_in(&"/boot/efi/EFI/foo.efi".to_string(), &digest);
    assert_eq!(found.as_deref(), Some("/override/first"));
}

#[test]
fn regex_rule_matches_anywhere_in_the_path() {
    let table = DropIns {
        rules: vec![DropIn {
            matcher: Matcher::PathRegex { regex: "EFI/.*\\.efi$".to_string() },
            path: "/override/re".to_string(),
        }],
    };
    let digest = vec![0u8; 32];
    let hit = table.find_drop_in(&"/boot/efi/EFI/foo.efi".to_string(), &digest);
    assert_eq!(hit.as_deref(), Some("/override/re"));
    let miss = table.find_drop_in(&"/boot/efi/EFI/foo.txt".to_string(), &digest);
    assert_eq!(miss, None);
}

#[test]
fn empty_or_absent_table_yields_none() {
    let digest = vec![0u8; 20];
    let empty = DropIns { rules: vec![] };
    assert_eq!(empty.find_drop_in(&"/anything".to_string(), &digest), None);
    let absent: Option<DropIns> = None;
    assert_eq!(absent.find_drop_in(&"/anything".to_string(), &digest), None);
}

#[test]
fn loading_the_same_rules_twice_matches_alike() {
    let build = || DropIns {
        rules: vec![
            DropIn {
                matcher: Matcher::PathRegex { regex: "BOOTX64".to_string() },
                path: "/override/boot".to_string(),
            },
            DropIn {
                matcher: Matcher::RecordedHash { hash: vec![1, 2, 3] },
                path: "/override/hash".to_string(),
            },
        ],
    };
    let a = build();
    let b = build();
    for path in ["/boot/efi/EFI/BOOT/BOOTX64.EFI", "/boot/efi/other"] {
        for digest in [vec![1u8, 2, 3], vec![9u8]] {
            assert_eq!(
                a.find_drop_in(&path.to_string(), &digest),
                b.find_drop_in(&path.to_string(), &digest)
            );
        }
    }
}

#[test]
fn mount_table_first_exact_match_wins() {
    let mounts = vec![
        MountEntry { device: "/dev/sda1".to_string(), mount_dir: "/boot/efi".to_string() },
        MountEntry { device: "/dev/sda2".to_string(), mount_dir: "/".to_string() },
        MountEntry { device: "/dev/sda1".to_string(), mount_dir: "/mnt/other".to_string() },
    ];
    let found = find_mount_dir(&mounts, &"/dev/sda1".to_string());
    assert_eq!(found.as_deref(), Some("/boot/efi"));
    assert_eq!(find_mount_dir(&mounts, &"/dev/sdb1".to_string()), None);
}

#[test]
fn default_root_is_the_conventional_esp_location() {
    assert_eq!(default_root(), "/boot/efi");
}

#[test]
fn partuuid_symlink_renders_the_uuid() {
    let id: u128 = 0x00112233_4455_6677_8899aabbccddeeff;
    assert_eq!(
        partuuid_symlink(id),
        "/dev/disk/by-partuuid/00112233-4455-6677-8899-aabbccddeeff"
    );
}

#[test]
fn translate_converts_separators_and_joins() {
    let root = "/boot/efi".to_string();
    assert_eq!(
        translate_path("\\EFI\\BOOT\\BOOTX64.EFI", &root),
        "/boot/efi/EFI/BOOT/BOOTX64.EFI"
    );
}

#[test]
fn translate_strips_leading_separators_and_keeps_trailing_root_slash() {
    let root = "/mnt/esp/".to_string();
    assert_eq!(translate_path("\\EFI\\foo.efi", &root), "/mnt/esp/EFI/foo.efi");
    let root = "/mnt/esp".to_string();
    assert_eq!(translate_path("EFI\\foo.efi", &root), "/mnt/esp/EFI/foo.efi");
}
