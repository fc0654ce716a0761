use macos_alias::assemble::{build_alias, build_extras, volume_kind_for_path};
use macos_alias::codec::encode;
use macos_alias::record::{
    AliasRecord, ExtraRecord, Parent, Target, TargetKind, Volume, VolumeKind, VolumeSignature,
};
use macos_alias::utf16::utf16be;
use macos_alias::volume::{find_volume_root, volume_root_step, NodeId};

fn node(dev: u64, ino: u64) -> NodeId {
    NodeId { dev, ino }
}

#[test]
fn volume_root_on_device_change() {
    // The parent two levels up lies on another device: the walk stops on
    // the last path of the original device.
    let chain = vec![node(5, 100), node(5, 7), node(3, 2), node(3, 2)];
    assert_eq!(find_volume_root(&chain), 1);
}

#[test]
fn volume_root_on_repeated_inode() {
    // "." and ".." resolve to the same node at the filesystem root.
    let chain = vec![node(5, 100), node(5, 7), node(5, 7)];
    assert_eq!(find_volume_root(&chain), 1);
}

#[test]
fn volume_root_without_parent() {
    // A path with no parent is returned immediately.
    let chain = vec![node(5, 100)];
    assert_eq!(find_volume_root(&chain), 0);
}

#[test]
fn volume_root_walks_whole_chain() {
    let chain = vec![node(5, 100), node(5, 7), node(5, 3)];
    assert_eq!(find_volume_root(&chain), 2);
}

#[test]
fn volume_root_is_fixed_point() {
    // Re-running the walk from the found root returns the root itself.
    let chain = vec![node(5, 100), node(5, 7), node(3, 2), node(3, 1)];
    let idx = find_volume_root(&chain);
    assert_eq!(idx, 1);
    let rest: Vec<NodeId> = chain[idx..].to_vec();
    assert_eq!(find_volume_root(&rest), 0);
}

#[test]
fn step_decision() {
    assert!(volume_root_step(node(1, 2), node(2, 3)));
    assert!(volume_root_step(node(1, 2), node(1, 2)));
    assert!(!volume_root_step(node(1, 2), node(1, 3)));
}

#[test]
fn utf16be_ascii() {
    assert_eq!(
        utf16be("Test Title"),
        vec![0, 84, 0, 101, 0, 115, 0, 116, 0, 32, 0, 84, 0, 105, 0, 116, 0, 108, 0, 101]
    );
}

#[test]
fn utf16be_surrogate_pair() {
    // U+1F600 encodes as the surrogate pair D83D DE00.
    assert_eq!(utf16be("\u{1F600}"), vec![0xD8, 0x3D, 0xDE, 0x00]);
    // U+00E9 is a single code unit.
    assert_eq!(utf16be("\u{E9}"), vec![0x00, 0xE9]);
}

#[test]
fn volume_kind_of_root_path() {
    assert_eq!(volume_kind_for_path("/"), VolumeKind::Local);
    assert_eq!(volume_kind_for_path("/Volumes/Test Title"), VolumeKind::Other);
}

#[test]
fn standard_extras_built_from_paths() {
    let extras = build_extras(
        ".background",
        19,
        "TestBkg.tiff",
        "Test Title",
        "/Volumes/Test Title/.background/TestBkg.tiff",
        "/Volumes/Test Title",
    );
    let tags: Vec<i16> = extras.iter().map(|e| e.tag).collect();
    assert_eq!(tags, vec![0, 1, 14, 15, 18, 19]);
    assert_eq!(extras[0].data, ".background".as_bytes().to_vec());
    assert_eq!(extras[0].length, 11);
    assert_eq!(extras[1].data, vec![0, 0, 0, 19]);
    // Code-unit count prefix, then UTF-16BE.
    assert_eq!(
        extras[2].data,
        vec![0, 12, 0, 84, 0, 101, 0, 115, 0, 116, 0, 66, 0, 107, 0, 103, 0, 46, 0, 116, 0, 105, 0, 102, 0, 102]
    );
    assert_eq!(
        extras[3].data,
        vec![0, 10, 0, 84, 0, 101, 0, 115, 0, 116, 0, 32, 0, 84, 0, 105, 0, 116, 0, 108, 0, 101]
    );
    // The path below the volume root, and the volume root path.
    assert_eq!(extras[4].data, "/.background/TestBkg.tiff".as_bytes().to_vec());
    assert_eq!(extras[5].data, "/Volumes/Test Title".as_bytes().to_vec());
    for e in extras.iter() {
        assert_eq!(e.length as usize, e.data.len());
    }
}

#[test]
fn build_alias_end_to_end() {
    let target = Target {
        kind: TargetKind::File,
        filename: "TestBkg.tiff".to_owned(),
        id: 20,
        created: 1388686808000,
    };
    let parent = Parent {
        id: 19,
        name: ".background".to_owned(),
    };
    let volume = Volume {
        name: "Test Title".to_owned(),
        created: 1388686804000,
        signature: VolumeSignature::HPlus,
        kind: VolumeKind::Other,
    };
    let built = build_alias(
        target,
        parent,
        volume,
        "/Volumes/Test Title/.background/TestBkg.tiff",
        "/Volumes/Test Title",
    )
    .unwrap();

    // The same record assembled by hand must encode identically.
    let expected_record = AliasRecord {
        version: 2,
        target: Target {
            kind: TargetKind::File,
            filename: "TestBkg.tiff".to_owned(),
            id: 20,
            created: 1388686808000,
        },
        parent: Parent {
            id: 19,
            name: ".background".to_owned(),
        },
        volume: Volume {
            name: "Test Title".to_owned(),
            created: 1388686804000,
            signature: VolumeSignature::HPlus,
            kind: VolumeKind::Other,
        },
        extras: vec![
            ExtraRecord {
                tag: 0,
                length: 11,
                data: ".background".as_bytes().to_vec(),
            },
            ExtraRecord {
                tag: 1,
                length: 4,
                data: vec![0, 0, 0, 19],
            },
            ExtraRecord {
                tag: 14,
                length: 26,
                data: vec![
                    0, 12, 0, 84, 0, 101, 0, 115, 0, 116, 0, 66, 0, 107, 0, 103, 0, 46, 0, 116, 0,
                    105, 0, 102, 0, 102,
                ],
            },
            ExtraRecord {
                tag: 15,
                length: 22,
                data: vec![
                    0, 10, 0, 84, 0, 101, 0, 115, 0, 116, 0, 32, 0, 84, 0, 105, 0, 116, 0, 108, 0,
                    101,
                ],
            },
            ExtraRecord {
                tag: 18,
                length: 25,
                data: "/.background/TestBkg.tiff".as_bytes().to_vec(),
            },
            ExtraRecord {
                tag: 19,
                length: 19,
                data: "/Volumes/Test Title".as_bytes().to_vec(),
            },
        ],
    };
    let expected = encode(&expected_record).unwrap();
    assert_eq!(built, expected);
    assert_eq!(&built[built.len() - 4..], &[255, 255, 0, 0]);
    // Version 2 sits at offset 6.
    assert_eq!(&built[6..8], &[0, 2]);
}

#[test]
fn build_alias_rejects_long_volume_name() {
    let target = Target {
        kind: TargetKind::Directory,
        filename: "d".to_owned(),
        id: 2,
        created: 0,
    };
    let parent = Parent {
        id: 1,
        name: "p".to_owned(),
    };
    let volume = Volume {
        name: "n".repeat(28),
        created: 0,
        signature: VolumeSignature::Hx,
        kind: VolumeKind::Local,
    };
    let res = build_alias(target, parent, volume, "/p/d", "/");
    assert!(res.is_err());
}
