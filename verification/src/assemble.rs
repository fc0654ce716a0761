//! Assembly of a full alias record from plain path and name values: the
//! six standard extra sub-records (parent name, parent id, target
//! filename and volume name as UTF-16BE, the path from the volume root
//! to the target, and the volume root path), and the encode call on the
//! assembled record.

use vstd::prelude::*;
use vstd::utf8::encode_utf8;
use crate::codec::{alias_bytes, encode, names_fit, total_encoded_len};
use crate::dates::mac_timestamp;
use crate::endian::{be16, be32, push_be16, push_be32, push_bytes};
use crate::record::{AliasError, AliasRecord, AliasView, ExtraRecord, ExtraView, Parent,
    ParentView, Target, TargetView, Volume, VolumeKind, VolumeView};
use crate::utf16::{utf16be, utf16be_of};

verus! {

/// The payload of a UTF-16 extra: the number of code units as a
/// big-endian 16-bit prefix, then the UTF-16BE bytes.
pub open spec fn utf16_payload(name: Seq<char>) -> Seq<u8> {
    be16((utf16be_of(name).len() / 2) as u16) + utf16be_of(name)
}

/// The bytes of the target path below the volume root: the target path
/// with the volume root path's bytes removed from the front.
pub open spec fn relative_path_bytes(target_path: Seq<char>, volume_path: Seq<char>) -> Seq<u8> {
    encode_utf8(target_path).skip(encode_utf8(volume_path).len() as int)
}

/// The six standard extra sub-records, in the order they are emitted:
/// tag 0 the parent directory name, tag 1 the parent id as four
/// big-endian bytes, tag 14 the target filename as UTF-16BE with a
/// code-unit count prefix, tag 15 the volume name likewise, tag 18 the
/// path from the volume root to the target, tag 19 the volume root path.
pub open spec fn standard_extras(
    parent_name: Seq<char>,
    parent_id: u32,
    filename: Seq<char>,
    volume_name: Seq<char>,
    target_path: Seq<char>,
    volume_path: Seq<char>,
) -> Seq<ExtraView> {
    seq![
        ExtraView {
            tag: 0,
            length: encode_utf8(parent_name).len() as u16,
            data: encode_utf8(parent_name),
        },
        ExtraView { tag: 1, length: 4, data: be32(parent_id) },
        ExtraView {
            tag: 14,
            length: utf16_payload(filename).len() as u16,
            data: utf16_payload(filename),
        },
        ExtraView {
            tag: 15,
            length: utf16_payload(volume_name).len() as u16,
            data: utf16_payload(volume_name),
        },
        ExtraView {
            tag: 18,
            length: relative_path_bytes(target_path, volume_path).len() as u16,
            data: relative_path_bytes(target_path, volume_path),
        },
        ExtraView {
            tag: 19,
            length: encode_utf8(volume_path).len() as u16,
            data: encode_utf8(volume_path),
        },
    ]
}

/// The record the orchestration assembles: version 2, the given target,
/// parent and volume, and the six standard extras.
pub open spec fn assembled_view(
    target: TargetView,
    parent: ParentView,
    volume: VolumeView,
    target_path: Seq<char>,
    volume_path: Seq<char>,
) -> AliasView {
    AliasView {
        version: 2,
        target: target,
        parent: parent,
        volume: volume,
        extras: standard_extras(
            parent.name,
            parent.id,
            target.filename,
            volume.name,
            target_path,
            volume_path,
        ),
    }
}

/// Encodes `name` as UTF-16BE with its code-unit count as a big-endian
/// prefix.
fn utf16_with_count(name: &str) -> (r: Vec<u8>)
    requires
        2 + utf16be_of(name@).len() <= u16::MAX,
    ensures
        r@ == utf16_payload(name@),
{
    let units = utf16be(name);
    let mut r: Vec<u8> = Vec::new();
    push_be16(&mut r, (units.len() / 2) as u16);
    push_bytes(&mut r, &units);
    assert(r@ =~= utf16_payload(name@));
    r
}

/// Copies the bytes of `v` from position `from` on.
fn vec_suffix(v: &Vec<u8>, from: usize) -> (r: Vec<u8>)
    requires
        from <= v@.len(),
    ensures
        r@ == v@.skip(from as int),
{
    let mut r: Vec<u8> = Vec::new();
    let mut i: usize = from;
    while i < v.len()
        invariant
            from <= i <= v@.len(),
            r@ == v@.subrange(from as int, i as int),
        decreases v@.len() - i,
    {
        r.push(v[i]);
        assert(r@ =~= v@.subrange(from as int, i as int + 1));
        i = i + 1;
    }
    r
}

/// The kind of the volume a root path names: the filesystem root "/" is
/// a local volume, every other mount point is of another kind.
pub fn volume_kind_for_path(path: &str) -> (k: VolumeKind)
    ensures
        k == if path@ == seq!['/'] {
            VolumeKind::Local
        } else {
            VolumeKind::Other
        },
{
    if path.unicode_len() == 1 && path.get_char(0) == '/' {
        assert(path@ =~= seq!['/']);
        VolumeKind::Local
    } else {
        assert(path@ != seq!['/']) by {
            if path@ == seq!['/'] {
                assert(path@.len() == 1);
                assert(path@[0] == '/');
            }
        }
        VolumeKind::Other
    }
}

/// Builds the six standard extra sub-records.
pub fn build_extras(
    parent_name: &str,
    parent_id: u32,
    filename: &str,
    volume_name: &str,
    target_path: &str,
    volume_path: &str,
) -> (r: Vec<ExtraRecord>)
    requires
        encode_utf8(parent_name@).len() <= u16::MAX,
        2 + utf16be_of(filename@).len() <= u16::MAX,
        2 + utf16be_of(volume_name@).len() <= u16::MAX,
        encode_utf8(volume_path@).len() <= encode_utf8(target_path@).len(),
        encode_utf8(target_path@).len() - encode_utf8(volume_path@).len() <= u16::MAX,
        encode_utf8(volume_path@).len() <= u16::MAX,
    ensures
        r.deep_view() == standard_extras(
            parent_name@,
            parent_id,
            filename@,
            volume_name@,
            target_path@,
            volume_path@,
        ),
{
    let mut extras: Vec<ExtraRecord> = Vec::new();

    let pn = parent_name.as_bytes_vec();
    let pn_len = pn.len() as u16;
    extras.push(ExtraRecord { tag: 0, length: pn_len, data: pn });

    let mut pid: Vec<u8> = Vec::new();
    push_be32(&mut pid, parent_id);
    assert(pid@ =~= be32(parent_id));
    extras.push(ExtraRecord { tag: 1, length: 4, data: pid });

    let fu = utf16_with_count(filename);
    let fu_len = fu.len() as u16;
    extras.push(ExtraRecord { tag: 14, length: fu_len, data: fu });

    let vu = utf16_with_count(volume_name);
    let vu_len = vu.len() as u16;
    extras.push(ExtraRecord { tag: 15, length: vu_len, data: vu });

    let tp = target_path.as_bytes_vec();
    let vp = volume_path.as_bytes_vec();
    let rel = vec_suffix(&tp, vp.len());
    let rel_len = rel.len() as u16;
    extras.push(ExtraRecord { tag: 18, length: rel_len, data: rel });

    let vp_len = vp.len() as u16;
    extras.push(ExtraRecord { tag: 19, length: vp_len, data: vp });

    assert(extras.deep_view() =~~= standard_extras(
        parent_name@,
        parent_id,
        filename@,
        volume_name@,
        target_path@,
        volume_path@,
    ));
    extras
}

/// Assembles the version-2 record for the given target, parent and
/// volume with the six standard extras, and encodes it. Fails with
/// `InvalidField`, producing no output, exactly when the volume name or
/// the target filename exceeds its fixed-width slot.
pub fn build_alias(
    target: Target,
    parent: Parent,
    volume: Volume,
    target_path: &str,
    volume_path: &str,
) -> (res: Result<Vec<u8>, AliasError>)
    requires
        encode_utf8(parent@.name).len() <= u16::MAX,
        2 + utf16be_of(target@.filename).len() <= u16::MAX,
        2 + utf16be_of(volume@.name).len() <= u16::MAX,
        encode_utf8(volume_path@).len() <= encode_utf8(target_path@).len(),
        encode_utf8(target_path@).len() - encode_utf8(volume_path@).len() <= u16::MAX,
        encode_utf8(volume_path@).len() <= u16::MAX,
        mac_timestamp(target@.created) <= u32::MAX,
        mac_timestamp(volume@.created) <= u32::MAX,
        total_encoded_len(
            assembled_view(target@, parent@, volume@, target_path@, volume_path@),
        ) < 65536,
    ensures
        match res {
            Ok(buf) => {
                let v = assembled_view(target@, parent@, volume@, target_path@, volume_path@);
                names_fit(v) && buf@ == alias_bytes(v) && buf@.len() == total_encoded_len(v)
            },
            Err(e) => e == AliasError::InvalidField && !names_fit(
                assembled_view(target@, parent@, volume@, target_path@, volume_path@),
            ),
        },
{
    let ghost v = assembled_view(target@, parent@, volume@, target_path@, volume_path@);
    let extras = build_extras(
        parent.name.as_str(),
        parent.id,
        target.filename.as_str(),
        volume.name.as_str(),
        target_path,
        volume_path,
    );
    let rec = AliasRecord { version: 2, target, parent, volume, extras };
    proof {
        assert(rec@ =~~= v);
        assert(forall|i: int| 0 <= i < v.extras.len() ==> (#[trigger] v.extras[i]).wf());
        assert(rec@.wf());
    }
    encode(&rec)
}

} // verus!
