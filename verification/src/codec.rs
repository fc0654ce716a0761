//! The binary encoder: the exact byte layout of an alias record, stated
//! as spec functions over the record's ghost view, and the executable
//! `encode` that is proved to produce it.
//!
//! Layout (all multi-byte integers big-endian): 4 reserved zero bytes,
//! the 2-byte total length, the 2-byte version, the 2-byte target kind,
//! a 28-byte volume-name block (1 length byte + 27 data bytes, zero
//! padded), the 4-byte volume creation date, the 2-byte volume
//! signature, the 2-byte volume kind, the 4-byte parent id, a 64-byte
//! filename block (1 + 63), the 4-byte target id, the 4-byte target
//! creation date, 4 zero bytes of file type, 4 zero bytes of file
//! creator, two 2-byte signed -1 "nlvl" fields, the 4-byte volume
//! attribute flags 3330, the 2-byte filesystem id 0, and 10 reserved
//! zero bytes: 150 bytes in all. Then each extra sub-record in order,
//! 2-byte aligned, and a terminator with tag -1 and length 0.

use vstd::prelude::*;
use vstd::utf8::encode_utf8;
use crate::dates::{apple_date, mac_timestamp};
use crate::endian::{be16, be32, bei16, push_be16, push_be32, push_bei16, push_bytes, push_zeros,
    tag_bits, zero_bytes};
use crate::record::{AliasError, AliasRecord, AliasView, ExtraView, signature_bytes,
    target_kind_code, volume_kind_code};

verus! {

/// The bytes of one extra sub-record: tag, length, data, and one zero
/// padding byte (not counted in `length`) when the data length is odd.
pub open spec fn extra_bytes(e: ExtraView) -> Seq<u8> {
    bei16(e.tag) + be16(e.length) + e.data + if e.length % 2 == 1 {
        seq![0u8]
    } else {
        Seq::<u8>::empty()
    }
}

/// The encoded size of one extra sub-record: a 4-byte prefix, the data,
/// and the alignment padding byte when the length is odd.
pub open spec fn extra_encoded_len(e: ExtraView) -> int {
    4 + e.length + (e.length % 2)
}

/// The bytes of a sequence of extra sub-records, in order.
pub open spec fn extras_bytes(s: Seq<ExtraView>) -> Seq<u8>
    decreases s.len(),
{
    if s.len() == 0 {
        Seq::empty()
    } else {
        extra_bytes(s[0]) + extras_bytes(s.drop_first())
    }
}

/// The encoded size of a sequence of extra sub-records.
pub open spec fn extras_encoded_len(s: Seq<ExtraView>) -> int
    decreases s.len(),
{
    if s.len() == 0 {
        0
    } else {
        extra_encoded_len(s[0]) + extras_encoded_len(s.drop_first())
    }
}

/// The total size of the encoded record: the 150-byte fixed part, the
/// extras, and the 4-byte terminator.
pub open spec fn total_encoded_len(v: AliasView) -> int {
    150 + extras_encoded_len(v.extras) + 4
}

/// A fixed-width text block: one length byte, the data, and zero padding
/// up to `width` data bytes.
pub open spec fn pascal_block(data: Seq<u8>, width: int) -> Seq<u8>
    recommends
        data.len() <= width,
{
    seq![data.len() as u8] + data + zero_bytes((width - data.len()) as nat)
}

/// The terminating sentinel: tag -1, length 0.
pub open spec fn terminator() -> Seq<u8> {
    seq![255u8, 255u8, 0u8, 0u8]
}

/// The 150-byte fixed part of the encoding.
pub open spec fn header_bytes(v: AliasView) -> Seq<u8> {
    zero_bytes(4) + be16(total_encoded_len(v) as u16) + be16(v.version) + be16(
        target_kind_code(v.target.kind),
    ) + pascal_block(encode_utf8(v.volume.name), 27) + be32(mac_timestamp(v.volume.created) as u32)
        + signature_bytes(v.volume.signature) + be16(volume_kind_code(v.volume.kind)) + be32(
        v.parent.id,
    ) + pascal_block(encode_utf8(v.target.filename), 63) + be32(v.target.id) + be32(
        mac_timestamp(v.target.created) as u32,
    ) + zero_bytes(4) + zero_bytes(4) + bei16(-1i16) + bei16(-1i16) + be32(3330) + be16(0) + zero_bytes(
        10,
    )
}

/// The full encoding of an alias record.
pub open spec fn alias_bytes(v: AliasView) -> Seq<u8> {
    header_bytes(v) + extras_bytes(v.extras) + terminator()
}

/// Both caller-supplied text fields fit their fixed-width slots: the
/// volume name in 27 bytes, the target filename in 63.
pub open spec fn names_fit(v: AliasView) -> bool {
    encode_utf8(v.volume.name).len() <= 27 && encode_utf8(v.target.filename).len() <= 63
}

impl AliasView {
    /// Structural well-formedness an encode call relies on: every
    /// extra's declared length matches its data, the total encoded size
    /// fits the 16-bit length field, and both creation dates fit the
    /// 32-bit native-epoch fields.
    pub open spec fn wf(self) -> bool {
        &&& forall|i: int| 0 <= i < self.extras.len() ==> (#[trigger] self.extras[i]).wf()
        &&& total_encoded_len(self) < 65536
        &&& mac_timestamp(self.volume.created) <= u32::MAX
        &&& mac_timestamp(self.target.created) <= u32::MAX
    }
}

/// Extending an encoded prefix of the extras by one record appends that
/// record's bytes.
pub proof fn lemma_extras_bytes_snoc(s: Seq<ExtraView>, i: int)
    requires
        0 <= i < s.len(),
    ensures
        extras_bytes(s.take(i + 1)) == extras_bytes(s.take(i)) + extra_bytes(s[i]),
    decreases i,
{
    if i == 0 {
        assert(s.take(0) =~= Seq::<ExtraView>::empty());
        assert(s.take(1).len() == 1);
        assert(s.take(1)[0] == s[0]);
        assert(s.take(1).drop_first() =~= Seq::<ExtraView>::empty());
        assert(extras_bytes(s.take(1)) == extra_bytes(s[0]) + extras_bytes(
            Seq::<ExtraView>::empty(),
        ));
        assert(extra_bytes(s[0]) + extras_bytes(Seq::<ExtraView>::empty()) =~= extras_bytes(
            s.take(0),
        ) + extra_bytes(s[0]));
    } else {
        lemma_extras_bytes_snoc(s.drop_first(), i - 1);
        assert(s.take(i + 1).drop_first() =~= s.drop_first().take(i));
        assert(s.take(i).drop_first() =~= s.drop_first().take(i - 1));
        assert(s.take(i + 1)[0] == s[0]);
        assert(s.take(i)[0] == s[0]);
        assert(s.drop_first()[i - 1] == s[i]);
        assert(extras_bytes(s.take(i + 1)) == extra_bytes(s[0]) + extras_bytes(
            s.drop_first().take(i),
        ));
        assert(extra_bytes(s[0]) + (extras_bytes(s.drop_first().take(i - 1)) + extra_bytes(s[i]))
            =~= (extra_bytes(s[0]) + extras_bytes(s.drop_first().take(i - 1))) + extra_bytes(
            s[i],
        ));
    }
}

/// The same step for the encoded size.
pub proof fn lemma_extras_len_snoc(s: Seq<ExtraView>, i: int)
    requires
        0 <= i < s.len(),
    ensures
        extras_encoded_len(s.take(i + 1)) == extras_encoded_len(s.take(i)) + extra_encoded_len(
            s[i],
        ),
    decreases i,
{
    if i == 0 {
        assert(s.take(0) =~= Seq::<ExtraView>::empty());
        assert(s.take(1).len() == 1);
        assert(s.take(1)[0] == s[0]);
        assert(s.take(1).drop_first() =~= Seq::<ExtraView>::empty());
    } else {
        lemma_extras_len_snoc(s.drop_first(), i - 1);
        assert(s.take(i + 1).drop_first() =~= s.drop_first().take(i));
        assert(s.take(i).drop_first() =~= s.drop_first().take(i - 1));
        assert(s.take(i + 1)[0] == s[0]);
        assert(s.take(i)[0] == s[0]);
        assert(s.drop_first()[i - 1] == s[i]);
    }
}

/// An encoded prefix of the extras is no longer than the whole.
pub proof fn lemma_extras_len_prefix(s: Seq<ExtraView>, i: int)
    requires
        0 <= i <= s.len(),
    ensures
        extras_encoded_len(s.take(i)) <= extras_encoded_len(s),
    decreases s.len() - i,
{
    if i == s.len() {
        assert(s.take(i) =~= s);
    } else {
        lemma_extras_len_snoc(s, i);
        lemma_extras_len_prefix(s, i + 1);
    }
}

/// The byte sequence of well-formed extras has exactly the encoded size.
pub proof fn lemma_extras_bytes_len(s: Seq<ExtraView>)
    requires
        forall|i: int| 0 <= i < s.len() ==> (#[trigger] s[i]).wf(),
    ensures
        extras_bytes(s).len() == extras_encoded_len(s),
    decreases s.len(),
{
    if s.len() > 0 {
        assert(s[0].wf());
        assert(forall|i: int|
            0 <= i < s.drop_first().len() ==> (#[trigger] s.drop_first()[i]).wf());
        lemma_extras_bytes_len(s.drop_first());
    }
}

/// The fixed part of the encoding is 150 bytes whenever the text fields
/// fit their slots.
pub proof fn lemma_header_len(v: AliasView)
    requires
        names_fit(v),
    ensures
        header_bytes(v).len() == 150,
{
}

/// The round-trip length invariant: the encoding of a valid record is
/// exactly `150 + sum over extras of (4 + length + length % 2) + 4`
/// bytes long, and the 2-byte total-length field at offset 4 holds that
/// same value.
pub proof fn lemma_encoded_length(v: AliasView)
    requires
        v.wf(),
        names_fit(v),
    ensures
        alias_bytes(v).len() == total_encoded_len(v),
        alias_bytes(v).subrange(4, 6) == be16(total_encoded_len(v) as u16),
{
    lemma_extras_bytes_len(v.extras);
    lemma_header_len(v);
    assert(alias_bytes(v).subrange(4, 6) =~= be16(total_encoded_len(v) as u16));
}

/// Every encoding ends with the terminating sentinel bytes
/// `FF FF 00 00`: tag -1, length 0.
pub proof fn lemma_terminator(v: AliasView)
    requires
        v.wf(),
        names_fit(v),
    ensures
        alias_bytes(v).subrange(
            alias_bytes(v).len() - 4,
            alias_bytes(v).len() as int,
        ) == terminator(),
{
    lemma_extras_bytes_len(v.extras);
    lemma_header_len(v);
    assert(alias_bytes(v).subrange(
        alias_bytes(v).len() - 4,
        alias_bytes(v).len() as int,
    ) =~= terminator());
}

/// The alignment rule of the extras: an extra with odd `length` is
/// followed by exactly one zero padding byte, and one with even `length`
/// by none; in both cases the data sits right after the 4-byte prefix.
pub proof fn lemma_extra_padding(e: ExtraView)
    requires
        e.wf(),
    ensures
        extra_bytes(e).subrange(4, 4 + e.length) == e.data,
        e.length % 2 == 1 ==> extra_bytes(e).len() == 4 + e.length + 1 && extra_bytes(e)[4
            + e.length] == 0,
        e.length % 2 == 0 ==> extra_bytes(e).len() == 4 + e.length,
{
    assert(extra_bytes(e).subrange(4, 4 + e.length) =~= e.data);
}

/// The two's-complement bytes of the -1 tags and the zero length word,
/// as they stand in the terminator.
proof fn lemma_neg_one_bytes()
    ensures
        bei16(-1i16) == seq![255u8, 255u8],
        be16(0u16) == seq![0u8, 0u8],
{
    assert(tag_bits(-1i16) == 0xFFFFu16);
    assert((0xFFFFu16 >> 8) as u8 == 255u8) by (bit_vector);
    assert(0xFFFFu16 as u8 == 255u8) by (bit_vector);
    assert((0u16 >> 8) as u8 == 0u8) by (bit_vector);
    assert(0u16 as u8 == 0u8) by (bit_vector);
    assert(bei16(-1i16) =~= seq![255u8, 255u8]);
    assert(be16(0u16) =~= seq![0u8, 0u8]);
}

/// Writes the 150-byte fixed part of the record.
#[verifier::rlimit(100)]
fn write_header(r: &AliasRecord, total: u16) -> (buf: Vec<u8>)
    requires
        r@.wf(),
        names_fit(r@),
        total == total_encoded_len(r@),
    ensures
        buf@ == header_bytes(r@),
{
    let vol_name = r.volume.name.as_str().as_bytes_vec();
    let file_name = r.target.filename.as_str().as_bytes_vec();
    let mut buf: Vec<u8> = Vec::new();
    push_zeros(&mut buf, 4);
    push_be16(&mut buf, total);
    push_be16(&mut buf, r.version);
    push_be16(&mut buf, r.target.kind.code());
    buf.push(vol_name.len() as u8);
    push_bytes(&mut buf, &vol_name);
    push_zeros(&mut buf, 27 - vol_name.len());
    push_be32(&mut buf, apple_date(r.volume.created));
    let sig = r.volume.signature.code();
    buf.push(sig.0);
    buf.push(sig.1);
    push_be16(&mut buf, r.volume.kind.code());
    push_be32(&mut buf, r.parent.id);
    buf.push(file_name.len() as u8);
    push_bytes(&mut buf, &file_name);
    push_zeros(&mut buf, 63 - file_name.len());
    push_be32(&mut buf, r.target.id);
    push_be32(&mut buf, apple_date(r.target.created));
    push_zeros(&mut buf, 4);
    push_zeros(&mut buf, 4);
    push_bei16(&mut buf, -1);
    push_bei16(&mut buf, -1);
    push_be32(&mut buf, 3330);
    push_be16(&mut buf, 0);
    push_zeros(&mut buf, 10);
    assert(buf@ =~= header_bytes(r@));
    buf
}

/// Serializes the record into its exact byte layout. Fails with
/// `InvalidField`, producing no output, exactly when the volume name
/// exceeds 27 bytes or the target filename exceeds 63 bytes of UTF-8.
pub fn encode(r: &AliasRecord) -> (res: Result<Vec<u8>, AliasError>)
    requires
        r@.wf(),
    ensures
        match res {
            Ok(buf) => names_fit(r@) && buf@ == alias_bytes(r@) && buf@.len() == total_encoded_len(
                r@,
            ),
            Err(e) => e == AliasError::InvalidField && !names_fit(r@),
        },
{
    if r.volume.name.as_str().as_bytes_vec().len() > 27 {
        return Err(AliasError::InvalidField);
    }
    if r.target.filename.as_str().as_bytes_vec().len() > 63 {
        return Err(AliasError::InvalidField);
    }

    let ghost dv: Seq<ExtraView> = r@.extras;
    // Total size: fixed 150-byte part, each extra's padded size, and the
    // 4-byte terminator.
    let mut total: usize = 154;
    let mut i: usize = 0;
    while i < r.extras.len()
        invariant
            r@.wf(),
            dv == r@.extras,
            dv.len() == r.extras@.len(),
            i <= dv.len(),
            total == 154 + extras_encoded_len(dv.take(i as int)),
            total < 65536,
        decreases dv.len() - i,
    {
        proof {
            assert(dv[i as int] == r.extras@[i as int]@);
            lemma_extras_len_snoc(dv, i as int);
            lemma_extras_len_prefix(dv, i as int + 1);
        }
        let e = &r.extras[i];
        total = total + 4 + (e.length as usize) + ((e.length % 2) as usize);
        i = i + 1;
    }
    proof {
        assert(dv.take(dv.len() as int) =~= dv);
        assert(total == total_encoded_len(r@));
    }

    let mut buf: Vec<u8> = write_header(r, total as u16);

    let mut j: usize = 0;
    while j < r.extras.len()
        invariant
            r@.wf(),
            dv == r@.extras,
            dv.len() == r.extras@.len(),
            j <= dv.len(),
            buf@ == header_bytes(r@) + extras_bytes(dv.take(j as int)),
        decreases dv.len() - j,
    {
        proof {
            assert(dv[j as int] == r.extras@[j as int]@);
        }
        let e = &r.extras[j];
        push_bei16(&mut buf, e.tag);
        push_be16(&mut buf, e.length);
        push_bytes(&mut buf, &e.data);
        if e.length % 2 == 1 {
            buf.push(0);
        }
        proof {
            lemma_extras_bytes_snoc(dv, j as int);
            assert(buf@ =~= header_bytes(r@) + extras_bytes(dv.take(j as int + 1)));
        }
        j = j + 1;
    }
    proof {
        assert(dv.take(dv.len() as int) =~= dv);
    }

    push_bei16(&mut buf, -1);
    push_be16(&mut buf, 0);
    proof {
        lemma_neg_one_bytes();
        assert(buf@ =~= alias_bytes(r@));
        lemma_encoded_length(r@);
    }
    Ok(buf)
}

} // verus!
