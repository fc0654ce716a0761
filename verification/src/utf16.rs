//! UTF-16 big-endian encoding of text, used for the extra sub-records
//! that carry the target filename and the volume name in that encoding.

use vstd::prelude::*;
use vstd::utf8::char_is_scalar;
use crate::endian::be16;

verus! {

/// The UTF-16BE bytes of one character: scalars below 0x10000 are one
/// big-endian code unit, the rest a high/low surrogate pair.
pub open spec fn utf16be_char(c: char) -> Seq<u8> {
    let u = c as u32;
    if u < 0x10000 {
        be16(u as u16)
    } else {
        be16((0xD800 + ((u - 0x10000) / 0x400)) as u16) + be16(
            (0xDC00 + ((u - 0x10000) % 0x400)) as u16,
        )
    }
}

/// The UTF-16BE bytes of a character sequence, in order.
pub open spec fn utf16be_of(chars: Seq<char>) -> Seq<u8>
    decreases chars.len(),
{
    if chars.len() == 0 {
        Seq::empty()
    } else {
        utf16be_char(chars[0]) + utf16be_of(chars.drop_first())
    }
}

/// Extending the encoded prefix by one character appends that
/// character's code units.
pub proof fn lemma_utf16be_snoc(chars: Seq<char>, i: int)
    requires
        0 <= i < chars.len(),
    ensures
        utf16be_of(chars.take(i + 1)) == utf16be_of(chars.take(i)) + utf16be_char(chars[i]),
    decreases i,
{
    if i == 0 {
        assert(chars.take(0) =~= Seq::<char>::empty());
        assert(chars.take(1).len() == 1);
        assert(chars.take(1)[0] == chars[0]);
        assert(chars.take(1).drop_first() =~= Seq::<char>::empty());
        assert(utf16be_of(chars.take(1)) == utf16be_char(chars[0]) + utf16be_of(
            Seq::<char>::empty(),
        ));
        assert(utf16be_char(chars[0]) + utf16be_of(Seq::<char>::empty()) =~= utf16be_of(
            chars.take(0),
        ) + utf16be_char(chars[0]));
    } else {
        lemma_utf16be_snoc(chars.drop_first(), i - 1);
        assert(chars.take(i + 1).drop_first() =~= chars.drop_first().take(i));
        assert(chars.take(i).drop_first() =~= chars.drop_first().take(i - 1));
        assert(chars.take(i + 1)[0] == chars[0]);
        assert(chars.take(i)[0] == chars[0]);
        assert(chars.drop_first()[i - 1] == chars[i]);
        assert(utf16be_of(chars.take(i + 1)) == utf16be_char(chars[0]) + utf16be_of(
            chars.drop_first().take(i),
        ));
        assert(utf16be_char(chars[0]) + (utf16be_of(chars.drop_first().take(i - 1))
            + utf16be_char(chars[i])) =~= (utf16be_char(chars[0]) + utf16be_of(
            chars.drop_first().take(i - 1),
        )) + utf16be_char(chars[i]));
    }
}

/// Encodes `s` as UTF-16 big-endian bytes, two bytes per code unit.
pub fn utf16be(s: &str) -> (r: Vec<u8>)
    ensures
        r@ == utf16be_of(s@),
{
    let n = s.unicode_len();
    let mut out: Vec<u8> = Vec::new();
    let mut i: usize = 0;
    while i < n
        invariant
            n == s@.len(),
            i <= n,
            out@ == utf16be_of(s@.take(i as int)),
        decreases n - i,
    {
        let c = s.get_char(i);
        proof {
            char_is_scalar(c);
        }
        let u = c as u32;
        if u < 0x10000 {
            crate::endian::push_be16(&mut out, u as u16);
        } else {
            let v: u32 = u - 0x10000;
            assert(v / 0x400 <= 0x3FF);
            assert(v % 0x400 <= 0x3FF);
            crate::endian::push_be16(&mut out, (0xD800 + (v / 0x400)) as u16);
            crate::endian::push_be16(&mut out, (0xDC00 + (v % 0x400)) as u16);
        }
        proof {
            lemma_utf16be_snoc(s@, i as int);
        }
        i = i + 1;
    }
    assert(s@.take(n as int) =~= s@);
    out
}

} // verus!
