//! Little-endian field encodings of the wire format, and the byte-level
//! readers and writers that the message codecs are built from.
use vstd::prelude::*;
use vstd::bytes::{
    lemma_auto_spec_u16_to_from_le_bytes, lemma_auto_spec_u32_to_from_le_bytes,
    lemma_auto_spec_u64_to_from_le_bytes, spec_u16_from_le_bytes, spec_u16_to_le_bytes,
    spec_u32_from_le_bytes, spec_u32_to_le_bytes, spec_u64_from_le_bytes, spec_u64_to_le_bytes,
    u16_from_le_bytes, u16_to_le_bytes, u32_from_le_bytes, u32_to_le_bytes, u64_from_le_bytes,
    u64_to_le_bytes,
};
use vstd::slice::slice_subrange;

use crate::pubkey::Pubkey;

verus! {

pub open spec fn enc_u16(x: u16) -> Seq<u8> {
    spec_u16_to_le_bytes(x)
}

pub open spec fn enc_u32(x: u32) -> Seq<u8> {
    spec_u32_to_le_bytes(x)
}

pub open spec fn enc_u64(x: u64) -> Seq<u8> {
    spec_u64_to_le_bytes(x)
}

/// A signed 64-bit value goes out as its two's-complement bits.
pub open spec fn enc_i64(x: i64) -> Seq<u8> {
    spec_u64_to_le_bytes(x as u64)
}

/// `a` is the first `a.len()` bytes of `b`.
pub open spec fn prefix_of(a: Seq<u8>, b: Seq<u8>) -> bool {
    a.len() <= b.len() && a =~= b.subrange(0, a.len() as int)
}

/// Lengths of the field encodings, and that equal encodings come from
/// equal values.
pub proof fn lemma_field_encodings()
    ensures
        forall|x: u16| #[trigger] enc_u16(x).len() == 2,
        forall|x: u32| #[trigger] enc_u32(x).len() == 4,
        forall|x: u64| #[trigger] enc_u64(x).len() == 8,
        forall|x: i64| #[trigger] enc_i64(x).len() == 8,
        forall|x: u16, y: u16| enc_u16(x) == enc_u16(y) ==> x == y,
        forall|x: u32, y: u32| enc_u32(x) == enc_u32(y) ==> x == y,
        forall|x: u64, y: u64| enc_u64(x) == enc_u64(y) ==> x == y,
        forall|x: i64, y: i64| enc_i64(x) == enc_i64(y) ==> x == y,
{
    lemma_auto_spec_u16_to_from_le_bytes();
    lemma_auto_spec_u32_to_from_le_bytes();
    lemma_auto_spec_u64_to_from_le_bytes();
    assert forall|x: i64, y: i64| enc_i64(x) == enc_i64(y) implies x == y by {
        assert(enc_i64(x).len() == 8 && enc_i64(y).len() == 8);
        assert(spec_u64_from_le_bytes(enc_i64(x)) == x as u64);
        assert(spec_u64_from_le_bytes(enc_i64(y)) == y as u64);
        assert((x as u64) == (y as u64) ==> x == y) by (bit_vector);
    }
    assert forall|x: u16, y: u16| enc_u16(x) == enc_u16(y) implies x == y by {
        assert(enc_u16(x).len() == 2 && enc_u16(y).len() == 2);
        assert(spec_u16_from_le_bytes(enc_u16(x)) == x);
        assert(spec_u16_from_le_bytes(enc_u16(y)) == y);
    }
    assert forall|x: u32, y: u32| enc_u32(x) == enc_u32(y) implies x == y by {
        assert(enc_u32(x).len() == 4 && enc_u32(y).len() == 4);
        assert(spec_u32_from_le_bytes(enc_u32(x)) == x);
        assert(spec_u32_from_le_bytes(enc_u32(y)) == y);
    }
    assert forall|x: u64, y: u64| enc_u64(x) == enc_u64(y) implies x == y by {
        assert(enc_u64(x).len() == 8 && enc_u64(y).len() == 8);
        assert(spec_u64_from_le_bytes(enc_u64(x)) == x);
        assert(spec_u64_from_le_bytes(enc_u64(y)) == y);
    }
}

/// Appends one byte.
pub fn put_u8(buf: &mut Vec<u8>, x: u8)
    ensures
        final(buf)@ == old(buf)@ + seq![x],
{
    buf.push(x);
}

/// Appends the bytes of `bytes`.
pub fn put_bytes(buf: &mut Vec<u8>, bytes: &Vec<u8>)
    ensures
        final(buf)@ == old(buf)@ + bytes@,
{
    let ghost start = buf@;
    let mut i: usize = 0;
    while i < bytes.len()
        invariant
            i <= bytes@.len(),
            buf@ == start + bytes@.subrange(0, i as int),
        decreases bytes@.len() - i,
    {
        buf.push(bytes[i]);
        i = i + 1;
        assert(buf@ =~= start + bytes@.subrange(0, i as int));
    }
    assert(bytes@.subrange(0, i as int) =~= bytes@);
}

/// Appends the 32 bytes of an address.
pub fn put_key(buf: &mut Vec<u8>, key: &Pubkey)
    ensures
        final(buf)@ == old(buf)@ + key@,
{
    let ghost start = buf@;
    let mut i: usize = 0;
    while i < 32
        invariant
            i <= 32,
            key@.len() == 32,
            buf@ == start + key@.subrange(0, i as int),
        decreases 32 - i,
    {
        buf.push(key.bytes[i]);
        i = i + 1;
        assert(buf@ =~= start + key@.subrange(0, i as int));
    }
    assert(key@.subrange(0, 32) =~= key@);
}

pub fn put_u16(buf: &mut Vec<u8>, x: u16)
    ensures
        final(buf)@ == old(buf)@ + enc_u16(x),
{
    let bytes = u16_to_le_bytes(x);
    put_bytes(buf, &bytes);
}

pub fn put_u32(buf: &mut Vec<u8>, x: u32)
    ensures
        final(buf)@ == old(buf)@ + enc_u32(x),
{
    let bytes = u32_to_le_bytes(x);
    put_bytes(buf, &bytes);
}

pub fn put_u64(buf: &mut Vec<u8>, x: u64)
    ensures
        final(buf)@ == old(buf)@ + enc_u64(x),
{
    let bytes = u64_to_le_bytes(x);
    put_bytes(buf, &bytes);
}

pub fn put_i64(buf: &mut Vec<u8>, x: i64)
    ensures
        final(buf)@ == old(buf)@ + enc_i64(x),
{
    let bytes = u64_to_le_bytes(x as u64);
    put_bytes(buf, &bytes);
}

/// The address held in `data[pos..pos + 32]`.
pub fn read_key(data: &[u8], pos: usize) -> (key: Pubkey)
    requires
        pos + 32 <= data.len(),
    ensures
        key@ == data@.subrange(pos as int, pos + 32),
{
    let mut bytes = [0u8; 32];
    let mut i: usize = 0;
    while i < 32
        invariant
            i <= 32,
            pos + 32 <= data.len(),
            bytes@.len() == 32,
            forall|j: int| 0 <= j < i ==> bytes@[j] == data@[pos + j],
        decreases 32 - i,
    {
        bytes[i] = data[pos + i];
        i = i + 1;
    }
    let key = Pubkey { bytes };
    assert(key@ =~= data@.subrange(pos as int, pos + 32));
    key
}

/// The `u16` whose encoding is `data[pos..pos + 2]`.
pub fn read_u16(data: &[u8], pos: usize) -> (x: u16)
    requires
        pos + 2 <= data.len(),
    ensures
        enc_u16(x) == data@.subrange(pos as int, pos + 2),
{
    proof {
        lemma_auto_spec_u16_to_from_le_bytes();
    }
    u16_from_le_bytes(slice_subrange(data, pos, pos + 2))
}

/// The `u32` whose encoding is `data[pos..pos + 4]`.
pub fn read_u32(data: &[u8], pos: usize) -> (x: u32)
    requires
        pos + 4 <= data.len(),
    ensures
        enc_u32(x) == data@.subrange(pos as int, pos + 4),
{
    proof {
        lemma_auto_spec_u32_to_from_le_bytes();
    }
    u32_from_le_bytes(slice_subrange(data, pos, pos + 4))
}

/// The `u64` whose encoding is `data[pos..pos + 8]`.
pub fn read_u64(data: &[u8], pos: usize) -> (x: u64)
    requires
        pos + 8 <= data.len(),
    ensures
        enc_u64(x) == data@.subrange(pos as int, pos + 8),
{
    proof {
        lemma_auto_spec_u64_to_from_le_bytes();
    }
    u64_from_le_bytes(slice_subrange(data, pos, pos + 8))
}

/// The `i64` whose encoding is `data[pos..pos + 8]`.
pub fn read_i64(data: &[u8], pos: usize) -> (x: i64)
    requires
        pos + 8 <= data.len(),
    ensures
        enc_i64(x) == data@.subrange(pos as int, pos + 8),
{
    let bits = read_u64(data, pos);
    assert((bits as i64) as u64 == bits) by (bit_vector);
    bits as i64
}

} // verus!
