//! Byte-level encoding primitives shared by every response builder: fixed-width
//! big-endian unsigned integers and the compact string/array length convention
//! (stored length is the true length plus one; a stored zero means null/absent).

use vstd::prelude::*;

verus! {

/// The two big-endian bytes of a 16-bit value, high byte first.
pub open spec fn u16_be_bytes(v: u16) -> Seq<u8> {
    seq![(v / 256) as u8, (v % 256) as u8]
}

/// The four big-endian bytes of a 32-bit value, highest byte first.
pub open spec fn u32_be_bytes(v: u32) -> Seq<u8> {
    seq![
        (v / 0x1000000) as u8,
        ((v / 0x10000) % 256) as u8,
        ((v / 256) % 256) as u8,
        (v % 256) as u8,
    ]
}

/// The 16-bit value denoted by two big-endian bytes.
pub open spec fn u16_from_be(b0: u8, b1: u8) -> u16 {
    (b0 * 256 + b1) as u16
}

/// The 32-bit value denoted by four big-endian bytes.
pub open spec fn u32_from_be(b0: u8, b1: u8, b2: u8, b3: u8) -> u32 {
    (b0 * 0x1000000 + b1 * 0x10000 + b2 * 0x100 + b3) as u32
}

/// Encoding inverts decoding for 32-bit values: any four bytes are reproduced
/// exactly by encoding the value they denote.
pub proof fn lemma_u32_be_of_bytes(b0: u8, b1: u8, b2: u8, b3: u8)
    ensures
        u32_be_bytes(u32_from_be(b0, b1, b2, b3)) == seq![b0, b1, b2, b3],
{
    let v = u32_from_be(b0, b1, b2, b3);
    assert(v / 0x1000000 == b0 && (v / 0x10000) % 256 == b1 && (v / 256) % 256 == b2 && v % 256
        == b3) by (bit_vector)
        requires
            v == b0 * 0x1000000 + b1 * 0x10000 + b2 * 0x100 + b3,
    ;
    assert(u32_be_bytes(v) =~= seq![b0, b1, b2, b3]);
}

/// Appends one byte.
pub fn push_u8(out: &mut Vec<u8>, v: u8)
    ensures
        final(out)@ == old(out)@ + seq![v],
{
    let ghost pre = out@;
    out.push(v);
    proof {
        assert(out@ =~= pre + seq![v]);
    }
}

/// Appends a 16-bit value as two big-endian bytes.
pub fn push_u16_be(out: &mut Vec<u8>, v: u16)
    ensures
        final(out)@ == old(out)@ + u16_be_bytes(v),
{
    let ghost pre = out@;
    out.push((v / 256) as u8);
    out.push((v % 256) as u8);
    proof {
        assert(out@ =~= pre + u16_be_bytes(v));
    }
}

/// Appends a 32-bit value as four big-endian bytes.
pub fn push_u32_be(out: &mut Vec<u8>, v: u32)
    ensures
        final(out)@ == old(out)@ + u32_be_bytes(v),
{
    let ghost pre = out@;
    out.push((v / 0x1000000) as u8);
    out.push(((v / 0x10000) % 256) as u8);
    out.push(((v / 256) % 256) as u8);
    out.push((v % 256) as u8);
    proof {
        assert(out@ =~= pre + u32_be_bytes(v));
    }
}

/// The compact encoding of a string or byte name: one length byte holding the
/// true length plus one, then the raw bytes. Meaningful only for names of at
/// most 254 bytes, the largest length the single-byte convention can carry.
pub open spec fn compact_string_bytes(name: Seq<u8>) -> Seq<u8> {
    seq![(name.len() + 1) as u8] + name
}

/// The name denoted by the compact string stored at `off`, under the
/// default-to-empty policy: a missing length byte, a stored zero (null/absent),
/// or a name running past the end of the buffer all decode to the empty name.
pub open spec fn decoded_compact_string(buf: Seq<u8>, off: int) -> Seq<u8> {
    if !(0 <= off < buf.len()) {
        Seq::empty()
    } else if buf[off] == 0 {
        Seq::empty()
    } else if off + buf[off] > buf.len() {
        Seq::empty()
    } else {
        buf.subrange(off + 1, off + buf[off])
    }
}

/// Round trip: a name of at most 254 bytes is recovered exactly from its own
/// compact encoding.
pub proof fn lemma_compact_string_round_trip(name: Seq<u8>)
    requires
        name.len() <= 254,
    ensures
        decoded_compact_string(compact_string_bytes(name), 0) == name,
{
    let enc = compact_string_bytes(name);
    assert(enc[0] == name.len() + 1);
    assert(enc.subrange(1, 1 + name.len() as int) =~= name);
}

/// A stored length byte of zero denotes the null/absent name, which decodes to
/// the empty name.
pub proof fn lemma_compact_string_null(buf: Seq<u8>, off: int)
    requires
        0 <= off < buf.len(),
        buf[off] == 0,
    ensures
        decoded_compact_string(buf, off) == Seq::<u8>::empty(),
{
}

/// A decoded name never exceeds 254 bytes: the length byte is at most 255 and
/// stores the true length plus one.
pub proof fn lemma_decoded_compact_string_len(buf: Seq<u8>, off: int)
    ensures
        decoded_compact_string(buf, off).len() <= 254,
{
}

/// Appends the compact encoding of `name`: its length plus one as a single
/// byte, then the bytes of `name` itself.
pub fn push_compact_string(out: &mut Vec<u8>, name: &[u8])
    requires
        name@.len() <= 254,
    ensures
        final(out)@ == old(out)@ + compact_string_bytes(name@),
{
    let ghost pre = out@;
    out.push((name.len() + 1) as u8);
    out.extend_from_slice(name);
    proof {
        assert(out@ =~= pre + compact_string_bytes(name@));
    }
}

/// Reads the compact string stored at `off`, defaulting to the empty name when
/// the buffer is too short at any step or the stored length byte is zero.
pub fn read_compact_string(buf: &[u8], off: usize) -> (r: Vec<u8>)
    ensures
        r@ == decoded_compact_string(buf@, off as int),
{
    let mut r: Vec<u8> = Vec::new();
    if off >= buf.len() {
        return r;
    }
    let len_byte = buf[off];
    if len_byte == 0 {
        return r;
    }
    if buf.len() - off < len_byte as usize {
        return r;
    }
    let end: usize = off + len_byte as usize;
    let mut i: usize = off + 1;
    while i < end
        invariant
            off + 1 <= i <= end,
            end == off + buf@[off as int],
            end <= buf@.len(),
            r@ == buf@.subrange(off as int + 1, i as int),
        decreases end - i,
    {
        r.push(buf[i]);
        i = i + 1;
        proof {
            assert(r@ =~= buf@.subrange(off as int + 1, i as int));
        }
    }
    proof {
        assert(r@ == decoded_compact_string(buf@, off as int));
    }
    r
}

/// Reads the 16-bit value stored big-endian at `off`.
pub fn read_u16_be(buf: &[u8], off: usize) -> (r: u16)
    requires
        off + 2 <= buf@.len(),
    ensures
        r == u16_from_be(buf@[off as int], buf@[off as int + 1]),
{
    (buf[off] as u16) * 256 + (buf[off + 1] as u16)
}

/// Reads the 32-bit value stored big-endian at `off`.
pub fn read_u32_be(buf: &[u8], off: usize) -> (r: u32)
    requires
        off + 4 <= buf@.len(),
    ensures
        r == u32_from_be(
            buf@[off as int],
            buf@[off as int + 1],
            buf@[off as int + 2],
            buf@[off as int + 3],
        ),
{
    (buf[off] as u32) * 0x1000000 + (buf[off + 1] as u32) * 0x10000 + (buf[off + 2] as u32) * 0x100
        + (buf[off + 3] as u32)
}

} // verus!
