use vstd::prelude::*;

verus! {

/// The little-endian bytes of a 64-bit integer, least significant byte first.
pub open spec fn u64_le(x: u64) -> Seq<u8> {
    seq![
        (x & 0xff) as u8,
        ((x >> 8) & 0xff) as u8,
        ((x >> 16) & 0xff) as u8,
        ((x >> 24) & 0xff) as u8,
        ((x >> 32) & 0xff) as u8,
        ((x >> 40) & 0xff) as u8,
        ((x >> 48) & 0xff) as u8,
        ((x >> 56) & 0xff) as u8,
    ]
}

/// The 64-bit integer read from eight little-endian bytes.
pub open spec fn u64_from_le(s: Seq<u8>) -> u64
    recommends
        s.len() == 8,
{
    (s[0] as u64) | ((s[1] as u64) << 8) | ((s[2] as u64) << 16) | ((s[3] as u64) << 24)
        | ((s[4] as u64) << 32) | ((s[5] as u64) << 40) | ((s[6] as u64) << 48)
        | ((s[7] as u64) << 56)
}

/// Reading back the written bytes yields the written integer.
pub proof fn lemma_u64_le_round_trip(x: u64)
    ensures
        u64_from_le(u64_le(x)) == x,
{
    let s = u64_le(x);
    assert(s[0] == (x & 0xff) as u8);
    assert(s[1] == ((x >> 8) & 0xff) as u8);
    assert(s[2] == ((x >> 16) & 0xff) as u8);
    assert(s[3] == ((x >> 24) & 0xff) as u8);
    assert(s[4] == ((x >> 32) & 0xff) as u8);
    assert(s[5] == ((x >> 40) & 0xff) as u8);
    assert(s[6] == ((x >> 48) & 0xff) as u8);
    assert(s[7] == ((x >> 56) & 0xff) as u8);
    assert((((x & 0xff) as u8) as u64) | ((((x >> 8) & 0xff) as u8) as u64) << 8
        | ((((x >> 16) & 0xff) as u8) as u64) << 16 | ((((x >> 24) & 0xff) as u8) as u64) << 24
        | ((((x >> 32) & 0xff) as u8) as u64) << 32 | ((((x >> 40) & 0xff) as u8) as u64) << 40
        | ((((x >> 48) & 0xff) as u8) as u64) << 48 | ((((x >> 56) & 0xff) as u8) as u64) << 56
        == x) by (bit_vector);
}

/// Writing the read integer yields back the eight bytes that were read.
pub proof fn lemma_u64_from_le_round_trip(s: Seq<u8>)
    requires
        s.len() == 8,
    ensures
        u64_le(u64_from_le(s)) =~= s,
{
    let b0 = s[0];
    let b1 = s[1];
    let b2 = s[2];
    let b3 = s[3];
    let b4 = s[4];
    let b5 = s[5];
    let b6 = s[6];
    let b7 = s[7];
    let x = u64_from_le(s);
    assert(x == (b0 as u64) | ((b1 as u64) << 8) | ((b2 as u64) << 16) | ((b3 as u64) << 24)
        | ((b4 as u64) << 32) | ((b5 as u64) << 40) | ((b6 as u64) << 48) | ((b7 as u64) << 56));
    assert((x & 0xff) as u8 == b0 && ((x >> 8) & 0xff) as u8 == b1 && ((x >> 16) & 0xff) as u8
        == b2 && ((x >> 24) & 0xff) as u8 == b3 && ((x >> 32) & 0xff) as u8 == b4 && ((x >> 40)
        & 0xff) as u8 == b5 && ((x >> 48) & 0xff) as u8 == b6 && ((x >> 56) & 0xff) as u8 == b7)
        by (bit_vector)
        requires
            x == (b0 as u64) | ((b1 as u64) << 8) | ((b2 as u64) << 16) | ((b3 as u64) << 24) | (
            (b4 as u64) << 32) | ((b5 as u64) << 40) | ((b6 as u64) << 48) | ((b7 as u64) << 56),
    ;
}

/// Writes a 64-bit integer as eight little-endian bytes.
pub fn u64_to_le_bytes(x: u64) -> (out: Vec<u8>)
    ensures
        out@ == u64_le(x),
{
    proof {
        assert((x & 0xff) < 256 && ((x >> 8) & 0xff) < 256 && ((x >> 16) & 0xff) < 256 && ((x
            >> 24) & 0xff) < 256 && ((x >> 32) & 0xff) < 256 && ((x >> 40) & 0xff) < 256 && ((x
            >> 48) & 0xff) < 256 && ((x >> 56) & 0xff) < 256) by (bit_vector);
    }
    let mut out: Vec<u8> = Vec::new();
    out.push((x & 0xff) as u8);
    out.push(((x >> 8) & 0xff) as u8);
    out.push(((x >> 16) & 0xff) as u8);
    out.push(((x >> 24) & 0xff) as u8);
    out.push(((x >> 32) & 0xff) as u8);
    out.push(((x >> 40) & 0xff) as u8);
    out.push(((x >> 48) & 0xff) as u8);
    out.push(((x >> 56) & 0xff) as u8);
    proof {
        assert(out@ =~= u64_le(x));
    }
    out
}

/// Reads the 64-bit integer stored as eight little-endian bytes at `offset`.
pub fn read_u64_le(data: &[u8], offset: usize) -> (x: u64)
    requires
        offset + 8 <= data@.len(),
    ensures
        x == u64_from_le(data@.subrange(offset as int, offset as int + 8)),
{
    let x = (data[offset] as u64) | ((data[offset + 1] as u64) << 8) | ((data[offset + 2] as u64)
        << 16) | ((data[offset + 3] as u64) << 24) | ((data[offset + 4] as u64) << 32) | ((
    data[offset + 5] as u64) << 40) | ((data[offset + 6] as u64) << 48) | ((data[offset
        + 7] as u64) << 56);
    proof {
        let s = data@.subrange(offset as int, offset as int + 8);
        assert(s[0] == data@[offset as int]);
        assert(s[1] == data@[offset as int + 1]);
        assert(s[2] == data@[offset as int + 2]);
        assert(s[3] == data@[offset as int + 3]);
        assert(s[4] == data@[offset as int + 4]);
        assert(s[5] == data@[offset as int + 5]);
        assert(s[6] == data@[offset as int + 6]);
        assert(s[7] == data@[offset as int + 7]);
    }
    x
}

} // verus!
