use crate::ident::EiData;
use vstd::prelude::*;

verus! {

/// The u16 held by two bytes in the given byte order.
pub open spec fn u16_from_bytes(e: EiData, s: Seq<u8>) -> u16
    recommends
        s.len() == 2,
{
    match e {
        EiData::Little => (s[0] as u16) | ((s[1] as u16) << 8),
        EiData::Big => ((s[0] as u16) << 8) | (s[1] as u16),
    }
}

/// The two bytes that hold a u16 in the given byte order.
pub open spec fn u16_to_bytes(e: EiData, v: u16) -> Seq<u8> {
    match e {
        EiData::Little => seq![(v & 0xff) as u8, ((v >> 8) & 0xff) as u8],
        EiData::Big => seq![((v >> 8) & 0xff) as u8, (v & 0xff) as u8],
    }
}

/// The u32 held by four bytes in the given byte order.
pub open spec fn u32_from_bytes(e: EiData, s: Seq<u8>) -> u32
    recommends
        s.len() == 4,
{
    match e {
        EiData::Little => (s[0] as u32) | ((s[1] as u32) << 8) | ((s[2] as u32) << 16) | ((s[3]
            as u32) << 24),
        EiData::Big => ((s[0] as u32) << 24) | ((s[1] as u32) << 16) | ((s[2] as u32) << 8) | (s[3]
            as u32),
    }
}

/// The four bytes that hold a u32 in the given byte order.
pub open spec fn u32_to_bytes(e: EiData, v: u32) -> Seq<u8> {
    match e {
        EiData::Little => seq![
            (v & 0xff) as u8,
            ((v >> 8) & 0xff) as u8,
            ((v >> 16) & 0xff) as u8,
            ((v >> 24) & 0xff) as u8,
        ],
        EiData::Big => seq![
            ((v >> 24) & 0xff) as u8,
            ((v >> 16) & 0xff) as u8,
            ((v >> 8) & 0xff) as u8,
            (v & 0xff) as u8,
        ],
    }
}

/// The u64 held by eight bytes in the given byte order.
pub open spec fn u64_from_bytes(e: EiData, s: Seq<u8>) -> u64
    recommends
        s.len() == 8,
{
    match e {
        EiData::Little => (s[0] as u64) | ((s[1] as u64) << 8) | ((s[2] as u64) << 16) | ((s[3]
            as u64) << 24) | ((s[4] as u64) << 32) | ((s[5] as u64) << 40) | ((s[6] as u64) << 48)
            | ((s[7] as u64) << 56),
        EiData::Big => ((s[0] as u64) << 56) | ((s[1] as u64) << 48) | ((s[2] as u64) << 40) | ((
        s[3] as u64) << 32) | ((s[4] as u64) << 24) | ((s[5] as u64) << 16) | ((s[6] as u64) << 8)
            | (s[7] as u64),
    }
}

/// The eight bytes that hold a u64 in the given byte order.
pub open spec fn u64_to_bytes(e: EiData, v: u64) -> Seq<u8> {
    match e {
        EiData::Little => seq![
            (v & 0xff) as u8,
            ((v >> 8) & 0xff) as u8,
            ((v >> 16) & 0xff) as u8,
            ((v >> 24) & 0xff) as u8,
            ((v >> 32) & 0xff) as u8,
            ((v >> 40) & 0xff) as u8,
            ((v >> 48) & 0xff) as u8,
            ((v >> 56) & 0xff) as u8,
        ],
        EiData::Big => seq![
            ((v >> 56) & 0xff) as u8,
            ((v >> 48) & 0xff) as u8,
            ((v >> 40) & 0xff) as u8,
            ((v >> 32) & 0xff) as u8,
            ((v >> 24) & 0xff) as u8,
            ((v >> 16) & 0xff) as u8,
            ((v >> 8) & 0xff) as u8,
            (v & 0xff) as u8,
        ],
    }
}

/// Writing a u16 out and reading it back gives the value again.
pub proof fn lemma_u16_value_round_trip(e: EiData, v: u16)
    ensures
        u16_from_bytes(e, u16_to_bytes(e, v)) == v,
{
    assert((((v & 0xff) as u8 as u16) | ((((v >> 8) & 0xff) as u8 as u16) << 8)) == v
        && (((((v >> 8) & 0xff) as u8 as u16) << 8) | ((v & 0xff) as u8 as u16)) == v)
        by (bit_vector);
}

/// Reading a u16 and writing it back reproduces both bytes.
pub proof fn lemma_u16_bytes_round_trip(e: EiData, s: Seq<u8>)
    requires
        s.len() == 2,
    ensures
        u16_to_bytes(e, u16_from_bytes(e, s)) == s,
{
    let b0 = s[0];
    let b1 = s[1];
    assert(((((b0 as u16) | ((b1 as u16) << 8)) & 0xff) as u8) == b0 && (((((b0 as u16) | ((b1
        as u16) << 8)) >> 8) & 0xff) as u8) == b1 && (((((b0 as u16) << 8) | (b1 as u16)) & 0xff)
        as u8) == b1 && ((((((b0 as u16) << 8) | (b1 as u16)) >> 8) & 0xff) as u8) == b0)
        by (bit_vector);
    assert(u16_to_bytes(e, u16_from_bytes(e, s)) =~= s);
}

/// Writing a u32 out and reading it back gives the value again.
pub proof fn lemma_u32_value_round_trip(e: EiData, v: u32)
    ensures
        u32_from_bytes(e, u32_to_bytes(e, v)) == v,
{
    assert((((v & 0xff) as u8 as u32) | ((((v >> 8) & 0xff) as u8 as u32) << 8) | ((((v >> 16)
        & 0xff) as u8 as u32) << 16) | ((((v >> 24) & 0xff) as u8 as u32) << 24)) == v && (((((v
        >> 24) & 0xff) as u8 as u32) << 24) | ((((v >> 16) & 0xff) as u8 as u32) << 16) | ((((v
        >> 8) & 0xff) as u8 as u32) << 8) | ((v & 0xff) as u8 as u32)) == v) by (bit_vector);
}

/// Reading a u32 and writing it back reproduces all four bytes.
pub proof fn lemma_u32_bytes_round_trip(e: EiData, s: Seq<u8>)
    requires
        s.len() == 4,
    ensures
        u32_to_bytes(e, u32_from_bytes(e, s)) == s,
{
    let b0 = s[0];
    let b1 = s[1];
    let b2 = s[2];
    let b3 = s[3];
    let le = (b0 as u32) | ((b1 as u32) << 8) | ((b2 as u32) << 16) | ((b3 as u32) << 24);
    let be = ((b0 as u32) << 24) | ((b1 as u32) << 16) | ((b2 as u32) << 8) | (b3 as u32);
    assert(((le & 0xff) as u8) == b0 && (((le >> 8) & 0xff) as u8) == b1 && (((le >> 16) & 0xff)
        as u8) == b2 && (((le >> 24) & 0xff) as u8) == b3 && ((be & 0xff) as u8) == b3 && (((be
        >> 8) & 0xff) as u8) == b2 && (((be >> 16) & 0xff) as u8) == b1 && (((be >> 24) & 0xff)
        as u8) == b0) by (bit_vector)
        requires
            le == (b0 as u32) | ((b1 as u32) << 8) | ((b2 as u32) << 16) | ((b3 as u32) << 24),
            be == ((b0 as u32) << 24) | ((b1 as u32) << 16) | ((b2 as u32) << 8) | (b3 as u32),
    ;
    assert(u32_to_bytes(e, u32_from_bytes(e, s)) =~= s);
}

/// Writing a u64 out and reading it back gives the value again.
pub proof fn lemma_u64_value_round_trip(e: EiData, v: u64)
    ensures
        u64_from_bytes(e, u64_to_bytes(e, v)) == v,
{
    assert((((v & 0xff) as u8 as u64) | ((((v >> 8) & 0xff) as u8 as u64) << 8) | ((((v >> 16)
        & 0xff) as u8 as u64) << 16) | ((((v >> 24) & 0xff) as u8 as u64) << 24) | ((((v >> 32)
        & 0xff) as u8 as u64) << 32) | ((((v >> 40) & 0xff) as u8 as u64) << 40) | ((((v >> 48)
        & 0xff) as u8 as u64) << 48) | ((((v >> 56) & 0xff) as u8 as u64) << 56)) == v && (((((v
        >> 56) & 0xff) as u8 as u64) << 56) | ((((v >> 48) & 0xff) as u8 as u64) << 48) | ((((v
        >> 40) & 0xff) as u8 as u64) << 40) | ((((v >> 32) & 0xff) as u8 as u64) << 32) | ((((v
        >> 24) & 0xff) as u8 as u64) << 24) | ((((v >> 16) & 0xff) as u8 as u64) << 16) | ((((v
        >> 8) & 0xff) as u8 as u64) << 8) | ((v & 0xff) as u8 as u64)) == v) by (bit_vector);
}

/// Reading a u64 and writing it back reproduces all eight bytes.
pub proof fn lemma_u64_bytes_round_trip(e: EiData, s: Seq<u8>)
    requires
        s.len() == 8,
    ensures
        u64_to_bytes(e, u64_from_bytes(e, s)) == s,
{
    let b0 = s[0];
    let b1 = s[1];
    let b2 = s[2];
    let b3 = s[3];
    let b4 = s[4];
    let b5 = s[5];
    let b6 = s[6];
    let b7 = s[7];
    let le = (b0 as u64) | ((b1 as u64) << 8) | ((b2 as u64) << 16) | ((b3 as u64) << 24) | ((b4
        as u64) << 32) | ((b5 as u64) << 40) | ((b6 as u64) << 48) | ((b7 as u64) << 56);
    let be = ((b0 as u64) << 56) | ((b1 as u64) << 48) | ((b2 as u64) << 40) | ((b3 as u64) << 32)
        | ((b4 as u64) << 24) | ((b5 as u64) << 16) | ((b6 as u64) << 8) | (b7 as u64);
    assert(((le & 0xff) as u8) == b0 && (((le >> 8) & 0xff) as u8) == b1 && (((le >> 16) & 0xff)
        as u8) == b2 && (((le >> 24) & 0xff) as u8) == b3 && (((le >> 32) & 0xff) as u8) == b4
        && (((le >> 40) & 0xff) as u8) == b5 && (((le >> 48) & 0xff) as u8) == b6 && (((le >> 56)
        & 0xff) as u8) == b7 && ((be & 0xff) as u8) == b7 && (((be >> 8) & 0xff) as u8) == b6
        && (((be >> 16) & 0xff) as u8) == b5 && (((be >> 24) & 0xff) as u8) == b4 && (((be >> 32)
        & 0xff) as u8) == b3 && (((be >> 40) & 0xff) as u8) == b2 && (((be >> 48) & 0xff) as u8)
        == b1 && (((be >> 56) & 0xff) as u8) == b0) by (bit_vector)
        requires
            le == (b0 as u64) | ((b1 as u64) << 8) | ((b2 as u64) << 16) | ((b3 as u64) << 24) | ((
            b4 as u64) << 32) | ((b5 as u64) << 40) | ((b6 as u64) << 48) | ((b7 as u64) << 56),
            be == ((b0 as u64) << 56) | ((b1 as u64) << 48) | ((b2 as u64) << 40) | ((b3 as u64)
                << 32) | ((b4 as u64) << 24) | ((b5 as u64) << 16) | ((b6 as u64) << 8) | (b7
                as u64),
    ;
    assert(u64_to_bytes(e, u64_from_bytes(e, s)) =~= s);
}

/// Reads the u16 at `off` without a bounds check; the table and header
/// decoders establish the bound once for a whole region.
pub(crate) fn read_u16(b: &Vec<u8>, off: usize, e: EiData) -> (r: u16)
    requires
        off + 2 <= b@.len(),
    ensures
        r == u16_from_bytes(e, b@.subrange(off as int, off as int + 2)),
{
    proof {
        assert(b@.len() == b.len());
    }
    let b0 = b[off];
    let b1 = b[off + 1];
    proof {
        assert(b@.subrange(off as int, off as int + 2)[0] == b@[off as int]);
        assert(b@.subrange(off as int, off as int + 2)[1] == b@[off as int + 1]);
    }
    match e {
        EiData::Little => (b0 as u16) | ((b1 as u16) << 8),
        EiData::Big => ((b0 as u16) << 8) | (b1 as u16),
    }
}

/// Reads the u32 at `off` without a bounds check.
pub(crate) fn read_u32(b: &Vec<u8>, off: usize, e: EiData) -> (r: u32)
    requires
        off + 4 <= b@.len(),
    ensures
        r == u32_from_bytes(e, b@.subrange(off as int, off as int + 4)),
{
    proof {
        assert(b@.len() == b.len());
    }
    let b0 = b[off];
    let b1 = b[off + 1];
    let b2 = b[off + 2];
    let b3 = b[off + 3];
    proof {
        assert(b@.subrange(off as int, off as int + 4)[0] == b@[off as int]);
        assert(b@.subrange(off as int, off as int + 4)[1] == b@[off as int + 1]);
        assert(b@.subrange(off as int, off as int + 4)[2] == b@[off as int + 2]);
        assert(b@.subrange(off as int, off as int + 4)[3] == b@[off as int + 3]);
    }
    match e {
        EiData::Little => (b0 as u32) | ((b1 as u32) << 8) | ((b2 as u32) << 16) | ((b3 as u32)
            << 24),
        EiData::Big => ((b0 as u32) << 24) | ((b1 as u32) << 16) | ((b2 as u32) << 8) | (b3
            as u32),
    }
}

/// Reads the u64 at `off` without a bounds check.
pub(crate) fn read_u64(b: &Vec<u8>, off: usize, e: EiData) -> (r: u64)
    requires
        off + 8 <= b@.len(),
    ensures
        r == u64_from_bytes(e, b@.subrange(off as int, off as int + 8)),
{
    proof {
        assert(b@.len() == b.len());
    }
    let b0 = b[off];
    let b1 = b[off + 1];
    let b2 = b[off + 2];
    let b3 = b[off + 3];
    let b4 = b[off + 4];
    let b5 = b[off + 5];
    let b6 = b[off + 6];
    let b7 = b[off + 7];
    proof {
        assert(b@.subrange(off as int, off as int + 8)[0] == b@[off as int]);
        assert(b@.subrange(off as int, off as int + 8)[1] == b@[off as int + 1]);
        assert(b@.subrange(off as int, off as int + 8)[2] == b@[off as int + 2]);
        assert(b@.subrange(off as int, off as int + 8)[3] == b@[off as int + 3]);
        assert(b@.subrange(off as int, off as int + 8)[4] == b@[off as int + 4]);
        assert(b@.subrange(off as int, off as int + 8)[5] == b@[off as int + 5]);
        assert(b@.subrange(off as int, off as int + 8)[6] == b@[off as int + 6]);
        assert(b@.subrange(off as int, off as int + 8)[7] == b@[off as int + 7]);
    }
    match e {
        EiData::Little => (b0 as u64) | ((b1 as u64) << 8) | ((b2 as u64) << 16) | ((b3 as u64)
            << 24) | ((b4 as u64) << 32) | ((b5 as u64) << 40) | ((b6 as u64) << 48) | ((b7
            as u64) << 56),
        EiData::Big => ((b0 as u64) << 56) | ((b1 as u64) << 48) | ((b2 as u64) << 40) | ((b3
            as u64) << 32) | ((b4 as u64) << 24) | ((b5 as u64) << 16) | ((b6 as u64) << 8) | (b7
            as u64),
    }
}

/// Reads the u16 at `off`, consuming exactly two bytes, or reports that
/// they are not there; the buffer itself is never touched out of bounds.
pub fn match_u16(b: &Vec<u8>, off: usize, e: EiData) -> (r: Option<(u16, usize)>)
    ensures
        off + 2 <= b@.len() ==> r == Some::<(u16, usize)>(
            (u16_from_bytes(e, b@.subrange(off as int, off as int + 2)), (off + 2) as usize),
        ),
        off + 2 > b@.len() ==> r is None,
{
    if off > b.len() || b.len() - off < 2 {
        return None;
    }
    Some((read_u16(b, off, e), off + 2))
}

/// Reads the u32 at `off`, consuming exactly four bytes, or reports that
/// they are not there.
pub fn match_u32(b: &Vec<u8>, off: usize, e: EiData) -> (r: Option<(u32, usize)>)
    ensures
        off + 4 <= b@.len() ==> r == Some::<(u32, usize)>(
            (u32_from_bytes(e, b@.subrange(off as int, off as int + 4)), (off + 4) as usize),
        ),
        off + 4 > b@.len() ==> r is None,
{
    if off > b.len() || b.len() - off < 4 {
        return None;
    }
    Some((read_u32(b, off, e), off + 4))
}

/// Reads the u64 at `off`, consuming exactly eight bytes, or reports that
/// they are not there.
pub fn match_u64(b: &Vec<u8>, off: usize, e: EiData) -> (r: Option<(u64, usize)>)
    ensures
        off + 8 <= b@.len() ==> r == Some::<(u64, usize)>(
            (u64_from_bytes(e, b@.subrange(off as int, off as int + 8)), (off + 8) as usize),
        ),
        off + 8 > b@.len() ==> r is None,
{
    if off > b.len() || b.len() - off < 8 {
        return None;
    }
    Some((read_u64(b, off, e), off + 8))
}

/// Copies the `n` bytes at `off` out of the buffer, consuming exactly `n`,
/// or reports that they are not there.
pub fn take_fixed(b: &Vec<u8>, off: usize, n: usize) -> (r: Option<(Vec<u8>, usize)>)
    ensures
        off + n <= b@.len() ==> (r matches Some(p) && p.0@ == b@.subrange(
            off as int,
            off as int + n,
        ) && p.1 == off + n),
        off + n > b@.len() ==> r is None,
{
    if off > b.len() || b.len() - off < n {
        return None;
    }
    let mut taken: Vec<u8> = Vec::new();
    let mut i: usize = 0;
    while i < n
        invariant
            off + n <= b@.len(),
            b@.len() == b.len(),
            i <= n,
            taken@ == b@.subrange(off as int, off as int + i),
        decreases n - i,
    {
        taken.push(b[off + i]);
        proof {
            assert(b@.subrange(off as int, off as int + i + 1) =~= b@.subrange(
                off as int,
                off as int + i,
            ).push(b@[off as int + i]));
        }
        i = i + 1;
    }
    Some((taken, off + n))
}

/// Compares the bytes at `off` against an expected literal, consuming them
/// on a match and nothing on a mismatch or a short buffer.
pub fn expect_bytes(b: &Vec<u8>, off: usize, expected: &Vec<u8>) -> (r: Option<usize>)
    ensures
        r matches Some(n) ==> off + expected@.len() <= b@.len() && b@.subrange(
            off as int,
            off as int + expected@.len(),
        ) == expected@ && n == off + expected@.len(),
        r is None ==> off + expected@.len() > b@.len() || b@.subrange(
            off as int,
            off as int + expected@.len(),
        ) != expected@,
{
    if off > b.len() || b.len() - off < expected.len() {
        return None;
    }
    let n = expected.len();
    let mut i: usize = 0;
    while i < n
        invariant
            off + n <= b@.len(),
            b@.len() == b.len(),
            n == expected@.len(),
            expected@.len() == expected.len(),
            i <= n,
            b@.subrange(off as int, off as int + i) == expected@.subrange(0, i as int),
        decreases n - i,
    {
        if b[off + i] != expected[i] {
            proof {
                assert(b@.subrange(off as int, off as int + n as int)[i as int] == b@[off as int
                    + i]);
            }
            return None;
        }
        proof {
            assert(b@.subrange(off as int, off as int + i + 1) =~= b@.subrange(
                off as int,
                off as int + i,
            ).push(b@[off as int + i]));
            assert(expected@.subrange(0, i as int + 1) =~= expected@.subrange(0, i as int).push(
                expected@[i as int],
            ));
        }
        i = i + 1;
    }
    proof {
        assert(b@.subrange(off as int, off as int + n as int) =~= expected@);
    }
    Some(off + n)
}

/// Appends the two bytes of a u16 in the given byte order.
pub(crate) fn push_u16(out: &mut Vec<u8>, e: EiData, v: u16)
    ensures
        final(out)@ == old(out)@ + u16_to_bytes(e, v),
{
    match e {
        EiData::Little => {
            out.push((v & 0xff) as u8);
            out.push(((v >> 8) & 0xff) as u8);
        },
        EiData::Big => {
            out.push(((v >> 8) & 0xff) as u8);
            out.push((v & 0xff) as u8);
        },
    }
    proof {
        assert(out@ =~= old(out)@ + u16_to_bytes(e, v));
    }
}

/// Appends the four bytes of a u32 in the given byte order.
pub(crate) fn push_u32(out: &mut Vec<u8>, e: EiData, v: u32)
    ensures
        final(out)@ == old(out)@ + u32_to_bytes(e, v),
{
    match e {
        EiData::Little => {
            out.push((v & 0xff) as u8);
            out.push(((v >> 8) & 0xff) as u8);
            out.push(((v >> 16) & 0xff) as u8);
            out.push(((v >> 24) & 0xff) as u8);
        },
        EiData::Big => {
            out.push(((v >> 24) & 0xff) as u8);
            out.push(((v >> 16) & 0xff) as u8);
            out.push(((v >> 8) & 0xff) as u8);
            out.push((v & 0xff) as u8);
        },
    }
    proof {
        assert(out@ =~= old(out)@ + u32_to_bytes(e, v));
    }
}

/// Appends the eight bytes of a u64 in the given byte order.
pub(crate) fn push_u64(out: &mut Vec<u8>, e: EiData, v: u64)
    ensures
        final(out)@ == old(out)@ + u64_to_bytes(e, v),
{
    match e {
        EiData::Little => {
            out.push((v & 0xff) as u8);
            out.push(((v >> 8) & 0xff) as u8);
            out.push(((v >> 16) & 0xff) as u8);
            out.push(((v >> 24) & 0xff) as u8);
            out.push(((v >> 32) & 0xff) as u8);
            out.push(((v >> 40) & 0xff) as u8);
            out.push(((v >> 48) & 0xff) as u8);
            out.push(((v >> 56) & 0xff) as u8);
        },
        EiData::Big => {
            out.push(((v >> 56) & 0xff) as u8);
            out.push(((v >> 48) & 0xff) as u8);
            out.push(((v >> 40) & 0xff) as u8);
            out.push(((v >> 32) & 0xff) as u8);
            out.push(((v >> 24) & 0xff) as u8);
            out.push(((v >> 16) & 0xff) as u8);
            out.push(((v >> 8) & 0xff) as u8);
            out.push((v & 0xff) as u8);
        },
    }
    proof {
        assert(out@ =~= old(out)@ + u64_to_bytes(e, v));
    }
}

} // verus!
