//! Little-endian fixed-width integers and verbatim byte runs on byte sequences.

use vstd::prelude::*;

verus! {

/// The eight bytes of `x`, least significant first: the digits of `x` in
/// base 256.
pub open spec fn u64_le(x: u64) -> Seq<u8> {
    seq![
        (x % 0x100) as u8,
        ((x / 0x100) % 0x100) as u8,
        ((x / 0x1_0000) % 0x100) as u8,
        ((x / 0x100_0000) % 0x100) as u8,
        ((x / 0x1_0000_0000) % 0x100) as u8,
        ((x / 0x100_0000_0000) % 0x100) as u8,
        ((x / 0x1_0000_0000_0000) % 0x100) as u8,
        ((x / 0x100_0000_0000_0000) % 0x100) as u8,
    ]
}

/// The integer whose little-endian bytes are the first eight of `s`.
pub open spec fn u64_of_le(s: Seq<u8>) -> u64
    recommends
        s.len() >= 8,
{
    (s[0] + s[1] * 0x100 + s[2] * 0x1_0000 + s[3] * 0x100_0000 + s[4] * 0x1_0000_0000 + s[5]
        * 0x100_0000_0000 + s[6] * 0x1_0000_0000_0000 + s[7] * 0x100_0000_0000_0000) as u64
}

/// The four bytes of `x`, least significant first: the digits of `x` in
/// base 256.
pub open spec fn u32_le(x: u32) -> Seq<u8> {
    seq![
        (x % 0x100) as u8,
        ((x / 0x100) % 0x100) as u8,
        ((x / 0x1_0000) % 0x100) as u8,
        ((x / 0x100_0000) % 0x100) as u8,
    ]
}

/// The integer whose little-endian bytes are the first four of `s`.
pub open spec fn u32_of_le(s: Seq<u8>) -> u32
    recommends
        s.len() >= 4,
{
    (s[0] + s[1] * 0x100 + s[2] * 0x1_0000 + s[3] * 0x100_0000) as u32
}

/// Decoding the eight bytes of an integer gives the integer back.
pub proof fn lemma_u64_le_round_trip(x: u64)
    ensures
        u64_le(x).len() == 8,
        u64_of_le(u64_le(x)) == x,
{
    assert(x % 0x100 + ((x / 0x100) % 0x100) * 0x100 + ((x / 0x1_0000) % 0x100) * 0x1_0000 + ((x
        / 0x100_0000) % 0x100) * 0x100_0000 + ((x / 0x1_0000_0000) % 0x100) * 0x1_0000_0000 + ((x
        / 0x100_0000_0000) % 0x100) * 0x100_0000_0000 + ((x / 0x1_0000_0000_0000) % 0x100)
        * 0x1_0000_0000_0000 + ((x / 0x100_0000_0000_0000) % 0x100) * 0x100_0000_0000_0000 == x)
        by (bit_vector);
}

/// Encoding the integer read from eight bytes gives the bytes back: no two
/// eight-byte runs decode to the same integer.
pub proof fn lemma_u64_le_of_bytes(s: Seq<u8>)
    requires
        s.len() == 8,
    ensures
        u64_le(u64_of_le(s)) == s,
{
    let s0 = s[0];
    let s1 = s[1];
    let s2 = s[2];
    let s3 = s[3];
    let s4 = s[4];
    let s5 = s[5];
    let s6 = s[6];
    let s7 = s[7];
    let x: u64 = u64_of_le(s);
    assert(x == s0 + s1 * 0x100 + s2 * 0x1_0000 + s3 * 0x100_0000 + s4 * 0x1_0000_0000 + s5
        * 0x100_0000_0000 + s6 * 0x1_0000_0000_0000 + s7 * 0x100_0000_0000_0000);
    assert(x == s0 + s1 * 0x100 + s2 * 0x1_0000 + s3 * 0x100_0000 + s4 * 0x1_0000_0000 + s5
        * 0x100_0000_0000 + s6 * 0x1_0000_0000_0000 + s7 * 0x100_0000_0000_0000 ==> x % 0x100
        == s0 && (x / 0x100) % 0x100 == s1 && (x / 0x1_0000) % 0x100 == s2 && (x / 0x100_0000)
        % 0x100 == s3 && (x / 0x1_0000_0000) % 0x100 == s4 && (x / 0x100_0000_0000) % 0x100 == s5
        && (x / 0x1_0000_0000_0000) % 0x100 == s6 && (x / 0x100_0000_0000_0000) % 0x100 == s7)
        by (bit_vector);
    assert(u64_le(x) =~= s);
}

/// Decoding the four bytes of an integer gives the integer back.
pub proof fn lemma_u32_le_round_trip(x: u32)
    ensures
        u32_le(x).len() == 4,
        u32_of_le(u32_le(x)) == x,
{
    assert(x % 0x100 + ((x / 0x100) % 0x100) * 0x100 + ((x / 0x1_0000) % 0x100) * 0x1_0000 + ((x
        / 0x100_0000) % 0x100) * 0x100_0000 == x) by (bit_vector);
}

/// The array that holds the bytes of `s`.
pub open spec fn array_of<const N: usize>(s: Seq<u8>) -> [u8; N]
    recommends
        s.len() == N,
{
    choose|a: [u8; N]| a@ == s
}

/// An array is the array of its own bytes.
pub proof fn lemma_array_of_view<const N: usize>(a: [u8; N])
    ensures
        array_of::<N>(a@) == a,
{
    assert(array_of::<N>(a@)@ == a@);
    assert(array_of::<N>(a@) =~= a);
}

/// Eight bytes fill an array of eight.
pub proof fn lemma_array_of_8(s: Seq<u8>)
    requires
        s.len() == 8,
    ensures
        array_of::<8>(s)@ == s,
{
    let a: [u8; 8] = [
        s[0],
        s[1],
        s[2],
        s[3],
        s[4],
        s[5],
        s[6],
        s[7],
    ];
    assert(a@ =~= s);
}

/// Thirty-two bytes fill an array of thirty-two.
pub proof fn lemma_array_of_32(s: Seq<u8>)
    requires
        s.len() == 32,
    ensures
        array_of::<32>(s)@ == s,
{
    let a: [u8; 32] = [
        s[0],
        s[1],
        s[2],
        s[3],
        s[4],
        s[5],
        s[6],
        s[7],
        s[8],
        s[9],
        s[10],
        s[11],
        s[12],
        s[13],
        s[14],
        s[15],
        s[16],
        s[17],
        s[18],
        s[19],
        s[20],
        s[21],
        s[22],
        s[23],
        s[24],
        s[25],
        s[26],
        s[27],
        s[28],
        s[29],
        s[30],
        s[31],
    ];
    assert(a@ =~= s);
}

/// Sixty-four bytes fill an array of sixty-four.
pub proof fn lemma_array_of_64(s: Seq<u8>)
    requires
        s.len() == 64,
    ensures
        array_of::<64>(s)@ == s,
{
    let a: [u8; 64] = [
        s[0],
        s[1],
        s[2],
        s[3],
        s[4],
        s[5],
        s[6],
        s[7],
        s[8],
        s[9],
        s[10],
        s[11],
        s[12],
        s[13],
        s[14],
        s[15],
        s[16],
        s[17],
        s[18],
        s[19],
        s[20],
        s[21],
        s[22],
        s[23],
        s[24],
        s[25],
        s[26],
        s[27],
        s[28],
        s[29],
        s[30],
        s[31],
        s[32],
        s[33],
        s[34],
        s[35],
        s[36],
        s[37],
        s[38],
        s[39],
        s[40],
        s[41],
        s[42],
        s[43],
        s[44],
        s[45],
        s[46],
        s[47],
        s[48],
        s[49],
        s[50],
        s[51],
        s[52],
        s[53],
        s[54],
        s[55],
        s[56],
        s[57],
        s[58],
        s[59],
        s[60],
        s[61],
        s[62],
        s[63],
    ];
    assert(a@ =~= s);
}

/// Appends the eight little-endian bytes of `x` to `out`.
pub fn put_u64_le(out: &mut Vec<u8>, x: u64)
    ensures
        final(out)@ == old(out)@ + u64_le(x),
{
    out.push((x % 0x100) as u8);
    out.push(((x / 0x100) % 0x100) as u8);
    out.push(((x / 0x1_0000) % 0x100) as u8);
    out.push(((x / 0x100_0000) % 0x100) as u8);
    out.push(((x / 0x1_0000_0000) % 0x100) as u8);
    out.push(((x / 0x100_0000_0000) % 0x100) as u8);
    out.push(((x / 0x1_0000_0000_0000) % 0x100) as u8);
    out.push(((x / 0x100_0000_0000_0000) % 0x100) as u8);
    assert(out@ =~= old(out)@ + u64_le(x));
}

/// Appends the four little-endian bytes of `x` to `out`.
pub fn put_u32_le(out: &mut Vec<u8>, x: u32)
    ensures
        final(out)@ == old(out)@ + u32_le(x),
{
    out.push((x % 0x100) as u8);
    out.push(((x / 0x100) % 0x100) as u8);
    out.push(((x / 0x1_0000) % 0x100) as u8);
    out.push(((x / 0x100_0000) % 0x100) as u8);
    assert(out@ =~= old(out)@ + u32_le(x));
}

/// Whether two byte runs are the same.
pub fn same_bytes(a: &[u8], b: &[u8]) -> (r: bool)
    ensures
        r == (a@ == b@),
{
    if a.len() != b.len() {
        return false;
    }
    let mut i: usize = 0;
    while i < a.len()
        invariant
            i <= a@.len() == b@.len(),
            forall|j: int| 0 <= j < i ==> a@[j] == b@[j],
        decreases a@.len() - i,
    {
        if a[i] != b[i] {
            return false;
        }
        i = i + 1;
    }
    assert(a@ =~= b@);
    true
}

/// Appends `src` verbatim to `out`.
pub fn put_bytes(out: &mut Vec<u8>, src: &[u8])
    ensures
        final(out)@ == old(out)@ + src@,
{
    let mut i: usize = 0;
    while i < src.len()
        invariant
            i <= src@.len(),
            out@ == old(out)@ + src@.subrange(0, i as int),
        decreases src@.len() - i,
    {
        out.push(src[i]);
        i = i + 1;
        assert(out@ =~= old(out)@ + src@.subrange(0, i as int));
    }
    assert(src@.subrange(0, i as int) =~= src@);
}

/// Reads the little-endian integer held in the eight bytes of `data` from `at`.
pub fn get_u64_le(data: &[u8], at: usize) -> (x: u64)
    requires
        at + 8 <= data@.len(),
    ensures
        x == u64_of_le(data@.subrange(at as int, at + 8)),
{
    let b0 = data[at] as u64;
    let b1 = data[at + 1] as u64;
    let b2 = data[at + 2] as u64;
    let b3 = data[at + 3] as u64;
    let b4 = data[at + 4] as u64;
    let b5 = data[at + 5] as u64;
    let b6 = data[at + 6] as u64;
    let b7 = data[at + 7] as u64;
    b0 + b1 * 0x100 + b2 * 0x1_0000 + b3 * 0x100_0000 + b4 * 0x1_0000_0000 + b5 * 0x100_0000_0000
        + b6 * 0x1_0000_0000_0000 + b7 * 0x100_0000_0000_0000
}

/// Copies the `N` bytes of `data` from `at` into an array.
pub fn get_array<const N: usize>(data: &[u8], at: usize) -> (a: [u8; N])
    requires
        at + N <= data@.len(),
    ensures
        a@ == data@.subrange(at as int, at + N),
        a == array_of::<N>(data@.subrange(at as int, at + N)),
{
    let len = data.len();
    let mut a = [0u8; N];
    let mut i: usize = 0;
    while i < N
        invariant
            i <= N,
            at + N <= data@.len() == len,
            forall|j: int| 0 <= j < i ==> a@[j] == data@[at + j],
        decreases N - i,
    {
        a[i] = data[at + i];
        i = i + 1;
    }
    assert(a@ =~= data@.subrange(at as int, at + N));
    proof {
        lemma_array_of_view(a);
    }
    a
}

} // verus!
