use vstd::prelude::*;

verus! {

/// The 32-bit value whose little-endian encoding is `b0 b1 b2 b3`.
pub open spec fn le_u32(b0: u8, b1: u8, b2: u8, b3: u8) -> int {
    b0 as int + 256 * (b1 as int) + 65536 * (b2 as int) + 16777216 * (b3 as int)
}

/// The sample held in the `i`-th complete 4-byte group of `data`.
pub open spec fn sample_at(data: Seq<u8>, i: int) -> int {
    le_u32(data[4 * i], data[4 * i + 1], data[4 * i + 2], data[4 * i + 3])
}

fn read_le_u32(b0: u8, b1: u8, b2: u8, b3: u8) -> (r: u32)
    ensures
        r == le_u32(b0, b1, b2, b3),
{
    proof {
        assert(0 <= le_u32(b0, b1, b2, b3) <= 0xffff_ffff) by (nonlinear_arith)
            requires
                b0 <= 255,
                b1 <= 255,
                b2 <= 255,
                b3 <= 255,
        ;
    }
    b0 as u32 + 256 * (b1 as u32) + 65536 * (b2 as u32) + 16777216 * (b3 as u32)
}

/// Decodes a packet into samples: each complete group of four bytes is the
/// little-endian bit pattern of one single-precision value; trailing bytes
/// that do not form a group are dropped.
pub fn parse_samples(data: &[u8]) -> (r: Vec<u32>)
    ensures
        r@.len() == data@.len() / 4,
        forall|i: int| 0 <= i < r@.len() ==> r@[i] == sample_at(data@, i),
{
    let len = data.len();
    let n = len / 4;
    let mut out: Vec<u32> = Vec::new();
    let mut i: usize = 0;
    while i < n
        invariant
            len == data@.len(),
            n == len / 4,
            i <= n,
            out@.len() == i,
            forall|k: int| 0 <= k < i ==> out@[k] == sample_at(data@, k),
        decreases n - i,
    {
        assert(4 * i + 3 < len) by (nonlinear_arith)
            requires
                i < n,
                n == len / 4,
        ;
        let base = 4 * i;
        let s = read_le_u32(data[base], data[base + 1], data[base + 2], data[base + 3]);
        out.push(s);
        i = i + 1;
    }
    out
}

} // verus!
