//! Random selection of a block-aligned read offset.
//!
//! Each probe cycle reads one full block at a uniformly chosen block-aligned
//! offset within the target's extent. The offset is re-sampled independently
//! every cycle; nothing here remembers prior offsets.

use rand::Rng;
use vstd::prelude::*;

verus! {

/// Alignment unit and I/O granularity, in bytes.
pub const BLOCK_SIZE: u64 = 4096;

/// Relies on rand::Rng::gen_range over the range `0..n`: returns a uniformly
/// distributed value in `[0, n)`, and panics only when the range is empty,
/// which `n >= 1` rules out. Uniformity cannot be stated of a single draw;
/// only the bound is promised.
#[verifier::external_body]
fn random_below(n: u64) -> (r: u64)
    requires
        n >= 1,
    ensures
        r < n,
{
    rand::thread_rng().gen_range(0..n)
}

/// The byte offset of block number `index` of a target of `file_size`
/// bytes: exactly `index * BLOCK_SIZE`, which is block-aligned and leaves a
/// full block inside the target.
pub fn block_offset(index: u64, file_size: u64) -> (offset: u64)
    requires
        file_size >= BLOCK_SIZE,
        index < file_size / BLOCK_SIZE,
    ensures
        offset == index * BLOCK_SIZE,
        offset % BLOCK_SIZE == 0,
        offset + BLOCK_SIZE <= file_size,
{
    proof {
        let b = BLOCK_SIZE as int;
        let fs = file_size as int;
        let ni = index as int;
        assert(ni * b % b == 0) by (nonlinear_arith)
            requires
                b > 0,
        ;
        assert((ni + 1) * b <= (fs / b) * b) by (nonlinear_arith)
            requires
                b > 0,
                ni < fs / b,
        ;
        assert((fs / b) * b <= fs) by (nonlinear_arith)
            requires
                b > 0,
                fs >= 0,
        ;
    }
    index * BLOCK_SIZE
}

/// A uniformly random block-aligned offset such that one full block starting
/// there lies within a target of `file_size` bytes: a multiple of
/// [`BLOCK_SIZE`] in `[0, file_size - BLOCK_SIZE]`. Re-sampled independently
/// on every call.
pub fn sample_offset(file_size: u64) -> (offset: u64)
    requires
        file_size >= BLOCK_SIZE,
    ensures
        offset % BLOCK_SIZE == 0,
        offset + BLOCK_SIZE <= file_size,
{
    let blocks = file_size / BLOCK_SIZE;
    let n = random_below(blocks);
    block_offset(n, file_size)
}

} // verus!
