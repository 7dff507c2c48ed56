//! Placement of a block-aligned read window inside an over-sized allocation.
//!
//! Unbuffered device reads require the read buffer's base address to be a
//! multiple of the block size. The caller over-allocates to at least two
//! blocks; this module computes the offset of the first block-aligned
//! position, so that a full block starting there still fits inside the
//! allocation.

use vstd::prelude::*;

verus! {

/// Alignment unit and I/O granularity, in bytes.
pub const BLOCK_BYTES: usize = 4096;

/// Offset of the first block-aligned address at or after `addr`, excluding
/// `addr` itself when it is already aligned (the window is placed strictly
/// inside the allocation, never at padding zero, mirroring the placement
/// `BLOCK_BYTES - addr % BLOCK_BYTES`).
pub fn align_padding(addr: usize) -> (pad: usize)
    ensures
        1 <= pad <= BLOCK_BYTES,
        (addr + pad) % (BLOCK_BYTES as int) == 0,
{
    let rem = addr % BLOCK_BYTES;
    proof {
        assert((addr + (BLOCK_BYTES - addr % BLOCK_BYTES)) % (BLOCK_BYTES as int) == 0) by (nonlinear_arith);
    }
    BLOCK_BYTES - rem
}

/// Where the read window sits inside a backing allocation that starts at
/// address `addr` and is `alloc_len` bytes long: returns `(pad, len)` such
/// that the window `[pad, pad + len)` is one full block, starts on a
/// block-aligned address, and lies within the allocation.
pub fn aligned_window(addr: usize, alloc_len: usize) -> (w: (usize, usize))
    requires
        alloc_len >= 2 * BLOCK_BYTES,
    ensures
        w.1 == BLOCK_BYTES,
        (addr + w.0) % (BLOCK_BYTES as int) == 0,
        w.0 + w.1 <= alloc_len,
{
    let pad = align_padding(addr);
    (pad, BLOCK_BYTES)
}

} // verus!
