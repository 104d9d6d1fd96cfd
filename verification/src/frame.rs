//! Bounds-checked reads over a raw frame: the sole access path to its bytes.
//!
//! A frame is an immutable window of octets of host-supplied length. Every
//! read of `N` bytes at offset `off` first checks `off + N <= len` and fails
//! closed (returns `None`) otherwise, so the decoders built on these
//! primitives can never read out of bounds.

use vstd::prelude::*;

verus! {

/// The value of two consecutive octets read in network (big-endian) order.
pub open spec fn be16(hi: u8, lo: u8) -> u16 {
    (hi * 256 + lo) as u16
}

/// The value of four consecutive octets read in network (big-endian) order.
pub open spec fn be32(b0: u8, b1: u8, b2: u8, b3: u8) -> u32 {
    (b0 * 0x1000000 + b1 * 0x10000 + b2 * 0x100 + b3) as u32
}

/// Reads the octet at `off`, or fails closed when `off` is out of bounds.
pub fn read_u8(frame: &[u8], off: usize) -> (r: Option<u8>)
    ensures
        r == (if off < frame@.len() {
            Some(frame@[off as int])
        } else {
            None::<u8>
        }),
{
    if off < frame.len() {
        Some(*vstd::slice::slice_index_get(frame, off))
    } else {
        None
    }
}

/// Reads the big-endian 16-bit value at `off`, or fails closed when fewer
/// than two octets remain.
pub fn read_be16(frame: &[u8], off: usize) -> (r: Option<u16>)
    ensures
        r == (if off + 2 <= frame@.len() {
            Some(be16(frame@[off as int], frame@[off as int + 1]))
        } else {
            None::<u16>
        }),
{
    if frame.len() >= 2 && off <= frame.len() - 2 {
        let hi = *vstd::slice::slice_index_get(frame, off);
        let lo = *vstd::slice::slice_index_get(frame, off + 1);
        Some((hi as u16) * 256 + (lo as u16))
    } else {
        None
    }
}

/// Reads the big-endian 32-bit value at `off`, or fails closed when fewer
/// than four octets remain.
pub fn read_be32(frame: &[u8], off: usize) -> (r: Option<u32>)
    ensures
        r == (if off + 4 <= frame@.len() {
            Some(be32(
                frame@[off as int],
                frame@[off as int + 1],
                frame@[off as int + 2],
                frame@[off as int + 3],
            ))
        } else {
            None::<u32>
        }),
{
    if frame.len() >= 4 && off <= frame.len() - 4 {
        let b0 = *vstd::slice::slice_index_get(frame, off);
        let b1 = *vstd::slice::slice_index_get(frame, off + 1);
        let b2 = *vstd::slice::slice_index_get(frame, off + 2);
        let b3 = *vstd::slice::slice_index_get(frame, off + 3);
        Some((b0 as u32) * 0x1000000 + (b1 as u32) * 0x10000 + (b2 as u32) * 0x100 + (b3 as u32))
    } else {
        None
    }
}

} // verus!
