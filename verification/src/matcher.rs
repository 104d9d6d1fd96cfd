//! HTTP method matching over a fixed window at the start of a payload.
//!
//! The match is byte-exact, case-sensitive and anchored at offset zero: the
//! first four octets are compared against `GET `, `HEAD`, `PUT ` and `POST`,
//! and the first six against `DELETE`. A payload shorter than the six-octet
//! window never matches (fail closed), even when its first four octets equal
//! a four-octet prefix: one fixed-width window keeps the hot path free of
//! variable-length scanning.

use vstd::prelude::*;

verus! {

/// Octets a matching payload must have room for.
pub const METHOD_WINDOW_LEN: usize = 6;

/// ASCII `G`.
pub const ASCII_G: u8 = 0x47;

/// ASCII `E`.
pub const ASCII_E: u8 = 0x45;

/// ASCII `T`.
pub const ASCII_T: u8 = 0x54;

/// ASCII space.
pub const ASCII_SPACE: u8 = 0x20;

/// ASCII `H`.
pub const ASCII_H: u8 = 0x48;

/// ASCII `A`.
pub const ASCII_A: u8 = 0x41;

/// ASCII `D`.
pub const ASCII_D: u8 = 0x44;

/// ASCII `P`.
pub const ASCII_P: u8 = 0x50;

/// ASCII `U`.
pub const ASCII_U: u8 = 0x55;

/// ASCII `O`.
pub const ASCII_O: u8 = 0x4F;

/// ASCII `S`.
pub const ASCII_S: u8 = 0x53;

/// ASCII `L`.
pub const ASCII_L: u8 = 0x4C;

/// The payload holds the fixed match window and starts with one of the five
/// HTTP method prefixes.
pub open spec fn spec_is_http_method_start(p: Seq<u8>) -> bool {
    &&& p.len() >= 6
    &&& {
        ||| (p[0] == ASCII_G && p[1] == ASCII_E && p[2] == ASCII_T && p[3] == ASCII_SPACE)
        ||| (p[0] == ASCII_H && p[1] == ASCII_E && p[2] == ASCII_A && p[3] == ASCII_D)
        ||| (p[0] == ASCII_P && p[1] == ASCII_U && p[2] == ASCII_T && p[3] == ASCII_SPACE)
        ||| (p[0] == ASCII_P && p[1] == ASCII_O && p[2] == ASCII_S && p[3] == ASCII_T)
        ||| (p[0] == ASCII_D && p[1] == ASCII_E && p[2] == ASCII_L && p[3] == ASCII_E && p[4] == ASCII_T
            && p[5] == ASCII_E)
    }
}

/// Tests whether a payload starts with an HTTP method prefix, failing closed
/// when fewer than six octets are available.
pub fn starts_with_http_method(payload: &[u8]) -> (b: bool)
    ensures
        b == spec_is_http_method_start(payload@),
{
    if payload.len() < METHOD_WINDOW_LEN {
        return false;
    }
    let b0 = *vstd::slice::slice_index_get(payload, 0);
    let b1 = *vstd::slice::slice_index_get(payload, 1);
    let b2 = *vstd::slice::slice_index_get(payload, 2);
    let b3 = *vstd::slice::slice_index_get(payload, 3);
    let b4 = *vstd::slice::slice_index_get(payload, 4);
    let b5 = *vstd::slice::slice_index_get(payload, 5);
    (b0 == ASCII_G && b1 == ASCII_E && b2 == ASCII_T && b3 == ASCII_SPACE) || (b0 == ASCII_H && b1 == ASCII_E && b2
        == ASCII_A && b3 == ASCII_D) || (b0 == ASCII_P && b1 == ASCII_U && b2 == ASCII_T && b3 == ASCII_SPACE) || (b0
        == ASCII_P && b1 == ASCII_O && b2 == ASCII_S && b3 == ASCII_T) || (b0 == ASCII_D && b1 == ASCII_E && b2
        == ASCII_L && b3 == ASCII_E && b4 == ASCII_T && b5 == ASCII_E)
}

} // verus!
