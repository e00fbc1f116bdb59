//! Bit rotation, as the log signatures use it.
use vstd::prelude::*;

verus! {

/// `x` rotated left by `n` bits, `n` taken modulo 64.
pub open spec fn spec_rotate_left(x: u64, n: u32) -> u64 {
    let k = n % 64;
    if k == 0 {
        x
    } else {
        (x << k) | (x >> ((64 - k) as u32))
    }
}

/// Rotates `x` left by `n` bits, as `u64::rotate_left` does.
pub fn rotate_left(x: u64, n: u32) -> (r: u64)
    ensures
        r == spec_rotate_left(x, n),
{
    let k = n % 64;
    if k == 0 {
        x
    } else {
        (x << k) | (x >> (64 - k))
    }
}

/// A flag as a word: 1 or 0.
pub open spec fn flag_word(b: bool) -> u64 {
    if b {
        1
    } else {
        0
    }
}

pub fn flag_word_exec(b: bool) -> (r: u64)
    ensures
        r == flag_word(b),
{
    if b {
        1
    } else {
        0
    }
}

} // verus!
