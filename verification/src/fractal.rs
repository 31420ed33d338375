//! Colouring of an escape-time fractal.

use vstd::prelude::*;

verus! {

/// The number of iterations an orbit is followed for at most.
pub const MAX_ITERATIONS: u32 = 110;

/// The low eight bits of `n`.
pub open spec fn low_byte(n: int) -> int {
    n % 256
}

/// The colour of a point whose orbit left `i` iterations unused, as
/// `0x00RRGGBB`: red is the low byte of `8 * i`, green that of `32 * i`,
/// blue that of `4 * i`.
pub open spec fn julia_color(i: u32) -> int {
    low_byte(8 * i) * 65536 + low_byte(32 * i) * 256 + low_byte(4 * i)
}

/// Colours a point of the Julia set from the iterations that its orbit left
/// unused when it escaped.
pub fn julia(i: u32) -> (color: u32)
    ensures
        color == julia_color(i),
{
    let r: u32 = (i << 3) & 0xff;
    let g: u32 = (i << 5) & 0xff;
    let b: u32 = (i & 0x3f) << 2;
    assert(r == (8 * i) % 256) by (bit_vector)
        requires
            r == (i << 3) & 0xff,
    ;
    assert(g == (32 * i) % 256) by (bit_vector)
        requires
            g == (i << 5) & 0xff,
    ;
    assert(b == (4 * i) % 256) by (bit_vector)
        requires
            b == (i & 0x3f) << 2,
    ;
    let color: u32 = r << 16 | g << 8 | b;
    assert(color == r * 65536 + g * 256 + b) by (bit_vector)
        requires
            r < 256,
            g < 256,
            b < 256,
            color == r << 16 | g << 8 | b,
    ;
    color
}

} // verus!
