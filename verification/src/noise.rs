//! One-dimensional value noise over a hashed integer grid, used by the
//! flowing effects.
//!
//! Positions and phases are 16.16 fixed point; the hash is a SplitMix64-style
//! mixer folded to 32 bits. All wrap-around is arithmetic modulo 2^64.

use vstd::prelude::*;

use crate::math8::{blend8, blend8_spec, ease_in_out_quad, ease_in_out_quad_spec};

verus! {

/// SplitMix64-style mixing of a 64-bit value, folded down to 32 bits.
pub open spec fn hash_spec(x: u64) -> u32 {
    let z1 = ((x + 0x9e3779b97f4a7c15) % 0x10000000000000000) as u64;
    let z2 = (((z1 ^ (z1 >> 30)) * 0xbf58476d1ce4e5b9) % 0x10000000000000000) as u64;
    let z3 = (((z2 ^ (z2 >> 27)) * 0x94d049bb133111eb) % 0x10000000000000000) as u64;
    (((z3 ^ (z3 >> 31)) as int) % 0x100000000) as u32
}

/// Deterministic hash for noise grid nodes.
pub fn hash(x: u64) -> (r: u32)
    ensures
        r == hash_spec(x),
{
    let z1: u64 = (((x as u128) + 0x9e3779b97f4a7c15) % 0x10000000000000000) as u64;
    let m1: u64 = z1 ^ (z1 >> 30);
    let z2: u64 = (((m1 as u128) * 0xbf58476d1ce4e5b9) % 0x10000000000000000) as u64;
    let m2: u64 = z2 ^ (z2 >> 27);
    let z3: u64 = (((m2 as u128) * 0x94d049bb133111eb) % 0x10000000000000000) as u64;
    let folded: u64 = z3 ^ (z3 >> 31);
    proof {
        assert(folded % 0x100000000 < 0x100000000);
    }
    (folded % 0x100000000) as u32
}

/// Smooth 1-D value noise at a 16.16 fixed-point position: the two
/// neighboring grid nodes' hashed values, blended by the eased fractional
/// part.
pub open spec fn value_noise_spec(pos_fp: u64) -> u8 {
    let cell = pos_fp >> 16;
    let frac = ((pos_fp >> 8) & 0xFF) as u8;
    let v0 = ((hash_spec(cell) as int) % 256) as u8;
    let v1 = ((hash_spec(((cell + 1) % 0x10000000000000000) as u64) as int) % 256) as u8;
    blend8_spec(v0, v1, ease_in_out_quad_spec(frac))
}

/// Smooth 1-D value noise; returns 0..=255.
pub fn value_noise(pos_fp: u64) -> (r: u8)
    ensures
        r == value_noise_spec(pos_fp),
{
    let cell = pos_fp >> 16;
    proof {
        assert((pos_fp >> 8) & 0xFF <= 255) by (bit_vector);
    }
    let frac = ((pos_fp >> 8) & 0xFF) as u8;
    let v0 = (hash(cell) % 256) as u8;
    let next_cell: u64 = (((cell as u128) + 1) % 0x10000000000000000) as u64;
    let v1 = (hash(next_cell) % 256) as u8;
    let t = ease_in_out_quad(frac);
    blend8(v0, v1, t)
}

/// A value clamped into `[min_v, max_v]`.
pub open spec fn clamp_spec(v: int, min_v: int, max_v: int) -> int {
    if v < min_v {
        min_v
    } else if v > max_v {
        max_v
    } else {
        v
    }
}

/// The spatial cell size of a noise layer, derived from the strip length.
pub open spec fn cell_size_spec(len: int, divisor: int, min_v: int, max_v: int) -> int {
    let c = clamp_spec(len / divisor, min_v, max_v);
    if c < 1 {
        1
    } else {
        c
    }
}

/// The 16.16 phase of a noise layer at `now`: continuous, never reduced
/// modulo the period, wrapping only through 64-bit arithmetic. A zero period
/// counts as one millisecond.
pub open spec fn layer_phase_spec(now: u64, period_ms: u64) -> u64 {
    let p = if period_ms == 0 {
        1
    } else {
        period_ms as int
    };
    ((((now * 65536) % 0x10000000000000000) / p) % 0x10000000000000000) as u64
}

/// The combined three-layer noise value at pixel `i` of a strip of `len`
/// pixels: a slow base layer, a faster detail layer moving the other way,
/// and a very slow shimmer layer at double phase speed, mixed 50/30/20.
pub open spec fn combined_noise_spec(
    i: int,
    len: int,
    now: u64,
    period1: u64,
    period2: u64,
    period3: u64,
) -> u8 {
    let cell1 = cell_size_spec(len, 6, 12, 40);
    let cell2 = cell_size_spec(len, 12, 6, 18);
    let cell3 = cell_size_spec(len, 4, 18, 60);
    let x1 = (i * 65536) / cell1;
    let x2 = (i * 65536) / cell2;
    let x3 = (i * 65536) / cell3;
    let p1 = layer_phase_spec(now, period1);
    let p2 = layer_phase_spec(now, period2);
    let p3 = layer_phase_spec(now, period3);
    let n1 = value_noise_spec(((x1 + p1) % 0x10000000000000000) as u64);
    let n2 = value_noise_spec(((x2 - p2 + 0x10000000000000000) % 0x10000000000000000) as u64);
    let n3 = value_noise_spec(
        ((x3 + (p3 * 2) % 0x10000000000000000) % 0x10000000000000000) as u64,
    );
    (((n1 * 128 + n2 * 77 + n3 * 51)) / 256) as u8
}

/// The combined three-layer noise value; returns 0..=255.
pub fn combined_noise(i: u32, len: u32, now: u64, period1: u64, period2: u64, period3: u64) -> (r:
    u8)
    ensures
        r == combined_noise_spec(i as int, len as int, now, period1, period2, period3),
{
    let len64 = len as u64;
    let c1 = len64 / 6;
    let cell1: u64 = if c1 < 12 {
        12
    } else if c1 > 40 {
        40
    } else {
        c1
    };
    let c2 = len64 / 12;
    let cell2: u64 = if c2 < 6 {
        6
    } else if c2 > 18 {
        18
    } else {
        c2
    };
    let c3 = len64 / 4;
    let cell3: u64 = if c3 < 18 {
        18
    } else if c3 > 60 {
        60
    } else {
        c3
    };

    let i64v = i as u64;
    let x1 = (i64v * 65536) / cell1;
    let x2 = (i64v * 65536) / cell2;
    let x3 = (i64v * 65536) / cell3;

    let p1 = layer_phase(now, period1);
    let p2 = layer_phase(now, period2);
    let p3 = layer_phase(now, period3);

    let n1 = value_noise((((x1 as u128) + (p1 as u128)) % 0x10000000000000000) as u64);
    let n2 = value_noise(
        (((x2 as u128) + 0x10000000000000000 - (p2 as u128)) % 0x10000000000000000) as u64,
    );
    let p3d: u64 = (((p3 as u128) * 2) % 0x10000000000000000) as u64;
    let n3 = value_noise((((x3 as u128) + (p3d as u128)) % 0x10000000000000000) as u64);

    let combined: u16 = (n1 as u16) * 128 + (n2 as u16) * 77 + (n3 as u16) * 51;
    (combined / 256) as u8
}

/// The 16.16 phase of a noise layer at `now`.
fn layer_phase(now: u64, period_ms: u64) -> (r: u64)
    ensures
        r == layer_phase_spec(now, period_ms),
{
    let p = if period_ms == 0 {
        1
    } else {
        period_ms
    };
    let shifted: u64 = (((now as u128) * 65536) % 0x10000000000000000) as u64;
    shifted / p
}

} // verus!
