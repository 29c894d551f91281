//! HSV gradient fills in 8.24 fixed point.
//!
//! A gradient walks hue, saturation and value accumulators in 8.24 fixed
//! point across a pixel range; the per-pixel deltas are computed in 8.23
//! signed fixed point so that hue wrap-around falls out of arithmetic
//! modulo 2^32.

use vstd::arithmetic::div_mod::{
    lemma_add_mod_noop, lemma_fundamental_div_mod, lemma_mod_add_multiples_vanish,
    lemma_mod_bound, lemma_mod_multiples_vanish, lemma_small_mod,
};
use vstd::prelude::*;

use crate::color::{hsv2rgb, hsv2rgb_spec, Hsv, Rgb};

verus! {

/// Which way around the hue wheel a gradient travels.
#[derive(Clone, Copy, Debug, PartialEq, Eq, Structural)]
pub enum GradientDirection {
    /// Walk the hue upwards.
    Forward,
    /// Walk the hue downwards.
    Backward,
    /// Pick whichever way is shorter on the wheel.
    Shortest,
}

/// Division that truncates toward zero, as the machine's signed division
/// does.
pub open spec fn trunc_div(a: int, d: int) -> int
    recommends
        d > 0,
{
    if a >= 0 {
        a / d
    } else {
        -((-a) / d)
    }
}

/// The end color, with its hue replaced by the start hue when the end color
/// is black or fully desaturated (its own hue would be invisible and would
/// drag the sweep through unrelated hues).
pub open spec fn adjusted_end(c1: Hsv, c2: Hsv) -> Hsv {
    if c2.val == 0 || c2.sat == 0 {
        Hsv { hue: c1.hue, sat: c2.sat, val: c2.val }
    } else {
        c2
    }
}

/// The start color, with its hue replaced by the adjusted end hue when the
/// start color is black or fully desaturated.
pub open spec fn adjusted_start(c1: Hsv, c2: Hsv) -> Hsv {
    if c1.val == 0 || c1.sat == 0 {
        Hsv { hue: adjusted_end(c1, c2).hue, sat: c1.sat, val: c1.val }
    } else {
        c1
    }
}

/// Hue difference on the 256-step wheel, wrapped into 0..=255.
pub open spec fn hue_delta_spec(from: u8, to: u8) -> int {
    (to - from) % 256
}

/// A `Shortest` direction resolves to `Forward` for deltas up to 127 and to
/// `Backward` beyond; the other directions stand as given.
pub open spec fn resolve_direction(dir: GradientDirection, hue_delta: int) -> GradientDirection {
    if dir == GradientDirection::Shortest {
        if hue_delta > 127 {
            GradientDirection::Backward
        } else {
            GradientDirection::Forward
        }
    } else {
        dir
    }
}

/// Signed hue distance in 8.7 fixed point: the wrapped delta upwards for
/// `Forward`, the complementary distance downwards for `Backward`.
pub open spec fn hue_dist87(dir: GradientDirection, hue_delta: int) -> int {
    if dir == GradientDirection::Backward {
        -(((256 - hue_delta) % 256) * 128)
    } else {
        hue_delta * 128
    }
}

/// Per-pixel delta in 8.23 signed fixed point from an 8.7 distance.
pub open spec fn delta823(dist87: int, divisor: int) -> int {
    trunc_div(dist87 * 65536, divisor) * 2
}

/// High byte of an 8.24 accumulator after `k` wrapping steps of `delta`.
pub open spec fn acc_byte(start: u8, delta: int, k: int) -> u8 {
    (((start * 0x1000000 + k * delta) % 0x100000000) / 0x1000000) as u8
}

/// Color of the pixel `k` steps into a gradient with the given per-channel
/// deltas.
pub open spec fn gradient_color_at(c1: Hsv, dh: int, ds: int, dv: int, k: int) -> Rgb {
    hsv2rgb_spec(
        Hsv {
            hue: acc_byte(c1.hue, dh, k),
            sat: acc_byte(c1.sat, ds, k),
            val: acc_byte(c1.val, dv, k),
        },
    )
}

/// A gradient fill over already-ordered positions (`start_pos <= end_pos`):
/// pixels from `start_pos` to `end_pos` (clamped to the strip) follow the
/// accumulator walk, all others keep their old color.
pub open spec fn fill_gradient_ordered_spec(
    orig: Seq<Rgb>,
    start_pos: int,
    start_color: Hsv,
    end_pos: int,
    end_color: Hsv,
    dir: GradientDirection,
) -> Seq<Rgb> {
    if orig.len() == 0 {
        orig
    } else {
        let c2 = adjusted_end(start_color, end_color);
        let c1 = adjusted_start(start_color, end_color);
        let hd = hue_delta_spec(c1.hue, c2.hue);
        let rdir = resolve_direction(dir, hd);
        let divisor = if end_pos - start_pos == 0 {
            1
        } else {
            end_pos - start_pos
        };
        let dh = delta823(hue_dist87(rdir, hd), divisor);
        let ds = delta823((c2.sat - c1.sat) * 128, divisor);
        let dv = delta823((c2.val - c1.val) * 128, divisor);
        let endc = if end_pos > orig.len() - 1 {
            orig.len() - 1
        } else {
            end_pos
        };
        Seq::new(
            orig.len(),
            |i: int|
                if start_pos <= i <= endc {
                    gradient_color_at(c1, dh, ds, dv, i - start_pos)
                } else {
                    orig[i]
                },
        )
    }
}

/// A gradient fill between two positions; if they are out of order the
/// positions and colors swap first.
pub open spec fn fill_gradient_spec(
    orig: Seq<Rgb>,
    start_pos: int,
    start_color: Hsv,
    end_pos: int,
    end_color: Hsv,
    dir: GradientDirection,
) -> Seq<Rgb> {
    if end_pos < start_pos {
        fill_gradient_ordered_spec(orig, end_pos, end_color, start_pos, start_color, dir)
    } else {
        fill_gradient_ordered_spec(orig, start_pos, start_color, end_pos, end_color, dir)
    }
}

/// A three-point gradient: the first color sweeps to the second over the
/// first half of the strip, the second to the third over the rest.
pub open spec fn fill_gradient_three_spec(orig: Seq<Rgb>, c1: Hsv, c2: Hsv, c3: Hsv) -> Seq<Rgb> {
    if orig.len() == 0 {
        orig
    } else {
        let half = (orig.len() as int) / 2;
        let last = orig.len() - 1;
        let first = fill_gradient_spec(orig, 0, c1, half, c2, GradientDirection::Forward);
        if last > half {
            fill_gradient_spec(first, half, c2, last, c3, GradientDirection::Forward)
        } else {
            first
        }
    }
}

/// For `x >= 0`, the wrapped complement `(m - x % m) % m` is `-x` modulo `m`.
proof fn lemma_neg_mod(x: int, m: int)
    requires
        x >= 0,
        m > 0,
    ensures
        (m - (x % m)) % m == (-x) % m,
{
    lemma_fundamental_div_mod(x, m);
    lemma_mod_bound(x, m);
    let q = x / m;
    let r = x % m;
    assert(m - r == m * (1 + q) + (-x)) by (nonlinear_arith)
        requires
            x == m * q + r,
    ;
    lemma_mod_multiples_vanish(1 + q, -x, m);
}

/// One wrapping accumulator step: adding the wrapped delta advances the
/// wrapped walk by one step of the signed delta.
proof fn lemma_acc_step(start: u8, delta: int, k: int, acc: int, du: int)
    requires
        0 <= k,
        acc == (start * 0x1000000 + k * delta) % 0x100000000,
        du == delta % 0x100000000,
    ensures
        (acc + du) % 0x100000000 == (start * 0x1000000 + (k + 1) * delta) % 0x100000000,
{
    let m: int = 0x100000000;
    let x = start * 0x1000000 + k * delta;
    lemma_add_mod_noop(x, delta, m);
    assert(start * 0x1000000 + k * delta + delta == start * 0x1000000 + (k + 1) * delta) by (nonlinear_arith);
}

/// The signed per-pixel delta of one channel, represented modulo 2^32.
///
/// `positive` selects the sign of the 8.7 distance whose magnitude is
/// `mag87`; the result is the 8.23 delta wrapped into 0..2^32.
fn channel_delta(positive: bool, mag87: u32, divisor: u64) -> (du: u32)
    requires
        mag87 <= 32640,
        divisor >= 1,
    ensures
        positive ==> du == delta823(mag87 as int, divisor as int) % 0x100000000,
        !positive ==> du == delta823(-(mag87 as int), divisor as int) % 0x100000000,
{
    proof {
        assert((mag87 as u64) * 65536 <= 32640 * 65536) by (nonlinear_arith)
            requires
                mag87 <= 32640,
        ;
        assert((mag87 as int) * 65536 / (divisor as int) <= (mag87 as int) * 65536) by (
        nonlinear_arith)
            requires
                divisor >= 1,
                mag87 >= 0,
        ;
    }
    let mag823: u64 = ((mag87 as u64) * 65536 / divisor) * 2;
    proof {
        assert(delta823(mag87 as int, divisor as int) == mag823 as int);
        assert(delta823(-(mag87 as int), divisor as int) == -(mag823 as int));
    }
    if positive {
        (mag823 % 0x100000000) as u32
    } else {
        proof {
            lemma_neg_mod(mag823 as int, 0x100000000);
        }
        ((0x100000000u64 - (mag823 % 0x100000000)) % 0x100000000) as u32
    }
}

/// Gradient fill over positions already in order.
#[verifier::rlimit(80)]
fn fill_gradient_ordered(
    leds: &mut Vec<Rgb>,
    sp: usize,
    sc: Hsv,
    ep: usize,
    ec: Hsv,
    dir: GradientDirection,
)
    requires
        old(leds)@.len() > 0,
        sp <= ep,
    ensures
        final(leds)@ == fill_gradient_ordered_spec(old(leds)@, sp as int, sc, ep as int, ec, dir),
{
    let c2 = if ec.val == 0 || ec.sat == 0 {
        Hsv { hue: sc.hue, sat: ec.sat, val: ec.val }
    } else {
        ec
    };
    let c1 = if sc.val == 0 || sc.sat == 0 {
        Hsv { hue: c2.hue, sat: sc.sat, val: sc.val }
    } else {
        sc
    };
    assert(c2 == adjusted_end(sc, ec));
    assert(c1 == adjusted_start(sc, ec));

    let hd: u8 = if c2.hue >= c1.hue {
        c2.hue - c1.hue
    } else {
        (256 - ((c1.hue as u16) - (c2.hue as u16))) as u8
    };
    proof {
        if c2.hue >= c1.hue {
            lemma_small_mod((c2.hue - c1.hue) as nat, 256);
        } else {
            lemma_mod_add_multiples_vanish(c2.hue - c1.hue, 256);
            lemma_small_mod((c2.hue - c1.hue + 256) as nat, 256);
        }
        assert(hd as int == hue_delta_spec(c1.hue, c2.hue));
    }

    let rdir = match dir {
        GradientDirection::Shortest => if hd > 127 {
            GradientDirection::Backward
        } else {
            GradientDirection::Forward
        },
        other => other,
    };
    assert(rdir == resolve_direction(dir, hd as int));

    let divisor: u64 = if ep - sp == 0 {
        1
    } else {
        (ep - sp) as u64
    };

    let hue_positive: bool = !matches!(rdir, GradientDirection::Backward);
    let hue_mag87: u32 = if hue_positive {
        (hd as u32) * 128
    } else {
        let bd: u8 = if hd == 0 {
            0
        } else {
            (256 - (hd as u16)) as u8
        };
        proof {
            if hd == 0 {
                lemma_small_mod(0nat, 256);
            } else {
                lemma_small_mod((256 - hd) as nat, 256);
            }
        }
        (bd as u32) * 128
    };
    proof {
        if hue_positive {
            assert(hue_dist87(rdir, hd as int) == hue_mag87 as int);
        } else {
            assert(hue_dist87(rdir, hd as int) == -(hue_mag87 as int));
        }
    }
    let dh_u32 = channel_delta(hue_positive, hue_mag87, divisor);
    let ghost dh: int = delta823(hue_dist87(rdir, hd as int), divisor as int);
    assert(dh_u32 as int == dh % 0x100000000);

    let sat_positive: bool = c2.sat >= c1.sat;
    let sat_mag87: u32 = if sat_positive {
        ((c2.sat - c1.sat) as u32) * 128
    } else {
        ((c1.sat - c2.sat) as u32) * 128
    };
    let ds_u32 = channel_delta(sat_positive, sat_mag87, divisor);
    let ghost ds: int = delta823((c2.sat - c1.sat) * 128, divisor as int);
    assert(ds_u32 as int == ds % 0x100000000);

    let val_positive: bool = c2.val >= c1.val;
    let val_mag87: u32 = if val_positive {
        ((c2.val - c1.val) as u32) * 128
    } else {
        ((c1.val - c2.val) as u32) * 128
    };
    let dv_u32 = channel_delta(val_positive, val_mag87, divisor);
    let ghost dv: int = delta823((c2.val - c1.val) * 128, divisor as int);
    assert(dv_u32 as int == dv % 0x100000000);

    let mut h824: u32 = (c1.hue as u32) * 0x1000000;
    let mut s824: u32 = (c1.sat as u32) * 0x1000000;
    let mut v824: u32 = (c1.val as u32) * 0x1000000;
    proof {
        lemma_small_mod((c1.hue * 0x1000000) as nat, 0x100000000);
        lemma_small_mod((c1.sat * 0x1000000) as nat, 0x100000000);
        lemma_small_mod((c1.val * 0x1000000) as nat, 0x100000000);
    }

    let len = leds.len();
    let endc: usize = if ep > len - 1 {
        len - 1
    } else {
        ep
    };

    proof {
        assert(h824 as int == (c1.hue * 0x1000000 + 0 * dh) % 0x100000000);
        assert(s824 as int == (c1.sat * 0x1000000 + 0 * ds) % 0x100000000);
        assert(v824 as int == (c1.val * 0x1000000 + 0 * dv) % 0x100000000);
    }
    if sp <= endc {
        let mut i: usize = sp;
        while i <= endc
            invariant
                sp <= i <= endc + 1,
                endc < leds@.len(),
                leds@.len() <= usize::MAX,
                leds@.len() == old(leds)@.len(),
                h824 == (c1.hue * 0x1000000 + (i - sp) * dh) % 0x100000000,
                s824 == (c1.sat * 0x1000000 + (i - sp) * ds) % 0x100000000,
                v824 == (c1.val * 0x1000000 + (i - sp) * dv) % 0x100000000,
                dh_u32 as int == dh % 0x100000000,
                ds_u32 as int == ds % 0x100000000,
                dv_u32 as int == dv % 0x100000000,
                forall|k: int|
                    sp <= k < i ==> leds@[k] == gradient_color_at(c1, dh, ds, dv, k - sp),
                forall|k: int|
                    0 <= k < leds@.len() && !(sp <= k < i) ==> leds@[k] == old(leds)@[k],
            decreases endc + 1 - i,
        {
            let c = hsv2rgb(
                Hsv {
                    hue: (h824 / 0x1000000) as u8,
                    sat: (s824 / 0x1000000) as u8,
                    val: (v824 / 0x1000000) as u8,
                },
            );
            assert(c == gradient_color_at(c1, dh, ds, dv, i - sp));
            leds.set(i, c);
            proof {
                lemma_acc_step(c1.hue, dh, i - sp, h824 as int, dh_u32 as int);
                lemma_acc_step(c1.sat, ds, i - sp, s824 as int, ds_u32 as int);
                lemma_acc_step(c1.val, dv, i - sp, v824 as int, dv_u32 as int);
            }
            h824 = (((h824 as u64) + (dh_u32 as u64)) % 0x100000000) as u32;
            s824 = (((s824 as u64) + (ds_u32 as u64)) % 0x100000000) as u32;
            v824 = (((v824 as u64) + (dv_u32 as u64)) % 0x100000000) as u32;
            i = i + 1;
        }
    }
    assert(leds@ =~= fill_gradient_ordered_spec(old(leds)@, sp as int, sc, ep as int, ec, dir));
}

/// Fill `leds[start_pos..=end_pos]` with an HSV gradient from `start_color`
/// to `end_color`, interpolating hue, saturation and value in 8.24 fixed
/// point. Out-of-order positions are swapped; positions beyond the strip are
/// clamped; a black or desaturated endpoint inherits the other endpoint's
/// hue.
pub fn fill_gradient_fp(
    leds: &mut Vec<Rgb>,
    start_pos: usize,
    start_color: Hsv,
    end_pos: usize,
    end_color: Hsv,
    direction: GradientDirection,
)
    ensures
        final(leds)@ == fill_gradient_spec(
            old(leds)@,
            start_pos as int,
            start_color,
            end_pos as int,
            end_color,
            direction,
        ),
{
    if leds.len() == 0 {
        return ;
    }
    if end_pos < start_pos {
        fill_gradient_ordered(leds, end_pos, end_color, start_pos, start_color, direction);
    } else {
        fill_gradient_ordered(leds, start_pos, start_color, end_pos, end_color, direction);
    }
}

/// Fill the strip with a three-point gradient: `c1` to `c2` over the first
/// half, `c2` to `c3` over the second.
pub fn fill_gradient_three_fp(leds: &mut Vec<Rgb>, c1: Hsv, c2: Hsv, c3: Hsv)
    ensures
        final(leds)@ == fill_gradient_three_spec(old(leds)@, c1, c2, c3),
{
    if leds.len() == 0 {
        return ;
    }
    let len = leds.len();
    let half = len / 2;
    let last = len - 1;
    fill_gradient_fp(leds, 0, c1, half, c2, GradientDirection::Forward);
    if last > half {
        fill_gradient_fp(leds, half, c2, last, c3, GradientDirection::Forward);
    }
}

} // verus!
