//! Tick decimation: choosing the frame stride for ruler ticks.
//!
//! At wide frame ranges a tick per frame is useless; the engine doubles a
//! decimation period (`mod_frame_count`, starting at 10 frames) and the
//! matching stride (`frame_step`, starting at 1) until one full period
//! renders at least [`MIN_PERIOD_PIXELS`] pixels wide.

use vstd::prelude::*;

verus! {

/// A full decimation period must span at least this many pixels.
pub const MIN_PERIOD_PIXELS: u64 = 150;

/// `2^k`, used to state that the decimation only ever doubles.
pub open spec fn pow2_of(k: nat) -> nat
    decreases k,
{
    if k == 0 {
        1
    } else {
        2 * pow2_of((k - 1) as nat)
    }
}

/// The number of doublings still owed: how far `m * frame_pixel_width`
/// sits below the pixel floor.
pub open spec fn period_deficit(m: nat, frame_pixel_width: nat) -> int {
    if m * frame_pixel_width < MIN_PERIOD_PIXELS {
        MIN_PERIOD_PIXELS - m * frame_pixel_width
    } else {
        0
    }
}

/// The decimation period reached from period `m` by doubling until
/// `m * frame_pixel_width` reaches the pixel floor.
pub open spec fn grow_period(m: nat, frame_pixel_width: nat) -> nat
    decreases period_deficit(m, frame_pixel_width)
        when 1 <= m && 1 <= frame_pixel_width
        via grow_period_decreases
{
    if m * frame_pixel_width < MIN_PERIOD_PIXELS {
        grow_period(2 * m, frame_pixel_width)
    } else {
        m
    }
}

#[via_fn]
proof fn grow_period_decreases(m: nat, frame_pixel_width: nat) {
    if m * frame_pixel_width < MIN_PERIOD_PIXELS {
        lemma_deficit_shrinks(m, frame_pixel_width);
    }
}

/// Doubling the period strictly shrinks the deficit.
proof fn lemma_deficit_shrinks(m: nat, frame_pixel_width: nat)
    requires
        1 <= m,
        1 <= frame_pixel_width,
        m * frame_pixel_width < MIN_PERIOD_PIXELS,
    ensures
        0 <= period_deficit(2 * m, frame_pixel_width) < period_deficit(m, frame_pixel_width),
{
    assert((m as int) * (frame_pixel_width as int)
        < (2 * (m as int)) * (frame_pixel_width as int)
        && (m as int) * (frame_pixel_width as int) >= 1) by (nonlinear_arith)
        requires
            m as int >= 1,
            frame_pixel_width as int >= 1,
    ;
}

/// The period the engine uses: grown from the initial 10 frames.
pub open spec fn decimated_mod(frame_pixel_width: nat) -> nat {
    grow_period(10, frame_pixel_width)
}

/// The stride between candidate ticks; the period always spans 10 strides.
pub open spec fn decimated_step(frame_pixel_width: nat) -> nat {
    decimated_mod(frame_pixel_width) / 10
}

/// The half period, which marks medium-weight ticks.
pub open spec fn decimated_half_mod(frame_pixel_width: nat) -> nat {
    decimated_mod(frame_pixel_width) / 2
}

/// The decimation parameters for one layout pass.
#[derive(Debug, Clone, Copy, PartialEq, Eq)]
pub struct Decimation {
    pub mod_frame_count: u32,
    pub frame_step: u32,
    pub half_mod_frame_count: u32,
}

/// Doubling keeps the period a power-of-two multiple of its seed, and
/// stops exactly when the period spans the pixel floor.
proof fn lemma_grow_period(m: nat, frame_pixel_width: nat)
    requires
        1 <= m,
        1 <= frame_pixel_width,
    ensures
        grow_period(m, frame_pixel_width) >= m,
        grow_period(m, frame_pixel_width) * frame_pixel_width >= MIN_PERIOD_PIXELS,
        exists|k: nat| grow_period(m, frame_pixel_width) == m * pow2_of(k),
    decreases period_deficit(m, frame_pixel_width),
{
    if m * frame_pixel_width < MIN_PERIOD_PIXELS {
        lemma_deficit_shrinks(m, frame_pixel_width);
        lemma_grow_period(2 * m, frame_pixel_width);
        let k0 = choose|k: nat| grow_period(2 * m, frame_pixel_width) == (2 * m) * pow2_of(k);
        assert((2 * m) * pow2_of(k0) == m * (2 * pow2_of(k0))) by (nonlinear_arith);
        assert(pow2_of(k0 + 1) == 2 * pow2_of(k0));
        assert(grow_period(m, frame_pixel_width) == m * pow2_of(k0 + 1));
    } else {
        assert(pow2_of(0) == 1);
        assert(grow_period(m, frame_pixel_width) == m * pow2_of(0));
    }
}

/// The chosen period is a power-of-two multiple of 10, spans 10 strides,
/// and renders at least the pixel floor wide; the stride is itself a
/// power of two.
pub proof fn lemma_decimation_properties(frame_pixel_width: nat)
    requires
        1 <= frame_pixel_width,
    ensures
        decimated_mod(frame_pixel_width) == 10 * decimated_step(frame_pixel_width),
        decimated_mod(frame_pixel_width) * frame_pixel_width >= MIN_PERIOD_PIXELS,
        exists|k: nat| decimated_mod(frame_pixel_width) == 10 * pow2_of(k),
        exists|k: nat| decimated_step(frame_pixel_width) == pow2_of(k),
        1 <= decimated_step(frame_pixel_width),
        10 <= decimated_mod(frame_pixel_width),
        5 <= decimated_half_mod(frame_pixel_width),
{
    lemma_grow_period(10, frame_pixel_width);
    let k0 = choose|k: nat| grow_period(10, frame_pixel_width) == 10 * pow2_of(k);
    assert(decimated_mod(frame_pixel_width) == 10 * pow2_of(k0));
    assert((10 * pow2_of(k0)) / 10 == pow2_of(k0)) by (nonlinear_arith);
    assert(decimated_step(frame_pixel_width) == pow2_of(k0));
    lemma_pow2_of_pos(k0);
}

/// `2^k` is positive.
proof fn lemma_pow2_of_pos(k: nat)
    ensures
        pow2_of(k) >= 1,
    decreases k,
{
    if k > 0 {
        lemma_pow2_of_pos((k - 1) as nat);
    }
}

/// Compute the decimation parameters for the given frame pixel width.
///
/// Doubles the period and stride until a full period would render at
/// least [`MIN_PERIOD_PIXELS`] wide; the loop is bounded because the
/// pixel width is positive.
pub fn decimate(frame_pixel_width: u32) -> (d: Decimation)
    requires
        1 <= frame_pixel_width,
    ensures
        d.mod_frame_count == decimated_mod(frame_pixel_width as nat),
        d.frame_step == decimated_step(frame_pixel_width as nat),
        d.half_mod_frame_count == decimated_half_mod(frame_pixel_width as nat),
{
    let mut mod_frame_count: u32 = 10;
    let mut frame_step: u32 = 1;
    let mut period_px: u64 = (frame_pixel_width as u64) * 10;
    while period_px < MIN_PERIOD_PIXELS
        invariant
            1 <= frame_pixel_width,
            10 <= mod_frame_count,
            mod_frame_count == 10 * frame_step,
            mod_frame_count <= 0x1000u32,
            period_px == (mod_frame_count as int) * (frame_pixel_width as int),
            10 <= period_px,
            grow_period(mod_frame_count as nat, frame_pixel_width as nat)
                == decimated_mod(frame_pixel_width as nat),
        decreases (if period_px < MIN_PERIOD_PIXELS {
            (MIN_PERIOD_PIXELS - period_px) as int
        } else {
            0int
        }),
    {
        proof {
            assert((2 * (mod_frame_count as int)) * (frame_pixel_width as int)
                == 2 * ((mod_frame_count as int) * (frame_pixel_width as int))
                && mod_frame_count as int
                    <= (mod_frame_count as int) * (frame_pixel_width as int)) by (nonlinear_arith)
                requires
                    frame_pixel_width as int >= 1,
                    mod_frame_count as int >= 10,
            ;
        }
        mod_frame_count = mod_frame_count * 2;
        frame_step = frame_step * 2;
        period_px = period_px * 2;
    }
    let half_mod_frame_count = mod_frame_count / 2;
    proof {
        lemma_decimation_properties(frame_pixel_width as nat);
        assert((10 * (frame_step as nat)) / 10 == frame_step as nat) by (nonlinear_arith);
    }
    Decimation { mod_frame_count, frame_step, half_mod_frame_count }
}

} // verus!
