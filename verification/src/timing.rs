use vstd::arithmetic::div_mod::{lemma_fundamental_div_mod, lemma_mod_bound};
use vstd::prelude::*;

verus! {

/// Played time is tracked in whole frames at the output sample rate; the
/// host-facing shell exchanges times with the engine in integer
/// milliseconds. These conversions define the bookkeeping exactly.
///
/// The frame count seeded for a seek target of `ms` milliseconds at `rate`
/// frames per second: `round(ms * rate / 1000)`, rounding half up.
pub open spec fn spec_frames_for_millis(ms: u64, rate: u32) -> int {
    (ms * rate + 500) / 1000
}

/// Frames-played converted back to milliseconds: `floor(frames * 1000 / rate)`.
pub open spec fn spec_millis_for_frames(frames: u64, rate: u32) -> int {
    (frames * 1000) / (rate as int)
}

/// The frame counter value seeded on a seek, so the first position reading
/// after the seek already shows the target time.
pub fn frames_for_millis(ms: u64, rate: u32) -> (r: u64)
    requires
        1 <= rate,
        ms * rate + 500 <= u64::MAX,
    ensures
        r == spec_frames_for_millis(ms, rate),
{
    (ms * (rate as u64) + 500) / 1000
}

/// Position shown to the host, in milliseconds, from the frames-played
/// counter.
pub fn millis_for_frames(frames: u64, rate: u32) -> (r: u64)
    requires
        1 <= rate,
        frames * 1000 <= u64::MAX,
    ensures
        r == spec_millis_for_frames(frames, rate),
{
    (frames * 1000) / (rate as u64)
}

/// The seeded frame counter lands within half an output frame of the seek
/// target: `|frames * 1000 - ms * rate| <= 500`, so the position reading
/// `frames / rate` is within `1 / rate` seconds of `ms / 1000`.
pub proof fn lemma_seek_seed_accuracy(ms: u64, rate: u32)
    requires
        1 <= rate,
        ms * rate + 500 <= u64::MAX,
    ensures
        spec_frames_for_millis(ms, rate) * 1000 <= ms * rate + 500,
        ms * rate <= spec_frames_for_millis(ms, rate) * 1000 + 500,
{
    let p = ms * rate + 500;
    lemma_fundamental_div_mod(p as int, 1000);
    lemma_mod_bound(p as int, 1000);
}

/// Frames a source of `n_frames` timestamp ticks covers at the output rate,
/// when one tick lasts `numer / denom` seconds: `round(n_frames * numer *
/// rate / denom)`, saturating at the counter's width.
pub open spec fn spec_duration_frames(n_frames: u64, numer: u32, denom: u32, rate: u32) -> int {
    let q = (n_frames * numer * rate + denom / 2) / (denom as int);
    if q > u64::MAX {
        u64::MAX as int
    } else {
        q
    }
}

/// Duration of a track, as output frames, from the source's tick count and
/// time base. Fills the duration counter once the asynchronous scan of a
/// newly loaded file finishes.
pub fn duration_frames_from_timebase(n_frames: u64, numer: u32, denom: u32, rate: u32) -> (r:
    u64)
    requires
        1 <= denom,
    ensures
        r == spec_duration_frames(n_frames, numer, denom, rate),
{
    proof {
        let a = n_frames as int;
        let b = numer as int;
        let c = rate as int;
        assert(a * b <= 79228162495817593515539431425int) by (nonlinear_arith)
            requires
                0 <= a <= 0xFFFF_FFFF_FFFF_FFFFint,
                0 <= b <= 0xFFFF_FFFFint,
        ;
        assert((a * b) * c <= 79228162495817593515539431425int * 0xFFFF_FFFFint)
            by (nonlinear_arith)
            requires
                0 <= a * b <= 79228162495817593515539431425int,
                0 <= c <= 0xFFFF_FFFFint,
        ;
    }
    let ticks = (n_frames as u128) * (numer as u128) * (rate as u128) + (denom as u128) / 2;
    let q = ticks / (denom as u128);
    proof {
        assert(q <= ticks) by (nonlinear_arith)
            requires
                1 <= denom as u128,
                q == ticks / (denom as u128),
                ticks <= u128::MAX,
        ;
    }
    if q > u64::MAX as u128 {
        u64::MAX
    } else {
        q as u64
    }
}

/// One step of the duration scan's fallback, which folds the packet
/// timestamps of a track to their maximum when the source declares no frame
/// count.
pub fn max_timestamp(acc: u64, ts: u64) -> (r: u64)
    ensures
        r == if ts > acc {
            ts
        } else {
            acc
        },
        r >= acc,
        r >= ts,
{
    if ts > acc {
        ts
    } else {
        acc
    }
}

/// What a seek request's raw 64-bit IEEE 754 float pattern calls for. A
/// pattern with all exponent bits set encodes a NaN or an infinity and is
/// rejected; one with the sign bit set encodes a non-positive value and
/// clamps to zero; anything else is a finite non-negative time.
#[derive(Clone, Copy, Debug, PartialEq, Eq, Structural)]
pub enum SeekCheck {
    Reject,
    Zero,
    Value,
}

pub open spec fn spec_classify_seek_bits(bits: u64) -> SeekCheck {
    if (bits >> 52) & 0x7FF == 0x7FF {
        SeekCheck::Reject
    } else if bits >= 0x8000_0000_0000_0000 {
        SeekCheck::Zero
    } else {
        SeekCheck::Value
    }
}

/// Validate a seek request before any teardown happens: NaN and infinite
/// targets are errors, negative targets clamp to zero, and only finite
/// non-negative targets are converted to milliseconds by the caller.
pub fn classify_seek_bits(bits: u64) -> (r: SeekCheck)
    ensures
        r == spec_classify_seek_bits(bits),
{
    if (bits >> 52) & 0x7FF == 0x7FF {
        SeekCheck::Reject
    } else if bits >= 0x8000_0000_0000_0000 {
        SeekCheck::Zero
    } else {
        SeekCheck::Value
    }
}

} // verus!
