use vstd::arithmetic::div_mod::{lemma_fundamental_div_mod, lemma_mod_bound};
use vstd::math::min;
use vstd::prelude::*;

verus! {

/// Adapting decoded audio to the output device's format: channel conversion
/// first, then rate conversion. Sample words are the raw bit patterns of
/// 32-bit float samples, interleaved frame by frame.
///
/// Channel conversion with at least as many output as input channels only
/// copies words: output frame `f`, channel `c` takes input channel
/// `min(c, src_ch - 1)` of frame `f`. That covers passthrough (equal
/// counts), mono-to-stereo duplication, and filling extra channels with the
/// last source channel. Converting down instead averages the source
/// channels of each frame, which is float arithmetic and happens in the
/// unverified shell; this module only reports the frame count for it.
pub open spec fn spec_mixed(input: Seq<u32>, src_ch: int, dst_ch: int) -> Seq<u32> {
    Seq::new((((input.len() as int) / src_ch) * dst_ch) as nat, |i: int|
        input[(i / dst_ch) * src_ch + min(i % dst_ch, src_ch - 1)])
}

/// Every complete input frame maps to one output frame; a trailing partial
/// frame is dropped, as the frame count is the whole-frame quotient.
pub fn mix_channels(input: &Vec<u32>, src_ch: usize, dst_ch: usize) -> (r: Option<Vec<u32>>)
    requires
        1 <= src_ch,
        1 <= dst_ch,
        (input@.len() as int / (src_ch as int)) * dst_ch <= usize::MAX,
    ensures
        (r is Some) <==> src_ch <= dst_ch,
        (r matches Some(v) ==> v@ == spec_mixed(input@, src_ch as int, dst_ch as int)),
        src_ch == dst_ch && input@.len() as int % (src_ch as int) == 0 ==> (r matches Some(v)
            && v@ == input@),
{
    let frames = input.len() / src_ch;
    if dst_ch < src_ch {
        return None;
    }
    proof {
        lemma_fundamental_div_mod(input@.len() as int, src_ch as int);
        lemma_mod_bound(input@.len() as int, src_ch as int);
    }
    let total = frames * dst_ch;
    let ghost gmix = spec_mixed(input@, src_ch as int, dst_ch as int);
    let mut out: Vec<u32> = Vec::new();
    let mut i: usize = 0;
    while i < total
        invariant
            i <= total,
            total == frames * dst_ch,
            frames == input@.len() as int / src_ch as int,
            1 <= src_ch <= dst_ch,
            gmix == spec_mixed(input@, src_ch as int, dst_ch as int),
            input@.len() <= usize::MAX,
            out@.len() == i,
            forall|j: int| 0 <= j < i ==> out@[j] == gmix[j],
        decreases total - i,
    {
        let f = i / dst_ch;
        let c = i % dst_ch;
        let cc = if c < src_ch {
            c
        } else {
            src_ch - 1
        };
        proof {
            lemma_fundamental_div_mod(i as int, dst_ch as int);
            lemma_mod_bound(i as int, dst_ch as int);
            assert(f < frames) by (nonlinear_arith)
                requires
                    i < total,
                    total == frames * dst_ch,
                    f == i as int / dst_ch as int,
                    1 <= dst_ch,
                    i as int == dst_ch * (i as int / dst_ch as int) + (i as int % (dst_ch as int)),
                    0 <= (i as int % (dst_ch as int)),
                    (i as int % (dst_ch as int)) < dst_ch,
            ;
            assert(f * src_ch + src_ch <= frames * src_ch) by (nonlinear_arith)
                requires
                    f < frames,
                    1 <= src_ch,
            ;
            lemma_fundamental_div_mod(input@.len() as int, src_ch as int);
            lemma_mod_bound(input@.len() as int, src_ch as int);
            assert(frames * src_ch <= input@.len());
        }
        let idx = f * src_ch + cc;
        out.push(input[idx]);
        i += 1;
    }
    proof {
        assert(out@ =~= gmix);
        if src_ch == dst_ch && input@.len() as int % (src_ch as int) == 0 {
            lemma_fundamental_div_mod(input@.len() as int, src_ch as int);
            assert(gmix.len() == input@.len()) by (nonlinear_arith)
                requires
                    gmix.len() == (input@.len() as int / src_ch as int) * src_ch,
                    input@.len() as int == src_ch * (input@.len() as int / src_ch as int),
            ;
            assert forall|j: int| 0 <= j < gmix.len() implies gmix[j] == input@[j] by {
                lemma_fundamental_div_mod(j, src_ch as int);
                lemma_mod_bound(j, src_ch as int);
                assert((j / src_ch as int) * src_ch + min(j % (src_ch as int), src_ch as int - 1)
                    == j) by (nonlinear_arith)
                    requires
                        1 <= src_ch,
                        0 <= j,
                        j == src_ch * (j / src_ch as int) + (j % (src_ch as int)),
                        0 <= (j % (src_ch as int)),
                        (j % (src_ch as int)) < src_ch,
                ;
            }
            assert(gmix =~= input@);
        }
    }
    Some(out)
}

/// One output frame of the linear rate converter: the output sample of
/// channel `c` is `a + (b - a) * frac`, where `a` and `b` are channel `c` of
/// source frames `i0` and `i1`, and `frac = frac_num / dst_rate`. The
/// interpolation itself is float arithmetic and runs in the unverified
/// shell; the indices and the fraction's numerator are computed and checked
/// here.
#[derive(Clone, Copy, Debug, PartialEq, Eq, Structural)]
pub struct LerpStep {
    pub i0: usize,
    pub i1: usize,
    pub frac_num: u32,
}

/// Output frame count of the rate converter: `round(src_frames * dst_rate /
/// src_rate)`, rounding half up.
pub open spec fn spec_dst_frames(src_frames: int, src_rate: int, dst_rate: int) -> int {
    (2 * src_frames * dst_rate + src_rate) / (2 * src_rate)
}

/// Source position of output frame `i`: `t = i * src_rate / dst_rate`;
/// `i0 = floor(t)` and `frac_num = (i * src_rate) mod dst_rate`.
pub open spec fn spec_i0(i: int, src_rate: int, dst_rate: int) -> int {
    (i * src_rate) / dst_rate
}

pub open spec fn spec_frac_num(i: int, src_rate: int, dst_rate: int) -> int {
    (i * src_rate) % dst_rate
}

pub open spec fn lerp_step_ok(
    s: LerpStep,
    i: int,
    src_frames: int,
    src_rate: int,
    dst_rate: int,
) -> bool {
    &&& s.i0 == spec_i0(i, src_rate, dst_rate)
    &&& s.i0 < src_frames
    &&& s.i1 == min(s.i0 + 1, src_frames - 1)
    &&& s.frac_num == spec_frac_num(i, src_rate, dst_rate)
}

pub open spec fn valid_lerp_plan(
    steps: Seq<LerpStep>,
    src_frames: int,
    src_rate: int,
    dst_rate: int,
) -> bool {
    &&& steps.len() == spec_dst_frames(src_frames, src_rate, dst_rate)
    &&& forall|i: int|
        0 <= i < steps.len() ==> lerp_step_ok(
            #[trigger] steps[i],
            i,
            src_frames,
            src_rate,
            dst_rate,
        )
}

/// The full interpolation schedule for a block of `src_frames` source
/// frames. Every step's source indices are in bounds, so the shell's kernel
/// indexes safely for any sample data.
pub fn resample_plan(src_frames: usize, src_rate: u32, dst_rate: u32) -> (r: Vec<LerpStep>)
    requires
        1 <= src_rate,
        1 <= dst_rate,
        2 * src_frames * dst_rate + src_rate <= u64::MAX,
        spec_dst_frames(src_frames as int, src_rate as int, dst_rate as int) <= usize::MAX,
    ensures
        valid_lerp_plan(r@, src_frames as int, src_rate as int, dst_rate as int),
{
    let ghost gf = src_frames as int;
    let ghost gs = src_rate as int;
    let ghost gd = dst_rate as int;
    if src_frames == 0 {
        proof {
            lemma_fundamental_div_mod(gs, 2 * gs);
            lemma_mod_bound(gs, 2 * gs);
            assert(spec_dst_frames(0, gs, gd) == 0) by (nonlinear_arith)
                requires
                    1 <= gs,
                    gs == 2 * gs * (gs / (2 * gs)) + gs % (2 * gs),
                    0 <= gs % (2 * gs) < 2 * gs,
                    spec_dst_frames(0, gs, gd) == (2 * 0 * gd + gs) / (2 * gs),
            ;
        }
        return Vec::new();
    }
    proof {
        assert(2 * gf * gd + gs <= u64::MAX);
        assert(2 * gf <= 2 * gf * gd && 0 <= 2 * gf * gd) by (nonlinear_arith)
            requires
                1 <= gd,
                0 <= gf,
        ;
    }
    let numer = 2 * (src_frames as u64) * (dst_rate as u64) + (src_rate as u64);
    let dst_total_w = numer / (2 * (src_rate as u64));
    proof {
        lemma_fundamental_div_mod(numer as int, 2 * gs);
        lemma_mod_bound(numer as int, 2 * gs);
    }
    let dst_total = dst_total_w as usize;
    let mut out: Vec<LerpStep> = Vec::new();
    let mut i: usize = 0;
    while i < dst_total
        invariant
            i <= dst_total,
            1 <= gf,
            1 <= gs,
            1 <= gd,
            gf == src_frames as int,
            gs == src_rate as int,
            gd == dst_rate as int,
            src_frames <= usize::MAX,
            dst_total == spec_dst_frames(gf, gs, gd),
            2 * gf * gd + gs <= u64::MAX,
            out@.len() == i,
            forall|j: int| 0 <= j < i ==> lerp_step_ok(#[trigger] out@[j], j, gf, gs, gd),
        decreases dst_total - i,
    {
        proof {
            // i * src_rate stays below src_frames * dst_rate, so the source
            // index floor(i * src_rate / dst_rate) stays below src_frames.
            lemma_fundamental_div_mod(2 * gf * gd + gs, 2 * gs);
            lemma_mod_bound(2 * gf * gd + gs, 2 * gs);
            assert(i as int * gs <= gf * gd - 1) by (nonlinear_arith)
                requires
                    i < spec_dst_frames(gf, gs, gd),
                    1 <= gs,
                    1 <= gd,
                    1 <= gf,
                    0 <= i,
                    2 * gf * gd + gs == 2 * gs * spec_dst_frames(gf, gs, gd) + (2 * gf * gd
                        + gs) % (2 * gs),
                    0 <= (2 * gf * gd + gs) % (2 * gs) < 2 * gs,
            ;
            assert(0 <= i as int * gs) by (nonlinear_arith)
                requires
                    0 <= i,
                    1 <= gs,
            ;
            assert(gf * gd - 1 <= u64::MAX) by (nonlinear_arith)
                requires
                    2 * gf * gd + gs <= u64::MAX,
                    0 <= gs,
                    1 <= gf,
                    1 <= gd,
            ;
        }
        let pos = (i as u64) * (src_rate as u64);
        let i0w = pos / (dst_rate as u64);
        let rem = pos % (dst_rate as u64);
        proof {
            lemma_fundamental_div_mod(pos as int, gd);
            lemma_mod_bound(pos as int, gd);
            lemma_fundamental_div_mod(gf * gd - 1, gd);
            lemma_mod_bound(gf * gd - 1, gd);
            assert((gf * gd - 1) / gd == gf - 1) by (nonlinear_arith)
                requires
                    1 <= gd,
                    gf * gd - 1 == gd * ((gf * gd - 1) / gd) + (gf * gd - 1) % gd,
                    0 <= (gf * gd - 1) % gd < gd,
                    1 <= gf,
            ;
            assert(i0w as int <= (gf * gd - 1) / gd) by (nonlinear_arith)
                requires
                    1 <= gd,
                    i0w as int == pos as int / gd,
                    pos as int <= gf * gd - 1,
                    pos as int == gd * (pos as int / gd) + pos as int % gd,
                    gf * gd - 1 == gd * ((gf * gd - 1) / gd) + (gf * gd - 1) % gd,
                    0 <= pos as int % gd < gd,
                    0 <= (gf * gd - 1) % gd < gd,
            ;
        }
        let i0 = i0w as usize;
        let i1 = if i0 + 1 < src_frames {
            i0 + 1
        } else {
            src_frames - 1
        };
        out.push(LerpStep { i0, i1, frac_num: rem as u32 });
        i += 1;
    }
    out
}

/// Per-track conversion settings, captured when the decoder opens a track:
/// the source and destination channel counts. Rates are passed per block,
/// as the original stream may switch formats between packets.
#[derive(Clone, Copy, Debug, PartialEq, Eq, Structural)]
pub struct ResamplePlan {
    pub src_ch: u16,
    pub dst_ch: u16,
}

/// The channel stage of a planned conversion: either the converted words
/// themselves (pure copying), or the frame count for the shell's averaging
/// kernel when converting down.
pub enum MixStage {
    Copied(Vec<u32>),
    NeedsDownmix { frames: usize },
}

/// The rate stage: pass the block through unchanged, or run the shell's
/// interpolation kernel over the given schedule.
pub enum RateStage {
    Identity,
    Lerp(Vec<LerpStep>),
}

/// A fully planned conversion of one decoded block.
pub struct DspPlan {
    pub mix: MixStage,
    pub rate: RateStage,
}

impl ResamplePlan {
    pub fn new(_src_sr: u32, src_ch: u16, _dst_sr: u32, dst_ch: u16) -> (r: Self)
        ensures
            r.src_ch == src_ch,
            r.dst_ch == dst_ch,
    {
        ResamplePlan { src_ch, dst_ch }
    }

    /// Plan the conversion of one decoded block from `(src_sr, src_ch)` to
    /// `(dst_sr, dst_ch)`: channel conversion first, then rate conversion.
    /// A block with no complete frame yields an empty pass-through plan.
    ///
    /// When source and destination formats agree, the plan is exactly the
    /// identity: the words are copied unchanged and the rate stage is a
    /// pass-through.
    pub fn resample_and_mix(
        &self,
        input: &Vec<u32>,
        src_sr: u32,
        src_ch: usize,
        dst_sr: u32,
        dst_ch: u16,
    ) -> (r: DspPlan)
        requires
            1 <= src_ch,
            1 <= dst_ch,
            1 <= src_sr,
            1 <= dst_sr,
            (input@.len() as int / (src_ch as int)) * dst_ch <= usize::MAX,
            2 * (input@.len() as int / (src_ch as int)) * dst_sr + src_sr <= u64::MAX,
            spec_dst_frames(input@.len() as int / (src_ch as int), src_sr as int, dst_sr as int)
                <= usize::MAX,
        ensures
            ({
                let frames = input@.len() as int / (src_ch as int);
                &&& (frames == 0 ==> (r.mix matches MixStage::Copied(v) && v@ == Seq::<
                    u32,
                >::empty() && r.rate is Identity))
                &&& (frames > 0 ==> {
                    &&& (src_ch == dst_ch as int ==> (r.mix matches MixStage::Copied(v) && v@
                        == input@))
                    &&& (src_ch < dst_ch as int ==> (r.mix matches MixStage::Copied(v) && v@
                        == spec_mixed(input@, src_ch as int, dst_ch as int)))
                    &&& (src_ch > dst_ch as int ==> (r.mix matches MixStage::NeedsDownmix {
                        frames: fr,
                    } && fr == frames))
                    &&& (src_sr == dst_sr ==> r.rate is Identity)
                    &&& (src_sr != dst_sr ==> (r.rate matches RateStage::Lerp(steps)
                        && valid_lerp_plan(steps@, frames, src_sr as int, dst_sr as int)))
                })
            }),
    {
        let frames = input.len() / src_ch;
        if frames == 0 {
            return DspPlan { mix: MixStage::Copied(Vec::new()), rate: RateStage::Identity };
        }
        let mix = if dst_ch as usize == src_ch {
            MixStage::Copied(vstd::slice::slice_to_vec(input.as_slice()))
        } else {
            match mix_channels(input, src_ch, dst_ch as usize) {
                Some(v) => MixStage::Copied(v),
                None => MixStage::NeedsDownmix { frames },
            }
        };
        let rate = if src_sr == dst_sr {
            RateStage::Identity
        } else {
            RateStage::Lerp(resample_plan(frames, src_sr, dst_sr))
        };
        DspPlan { mix, rate }
    }
}

} // verus!
