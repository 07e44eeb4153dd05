use crate::ring::{ring_capacity, ring_contents, SampleRing};
use crate::state::PlaybackState;
use vstd::math::min;
use vstd::prelude::*;

verus! {

/// A block of all-zero sample words: the bit pattern of float `0.0` is the
/// zero word, so zero words render as silence.
pub open spec fn zero_words(n: int) -> Seq<u32> {
    Seq::new(if n >= 0 {
        n as nat
    } else {
        0
    }, |i: int| 0u32)
}

/// One callback invocation's outcome: the samples written to the device
/// block, and how many of them came from the ring.
pub struct RenderedBlock {
    pub samples: Vec<u32>,
    pub got: usize,
}

/// The frames-played counter after a run of playing callbacks, each having
/// drained the given sample counts: every block adds its drained count in
/// whole frames.
pub open spec fn spec_frames_after(frames: int, gots: Seq<int>, channels: int) -> int
    decreases gots.len(),
{
    if gots.len() == 0 {
        frames
    } else {
        spec_frames_after(frames + gots[0] / channels, gots.skip(1), channels)
    }
}

/// Played time only moves forward: across any run of playing callbacks the
/// frames-played counter never decreases — `render_block` adds
/// `got / channels` each time, pausing freezes the counter, and only a stop
/// or a fresh load zeroes it.
pub proof fn lemma_frames_played_monotone(frames: int, gots: Seq<int>, channels: int)
    requires
        1 <= channels,
        forall|i: int| 0 <= i < gots.len() ==> 0 <= #[trigger] gots[i],
    ensures
        frames <= spec_frames_after(frames, gots, channels),
    decreases gots.len(),
{
    if gots.len() > 0 {
        assert(0 <= gots[0] / channels) by (nonlinear_arith)
            requires
                0 <= gots[0],
                1 <= channels,
        ;
        let rest = gots.skip(1);
        assert(forall|i: int| 0 <= i < rest.len() ==> rest[i] == gots[i + 1]);
        lemma_frames_played_monotone(frames + gots[0] / channels, rest, channels);
    }
}

/// Counter accounting for one playing callback block: the queued-samples
/// counter loses the drained count, saturating at zero — it is advisory and
/// may lag the ring — and the frames-played counter advances by the drained
/// whole frames. Allocation-free, so the real-time callback, which owns
/// only the split consumer half of the ring, can call it directly.
pub fn account_drained(got: usize, channels: usize, queued_samples: u64, frames_played: u64) -> (r:
    (u64, u64))
    requires
        1 <= channels,
        frames_played + got <= u64::MAX,
    ensures
        r.0 == if queued_samples >= got as u64 {
            queued_samples - got as u64
        } else {
            0int
        },
        r.1 == frames_played + got as int / channels as int,
        r.1 >= frames_played,
{
    let queued = if queued_samples >= got as u64 {
        queued_samples - got as u64
    } else {
        0
    };
    let frames = frames_played + (got / channels) as u64;
    (queued, frames)
}

/// One invocation of the output callback, which must not allocate from the
/// ring's point of view, block, or lock: read the state, drain up to a block
/// from the ring, zero-fill the shortfall, and account the played frames and
/// the queued-samples counter. The block is always filled completely:
/// `got` samples from the ring plus `block_len - got` zeros.
///
/// Volume scaling and peak/RMS metering act on the float view of the same
/// words and run in the unverified shell; they touch only the block already
/// rendered here, never the ring or the counters.
pub fn render_block(
    ring: &mut SampleRing,
    state: PlaybackState,
    block_len: usize,
    channels: usize,
    frames_played: &mut u64,
    queued_samples: &mut u64,
) -> (r: RenderedBlock)
    requires
        1 <= channels,
        *old(frames_played) + block_len <= u64::MAX,
    ensures
        r.samples@.len() == block_len,
        r.got <= block_len,
        r.samples@ == ring_contents(old(ring)).take(r.got as int) + zero_words(
            block_len - r.got,
        ),
        state != PlaybackState::Playing ==> {
            &&& r.got == 0
            &&& *final(ring) == *old(ring)
            &&& *final(frames_played) == *old(frames_played)
            &&& *final(queued_samples) == *old(queued_samples)
        },
        state == PlaybackState::Playing ==> {
            &&& r.got == min(block_len as int, ring_contents(old(ring)).len() as int)
            &&& ring_contents(final(ring)) == ring_contents(old(ring)).skip(r.got as int)
            &&& ring_capacity(final(ring)) == ring_capacity(old(ring))
            &&& *final(queued_samples) == if *old(queued_samples) >= r.got as u64 {
                *old(queued_samples) - r.got as u64
            } else {
                0int
            }
            &&& *final(frames_played) == *old(frames_played) + r.got as int / channels as int
        },
        *final(frames_played) >= *old(frames_played),
{
    if !matches!(state, PlaybackState::Playing) {
        let mut out: Vec<u32> = Vec::new();
        let mut i: usize = 0;
        while i < block_len
            invariant
                i <= block_len,
                out@.len() == i,
                forall|j: int| 0 <= j < i ==> out@[j] == 0u32,
            decreases block_len - i,
        {
            out.push(0);
            i += 1;
        }
        proof {
            assert(out@ =~= ring_contents(ring).take(0) + zero_words(block_len as int));
        }
        return RenderedBlock { samples: out, got: 0 };
    }
    let mut out = ring.pop_up_to(block_len);
    let got = out.len();
    while out.len() < block_len
        invariant
            got <= out@.len() <= block_len,
            out@.take(got as int) == ring_contents(old(ring)).take(got as int),
            forall|j: int| got <= j < out@.len() ==> out@[j] == 0u32,
            got == min(block_len as int, ring_contents(old(ring)).len() as int),
            ring_contents(final(ring)) == ring_contents(old(ring)).skip(got as int),
            ring_capacity(final(ring)) == ring_capacity(old(ring)),
        decreases block_len - out.len(),
    {
        out.push(0);
    }
    proof {
        assert(out@ =~= ring_contents(old(ring)).take(got as int) + zero_words(
            block_len - got,
        ));
    }
    let (queued, frames) = account_drained(got, channels, *queued_samples, *frames_played);
    *queued_samples = queued;
    *frames_played = frames;
    RenderedBlock { samples: out, got }
}

} // verus!
