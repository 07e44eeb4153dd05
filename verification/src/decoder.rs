use crate::ring::{ring_capacity, ring_contents, SampleRing};
use vstd::math::min;
use vstd::prelude::*;

verus! {

/// Message to the decode worker from the controller. `Stop` ends the worker;
/// `SwitchTo` names the track to chain into at the current track's end.
#[derive(Debug, Clone)]
pub enum DecoderControl {
    Stop,
    SwitchTo(String),
}

/// Message from the decode worker to the controller: the stream ended and no
/// follow-up track was queued.
#[derive(Debug, Clone, PartialEq, Eq, Structural)]
pub enum EngineEvent {
    EndOfStream,
}

/// What the decode worker does when the current track's packets run out.
#[derive(Debug, Clone, Copy, PartialEq, Eq, Structural)]
pub enum TrackEnd {
    /// Chain into the remembered next track: no end-of-stream event, no
    /// silence in between.
    NextTrack,
    /// Nothing queued: emit `EngineEvent::EndOfStream` and return.
    EmitEndOfStream,
}

/// Outcome of asking the source for the next packet.
#[derive(Debug, Clone, Copy, PartialEq, Eq, Structural)]
pub enum FetchOutcome {
    /// A packet arrived; `same_track` says whether it belongs to the selected
    /// track.
    Packet { same_track: bool },
    /// The source asks for a decoder reset before it can continue.
    ResetRequired,
    /// The source is exhausted or failed; treated as the track's natural end.
    EndOrError,
}

/// The step the worker takes for a fetch outcome.
#[derive(Debug, Clone, Copy, PartialEq, Eq, Structural)]
pub enum FetchStep {
    DecodePacket,
    SkipPacket,
    ResetDecoder,
    FinishTrack,
}

/// Outcome of decoding one packet.
#[derive(Debug, Clone, Copy, PartialEq, Eq, Structural)]
pub enum DecodeOutcome {
    Decoded,
    /// A malformed packet; recoverable.
    RecoverableError,
    ResetRequired,
    FatalError,
}

/// The step the worker takes for a decode outcome.
#[derive(Debug, Clone, Copy, PartialEq, Eq, Structural)]
pub enum DecodeStep {
    PushSamples,
    SkipPacket,
    ResetDecoder,
    EmitEosAndStop,
}

/// The decode worker's own state between steps: the track being decoded, the
/// track to chain into at its end, and a pending seek to apply when the
/// track is opened. The worker's loop — open, fetch, decode, convert, push —
/// runs in the unverified shell because it reads files and sleeps; every
/// decision it takes is a function here.
pub struct DecoderSession {
    pub current_file: String,
    pub next_file: Option<String>,
    pub initial_seek_ms: Option<u64>,
}

/// The session after one control message: a switch request replaces the
/// remembered next track; a stop leaves the session as it is (the worker
/// returns instead).
pub open spec fn spec_on_control(s: DecoderSession, msg: DecoderControl) -> DecoderSession {
    match msg {
        DecoderControl::Stop => s,
        DecoderControl::SwitchTo(p) => DecoderSession { next_file: Some(p), ..s },
    }
}

/// The session after a whole run of control messages, oldest first.
pub open spec fn spec_apply_controls(s: DecoderSession, msgs: Seq<DecoderControl>) -> DecoderSession
    decreases msgs.len(),
{
    if msgs.len() == 0 {
        s
    } else {
        spec_apply_controls(spec_on_control(s, msgs[0]), msgs.skip(1))
    }
}

/// What the track's end decides for a session state.
pub open spec fn spec_track_end_action(s: DecoderSession) -> TrackEnd {
    if s.next_file is Some {
        TrackEnd::NextTrack
    } else {
        TrackEnd::EmitEndOfStream
    }
}

/// Gapless hand-off law: however many control messages arrive before the
/// current track ends, if the last switch request named `p` — and so arrived
/// before the end — the end decision is to chain into `p`: no end-of-stream
/// event is emitted between the two tracks.
pub proof fn lemma_gapless_switch(s: DecoderSession, msgs: Seq<DecoderControl>, p: String)
    requires
        msgs.len() > 0,
        msgs.last() == DecoderControl::SwitchTo(p),
        forall|i: int|
            0 <= i < msgs.len() - 1 ==> !(#[trigger] msgs[i] matches DecoderControl::SwitchTo(q)
                && q != p),
    ensures
        spec_apply_controls(s, msgs).next_file == Some(p),
        spec_track_end_action(spec_apply_controls(s, msgs)) == TrackEnd::NextTrack,
    decreases msgs.len(),
{
    if msgs.len() == 1 {
        assert(msgs[0] == msgs.last());
        assert(msgs.skip(1) =~= Seq::<DecoderControl>::empty());
        assert(spec_apply_controls(s, msgs) == spec_apply_controls(
            spec_on_control(s, msgs[0]),
            msgs.skip(1),
        ));
        assert(spec_apply_controls(spec_on_control(s, msgs[0]), msgs.skip(1)) == spec_on_control(
            s,
            msgs[0],
        ));
        assert(spec_on_control(s, msgs[0]).next_file == Some(p));
    } else {
        let rest = msgs.skip(1);
        assert(rest.last() == msgs.last());
        assert(forall|i: int| 0 <= i < rest.len() ==> rest[i] == msgs[i + 1]);
        lemma_gapless_switch(spec_on_control(s, msgs[0]), rest, p);
    }
}

impl DecoderSession {
    pub fn new(path: String, initial_seek_ms: Option<u64>) -> (r: DecoderSession)
        ensures
            r.current_file == path,
            r.next_file is None,
            r.initial_seek_ms == initial_seek_ms,
    {
        DecoderSession { current_file: path, next_file: None, initial_seek_ms }
    }

    /// Apply one control message, drained without blocking between packets
    /// and while the ring is full. `Stop` ends the worker at once; a switch
    /// request is remembered and never acted on mid-packet.
    pub fn on_control(&mut self, msg: DecoderControl) -> (stop: bool)
        ensures
            *final(self) == spec_on_control(*old(self), msg),
            (msg is Stop ==> stop && *final(self) == *old(self)),
            (msg matches DecoderControl::SwitchTo(p) ==> !stop
                && final(self).next_file == Some(p)
                && final(self).current_file == old(self).current_file
                && final(self).initial_seek_ms == old(self).initial_seek_ms),
    {
        match msg {
            DecoderControl::Stop => true,
            DecoderControl::SwitchTo(p) => {
                self.next_file = Some(p);
                false
            },
        }
    }

    /// The pending seek, applied right after the track opens and cleared so
    /// a chained track starts from its beginning.
    pub fn take_initial_seek(&mut self) -> (r: Option<u64>)
        ensures
            r == old(self).initial_seek_ms,
            final(self).initial_seek_ms is None,
            final(self).current_file == old(self).current_file,
            final(self).next_file == old(self).next_file,
    {
        let r = self.initial_seek_ms;
        self.initial_seek_ms = None;
        r
    }

    /// Decide the track's end: a remembered switch request is adopted as the
    /// current track — gapless, with no end-of-stream event and no pending
    /// seek — and only an end with nothing queued emits end-of-stream.
    pub fn on_track_end(&mut self) -> (r: TrackEnd)
        ensures
            r == spec_track_end_action(*old(self)),
            (old(self).next_file matches Some(p) ==> r is NextTrack && final(self).current_file
                == p && final(self).next_file is None && final(self).initial_seek_ms is None),
            (old(self).next_file is None ==> r is EmitEndOfStream && *final(self) == *old(self)),
    {
        match self.next_file.take() {
            Some(p) => {
                self.current_file = p;
                self.initial_seek_ms = None;
                TrackEnd::NextTrack
            },
            None => TrackEnd::EmitEndOfStream,
        }
    }
}

/// Decide whether opening and probing the source succeeded. A file that
/// cannot be opened, probed, or given a decoder ends the stream: the event
/// tells the controller the track is over, and nothing crashes.
pub fn on_open_result(ok: bool) -> (r: Option<EngineEvent>)
    ensures
        ok ==> r is None,
        !ok ==> r == Some(EngineEvent::EndOfStream),
{
    if ok {
        None
    } else {
        Some(EngineEvent::EndOfStream)
    }
}

/// The worker's step for a fetch outcome: decode packets of the selected
/// track, skip others, reset when asked, and treat any fetch failure as the
/// track's natural end.
pub fn on_fetch(f: FetchOutcome) -> (r: FetchStep)
    ensures
        f == (FetchOutcome::Packet { same_track: true }) ==> r is DecodePacket,
        f == (FetchOutcome::Packet { same_track: false }) ==> r is SkipPacket,
        f is ResetRequired ==> r is ResetDecoder,
        f is EndOrError ==> r is FinishTrack,
{
    match f {
        FetchOutcome::Packet { same_track: true } => FetchStep::DecodePacket,
        FetchOutcome::Packet { same_track: false } => FetchStep::SkipPacket,
        FetchOutcome::ResetRequired => FetchStep::ResetDecoder,
        FetchOutcome::EndOrError => FetchStep::FinishTrack,
    }
}

/// The worker's step for a decode outcome: push good audio, skip a malformed
/// packet, reset when asked, and end the stream only on a fatal error.
pub fn on_decode(d: DecodeOutcome) -> (r: DecodeStep)
    ensures
        d is Decoded ==> r is PushSamples,
        d is RecoverableError ==> r is SkipPacket,
        d is ResetRequired ==> r is ResetDecoder,
        d is FatalError ==> r is EmitEosAndStop,
{
    match d {
        DecodeOutcome::Decoded => DecodeStep::PushSamples,
        DecodeOutcome::RecoverableError => DecodeStep::SkipPacket,
        DecodeOutcome::ResetRequired => DecodeStep::ResetDecoder,
        DecodeOutcome::FatalError => DecodeStep::EmitEosAndStop,
    }
}

/// Self-throttle: once more than two seconds of audio are queued — counted
/// in samples at the output rate and channel count — the worker sleeps
/// instead of decoding further.
pub fn over_backpressure(queued: u64, out_rate: u32, out_ch: u16) -> (r: bool)
    ensures
        r == (queued > out_rate as u64 * out_ch as u64 * 2),
{
    proof {
        assert((out_rate as int) * (out_ch as int) * 2 <= u64::MAX) by (nonlinear_arith)
            requires
                out_rate <= u32::MAX,
                out_ch <= u16::MAX,
                0 <= out_rate,
                0 <= out_ch,
        ;
    }
    queued > (out_rate as u64) * (out_ch as u64) * 2
}

/// Push one converted block into the ring from offset `off`, crediting the
/// queued-samples counter by the count actually stored. The ring may be
/// full; the count can be zero, and the caller retries after a short sleep
/// without discarding anything.
pub fn push_chunk(ring: &mut SampleRing, samples: &Vec<u32>, off: usize, queued: &mut u64) -> (n:
    usize)
    requires
        off <= samples@.len(),
        *old(queued) + samples@.len() <= u64::MAX,
    ensures
        n == min(
            samples@.len() - off,
            ring_capacity(old(ring)) - ring_contents(old(ring)).len(),
        ),
        ring_contents(final(ring)) == ring_contents(old(ring)) + samples@.subrange(
            off as int,
            off + n,
        ),
        ring_capacity(final(ring)) == ring_capacity(old(ring)),
        *final(queued) == *old(queued) + n,
{
    let tail = vstd::slice::slice_subrange(samples.as_slice(), off, samples.len());
    let n = ring.push_slice(tail);
    proof {
        assert(samples@.subrange(off as int, samples@.len() as int).take(n as int)
            =~= samples@.subrange(off as int, off + n));
    }
    *queued = *queued + (n as u64);
    n
}

} // verus!
