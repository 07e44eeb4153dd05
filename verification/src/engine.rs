use crate::decoder::EngineEvent;
use vstd::arithmetic::div_mod::{lemma_mod_bound, lemma_mod_sub_multiples_vanish, lemma_small_mod};
use crate::state::PlaybackState;
use crate::timing::{spec_classify_seek_bits, classify_seek_bits, spec_frames_for_millis, SeekCheck};
use crate::volume::{spec_clamp_volume_bits, clamp_volume_bits, VOLUME_ONE_BITS};
use vstd::prelude::*;

verus! {

/// Samples that must be queued before the output stream starts after a play
/// or a seek; about one second at 48 kHz stereo.
pub const PREBUFFER_SAMPLES: u64 = 96_000;

/// Fixed capacity of the sample ring.
pub const MAX_BUFFER_SAMPLES: usize = 2_000_000;

/// Longest the controller waits for the prebuffer, in milliseconds.
pub const WARMUP_TIMEOUT_MS: u64 = 1200;

/// A command from the host's command channel. Times arrive in integer
/// milliseconds and volume as the raw bit pattern of the requested float;
/// the shell converts at the channel boundary.
#[derive(Debug, Clone)]
pub enum Cmd {
    Load(String),
    SetQueue(Vec<String>, usize),
    SetQueueAndPlay(Vec<String>, usize),
    Play,
    Pause,
    Stop,
    /// Target position in milliseconds.
    Seek(u64),
    /// Requested volume as a float bit pattern; clamped on arrival.
    SetVolume(u32),
    Next,
    Prev,
}

/// Tag of a `state` event published to the host.
#[derive(Debug, Clone, Copy, PartialEq, Eq, Structural)]
pub enum StateTag {
    Stopped,
    Playing,
    Paused,
    Ended,
}

impl StateTag {
    /// The event payload the host publishes for this tag.
    pub fn label(self) -> (r: &'static str)
        ensures
            self is Stopped ==> r@ == "stopped"@,
            self is Playing ==> r@ == "playing"@,
            self is Paused ==> r@ == "paused"@,
            self is Ended ==> r@ == "ended"@,
    {
        match self {
            StateTag::Stopped => "stopped",
            StateTag::Playing => "playing",
            StateTag::Paused => "paused",
            StateTag::Ended => "ended",
        }
    }
}

/// One side effect the shell performs, in order, after a control step.
#[derive(Debug, Clone, PartialEq, Eq)]
pub enum Effect {
    /// Send `DecoderControl::Stop` and join the decode worker.
    StopDecoder,
    /// Spawn the decode worker on `path`, seeking first when `seek_ms` is
    /// set, and pre-send a switch to `next_hint` for gapless chaining.
    SpawnDecoder { path: String, seek_ms: Option<u64>, next_hint: Option<String> },
    /// Tear down the stream and ring and build fresh ones, kept paused.
    RebuildOutput,
    StartStream,
    PauseStream,
    /// Poll the queued-samples counter until it reaches `PREBUFFER_SAMPLES`
    /// or `WARMUP_TIMEOUT_MS` elapses.
    WarmUp,
    EmitState(StateTag),
    /// Scan `path` for its duration in the background.
    StartDurationScan(String),
    /// Watch the worker's event channel for end-of-stream.
    WatchEndOfStream,
    /// Start the periodic position/peak emitter.
    StartMetrics,
}

/// Why a command was refused; the engine's state is unchanged when one of
/// these is returned.
#[derive(Debug, Clone, Copy, PartialEq, Eq, Structural)]
pub enum EngineError {
    NoOutputDevice,
    QueueEmpty,
    NoCurrentFile,
    InvalidSeek,
}

impl EngineError {
    pub fn message(self) -> (r: &'static str)
        ensures
            self is NoOutputDevice ==> r@ == "No output device"@,
            self is QueueEmpty ==> r@ == "Queue empty"@,
            self is NoCurrentFile ==> r@ == "No file"@,
            self is InvalidSeek ==> r@ == "Seek target is not a finite time"@,
    {
        match self {
            EngineError::NoOutputDevice => "No output device",
            EngineError::QueueEmpty => "Queue empty",
            EngineError::NoCurrentFile => "No file",
            EngineError::InvalidSeek => "Seek target is not a finite time",
        }
    }
}

/// The output device format captured when the stream is built.
#[derive(Debug, Clone, Copy, PartialEq, Eq, Structural)]
pub struct OutputFormat {
    pub sample_rate: u32,
    pub channels: u16,
}

/// A snapshot of the shared counters the host reads: frames played, the
/// scanned duration, the per-block peak meters, and the output sample rate.
#[derive(Debug, Clone, Copy, PartialEq, Eq, Structural)]
pub struct Metrics {
    pub frames_played: u64,
    pub duration_frames: u64,
    pub peak_l: u32,
    pub peak_r: u32,
    pub sample_rate: u32,
}

impl Metrics {
    /// Position shown to the host: `frames_played / sample_rate`, in
    /// milliseconds.
    pub fn position_millis(&self) -> (r: u64)
        requires
            1 <= self.sample_rate,
            self.frames_played * 1000 <= u64::MAX,
        ensures
            r == (self.frames_played * 1000) / (self.sample_rate as int),
    {
        (self.frames_played * 1000) / (self.sample_rate as u64)
    }

    /// Duration of the current track, in milliseconds; zero until the scan
    /// completes.
    pub fn duration_millis(&self) -> (r: u64)
        requires
            1 <= self.sample_rate,
            self.duration_frames * 1000 <= u64::MAX,
        ensures
            r == (self.duration_frames * 1000) / (self.sample_rate as int),
    {
        (self.duration_frames * 1000) / (self.sample_rate as u64)
    }
}

/// Vet a seek request, given as the raw bit pattern of the requested
/// 64-bit float seconds: a NaN or infinite target is refused with an error
/// and nothing is torn down; a negative target clamps to the start; any
/// other target is a finite time for the shell to convert to milliseconds.
pub fn vet_seek_request(bits: u64) -> (r: Result<SeekCheck, EngineError>)
    ensures
        (spec_classify_seek_bits(bits) is Reject <==> r == Err::<SeekCheck, EngineError>(
            EngineError::InvalidSeek,
        )),
        !(spec_classify_seek_bits(bits) is Reject) ==> r == Ok::<SeekCheck, EngineError>(
            spec_classify_seek_bits(bits),
        ),
{
    match classify_seek_bits(bits) {
        SeekCheck::Reject => Err(EngineError::InvalidSeek),
        c => Ok(c),
    }
}

/// Effects of a stop: halt and join the worker, pause the stream, rebuild
/// the ring and stream so the next play starts from a clean split, and tell
/// the host.
pub open spec fn stop_effects(effs: Seq<Effect>) -> bool {
    &&& effs.len() == 4
    &&& effs[0] is StopDecoder
    &&& effs[1] is PauseStream
    &&& effs[2] is RebuildOutput
    &&& effs[3] == Effect::EmitState(StateTag::Stopped)
}

/// One spawn effect, compared by the views of its paths.
pub open spec fn is_spawn(
    e: Effect,
    path: Seq<char>,
    seek_ms: Option<u64>,
    next_hint: Option<Seq<char>>,
) -> bool {
    &&& e matches Effect::SpawnDecoder { path: p, seek_ms: s, next_hint: n }
    &&& p@ == path
    &&& s == seek_ms
    &&& (match next_hint {
        Option::None => n is None,
        Option::Some(h) => n matches Some(nh) && nh@ == h,
    })
}

/// Effects of starting playback from stopped: spawn the worker (with a
/// gapless hint when a next track exists), let the prebuffer fill, start
/// the stream, tell the host, and watch for end-of-stream.
pub open spec fn play_start_effects(
    effs: Seq<Effect>,
    path: Seq<char>,
    seek_ms: Option<u64>,
    next_hint: Option<Seq<char>>,
) -> bool {
    &&& effs.len() == 5
    &&& is_spawn(effs[0], path, seek_ms, next_hint)
    &&& effs[1] is WarmUp
    &&& effs[2] is StartStream
    &&& effs[3] == Effect::EmitState(StateTag::Playing)
    &&& effs[4] is WatchEndOfStream
}

/// The gapless hint for the track after `idx`, when one exists.
pub open spec fn spec_next_hint(queue: Seq<Seq<char>>, idx: Option<usize>) -> Option<Seq<char>> {
    match idx {
        Option::None => Option::None,
        Option::Some(i) => if i + 1 < queue.len() {
            Option::Some(queue[i as int + 1])
        } else {
            Option::None
        },
    }
}

/// How stepping the queue leaves the controller: on the target entry,
/// playing, with the counters reset by the stop in between.
pub open spec fn advanced_to(pre: AudioEngine, post: AudioEngine, target: int) -> bool {
    post == (AudioEngine {
        current_index: Some(target as usize),
        state: PlaybackState::Playing,
        frames_played: 0,
        queued_samples: 0,
        decoder_running: true,
        ..pre
    })
}

/// The effect train of a queue step: a full stop, the new entry's duration
/// scan, then a fresh start on it.
pub open spec fn advance_effects(effs: Seq<Effect>, queue: Seq<Seq<char>>, target: int) -> bool {
    &&& effs.len() == 10
    &&& stop_effects(effs.take(4))
    &&& (effs[4] matches Effect::StartDurationScan(p) && p@ == queue[target])
    &&& play_start_effects(
        effs.skip(5),
        queue[target],
        Option::None,
        spec_next_hint(queue, Some(target as usize)),
    )
}

/// The playback controller's own state. It owns the queue and the current
/// index, decides every transport transition, and accounts the shared
/// counters; the shell owns the actual threads, stream and atomics and
/// performs the returned effects in order.
pub struct AudioEngine {
    pub queue: Vec<String>,
    pub current_index: Option<usize>,
    pub state: PlaybackState,
    pub vol_bits: u32,
    pub frames_played: u64,
    pub queued_samples: u64,
    pub duration_frames: u64,
    pub out_sr: u32,
    pub out_ch: u16,
    pub decoder_running: bool,
}

impl AudioEngine {
    /// The controller's invariant: a current index always points into the
    /// queue, the stored volume is already clamped, and the output format is
    /// real.
    pub open spec fn wf(self) -> bool {
        &&& (self.current_index matches Some(i) ==> (i as int) < self.queue@.len())
        &&& self.vol_bits <= VOLUME_ONE_BITS
        &&& 1 <= self.out_sr
        &&& 1 <= self.out_ch
    }

    /// Build the controller for the default output device. With no device
    /// there is nothing to construct: the error surfaces and no effect — so
    /// no thread — is produced. Volume starts at full scale.
    pub fn new(device: Option<OutputFormat>) -> (r: Result<(AudioEngine, Vec<Effect>), EngineError>)
        requires
            device matches Some(f) ==> 1 <= f.sample_rate && 1 <= f.channels,
        ensures
            device is None ==> (r matches Err(e) && e == EngineError::NoOutputDevice),
            device matches Some(f) ==> (r matches Ok(p) && {
                let (eng, effs) = p;
                &&& eng.wf()
                &&& eng.queue@.len() == 0
                &&& eng.current_index is None
                &&& eng.state is Stopped
                &&& eng.vol_bits == VOLUME_ONE_BITS
                &&& eng.frames_played == 0
                &&& eng.queued_samples == 0
                &&& eng.duration_frames == 0
                &&& eng.out_sr == f.sample_rate
                &&& eng.out_ch == f.channels
                &&& !eng.decoder_running
                &&& effs@.len() == 2
                &&& effs@[0] is RebuildOutput
                &&& effs@[1] is StartMetrics
            }),
    {
        match device {
            None => Err(EngineError::NoOutputDevice),
            Some(f) => {
                let engine = AudioEngine {
                    queue: Vec::new(),
                    current_index: None,
                    state: PlaybackState::Stopped,
                    vol_bits: VOLUME_ONE_BITS,
                    frames_played: 0,
                    queued_samples: 0,
                    duration_frames: 0,
                    out_sr: f.sample_rate,
                    out_ch: f.channels,
                    decoder_running: false,
                };
                let mut effects: Vec<Effect> = Vec::new();
                effects.push(Effect::RebuildOutput);
                effects.push(Effect::StartMetrics);
                Ok((engine, effects))
            },
        }
    }

    /// Store a requested volume, clamped to `[0.0, 1.0]` on its bit
    /// pattern. Nothing else moves: the callback picks the new factor up on
    /// its next block.
    pub fn set_volume(&mut self, bits: u32)
        requires
            old(self).wf(),
        ensures
            final(self).wf(),
            final(self).vol_bits == spec_clamp_volume_bits(bits),
            *final(self) == (AudioEngine { vol_bits: final(self).vol_bits, ..*old(self) }),
    {
        self.vol_bits = clamp_volume_bits(bits);
    }

    /// Make `path` the whole queue and its first entry current; stop the
    /// worker, zero the counters, go to stopped, and scan the file's
    /// duration in the background.
    pub fn load(&mut self, path: String) -> (effects: Vec<Effect>)
        requires
            old(self).wf(),
        ensures
            final(self).wf(),
            final(self).queue.deep_view() =~= seq![path@],
            final(self).current_index == Some(0usize),
            final(self).state is Stopped,
            final(self).frames_played == 0,
            final(self).queued_samples == 0,
            final(self).duration_frames == 0,
            !final(self).decoder_running,
            final(self).vol_bits == old(self).vol_bits,
            final(self).out_sr == old(self).out_sr,
            final(self).out_ch == old(self).out_ch,
            effects@.len() == 3,
            effects@[0] is StopDecoder,
            effects@[1] == Effect::EmitState(StateTag::Stopped),
            (effects@[2] matches Effect::StartDurationScan(p) && p@ == path@),
    {
        let mut q: Vec<String> = Vec::new();
        q.push(path.clone());
        self.queue = q;
        self.current_index = Some(0);
        self.state = PlaybackState::Stopped;
        self.decoder_running = false;
        self.frames_played = 0;
        self.queued_samples = 0;
        self.duration_frames = 0;
        let mut effects: Vec<Effect> = Vec::new();
        effects.push(Effect::StopDecoder);
        effects.push(Effect::EmitState(StateTag::Stopped));
        effects.push(Effect::StartDurationScan(path));
        effects
    }

    /// Replace the queue. The starting index is taken when it is in range,
    /// else there is no current entry. Counters are zeroed, the worker is
    /// stopped, and the new current entry's duration scan starts.
    pub fn set_queue(&mut self, items: Vec<String>, start_at: usize) -> (effects: Vec<Effect>)
        requires
            old(self).wf(),
        ensures
            final(self).wf(),
            final(self).queue == items,
            final(self).current_index == if (start_at as int) < items@.len() {
                Some(start_at)
            } else {
                Option::<usize>::None
            },
            final(self).state == old(self).state,
            final(self).frames_played == 0,
            final(self).queued_samples == 0,
            final(self).duration_frames == 0,
            !final(self).decoder_running,
            final(self).vol_bits == old(self).vol_bits,
            final(self).out_sr == old(self).out_sr,
            final(self).out_ch == old(self).out_ch,
            (start_at as int) < items@.len() ==> {
                &&& effects@.len() == 2
                &&& effects@[0] is StopDecoder
                &&& (effects@[1] matches Effect::StartDurationScan(p) && p@
                    == items@[start_at as int]@)
            },
            items@.len() <= start_at as int ==> effects@.len() == 1 && effects@[0]
                is StopDecoder,
    {
        let has_start = start_at < items.len();
        let mut effects: Vec<Effect> = Vec::new();
        effects.push(Effect::StopDecoder);
        if has_start {
            let p = items[start_at].clone();
            effects.push(Effect::StartDurationScan(p));
        }
        self.queue = items;
        self.current_index = if has_start {
            Some(start_at)
        } else {
            None
        };
        self.decoder_running = false;
        self.frames_played = 0;
        self.queued_samples = 0;
        self.duration_frames = 0;
        effects
    }

    /// Replace the queue and start it at once — the compound step behind
    /// the host's set-queue-and-play command: a full stop, the queue
    /// replacement with its duration scan, then play. An out-of-range start
    /// index leaves no current entry and play falls back to the first
    /// entry; an empty queue leaves nothing to start and only the stop and
    /// the replacement take effect.
    pub fn set_queue_and_play(&mut self, items: Vec<String>, start_at: usize) -> (effects: Vec<
        Effect,
    >)
        requires
            old(self).wf(),
        ensures
            final(self).wf(),
            final(self).queue == items,
            final(self).current_index == if (start_at as int) < items@.len() {
                Some(start_at)
            } else {
                Option::<usize>::None
            },
            final(self).frames_played == 0,
            final(self).queued_samples == 0,
            final(self).duration_frames == 0,
            final(self).vol_bits == old(self).vol_bits,
            final(self).out_sr == old(self).out_sr,
            final(self).out_ch == old(self).out_ch,
            items@.len() == 0 ==> {
                &&& final(self).state is Stopped
                &&& !final(self).decoder_running
                &&& effects@.len() == 5
                &&& stop_effects(effects@.take(4))
                &&& effects@[4] is StopDecoder
            },
            items@.len() > 0 ==> {
                let started = if (start_at as int) < items@.len() {
                    start_at as int
                } else {
                    0int
                };
                &&& final(self).state is Playing
                &&& final(self).decoder_running
                &&& stop_effects(effects@.take(4))
                &&& effects@[4] is StopDecoder
                &&& ((start_at as int) < items@.len() ==> {
                    &&& effects@.len() == 11
                    &&& (effects@[5] matches Effect::StartDurationScan(p) && p@
                        == items@[start_at as int]@)
                    &&& play_start_effects(
                        effects@.skip(6),
                        items.deep_view()[started],
                        Option::None,
                        spec_next_hint(items.deep_view(), Some(start_at)),
                    )
                })
                &&& (items@.len() <= start_at as int ==> {
                    &&& effects@.len() == 10
                    &&& play_start_effects(
                        effects@.skip(5),
                        items.deep_view()[0],
                        Option::None,
                        Option::None,
                    )
                })
            },
    {
        let mut effects = self.stop();
        let mut queue_effects = self.set_queue(items, start_at);
        effects.append(&mut queue_effects);
        match self.play() {
            Ok(mut play_effects) => {
                effects.append(&mut play_effects);
            },
            Err(_) => {
                // Only an empty queue refuses play here; there is nothing
                // to start and the stop and replacement stand.
            },
        }
        effects
    }

    /// The track after the current one, for gapless chaining.
    fn peek_next_path(&self) -> (r: Option<String>)
        requires
            self.wf(),
        ensures
            (match spec_next_hint(self.queue.deep_view(), self.current_index) {
                Option::None => r is None,
                Option::Some(h) => r matches Some(s) && s@ == h,
            }),
    {
        match self.current_index {
            None => None,
            Some(i) => {
                let len = self.queue.len();
                if i < len - 1 {
                    Some(self.queue[i + 1].clone())
                } else {
                    None
                }
            },
        }
    }

    /// Start or resume playback. Playing already: nothing. Paused: the
    /// stream resumes over the preserved buffer. Stopped: the worker is
    /// spawned on the current entry — with a gapless hint — the prebuffer
    /// fills, and the stream starts. With nothing playable the error
    /// surfaces and nothing changes.
    pub fn play(&mut self) -> (r: Result<Vec<Effect>, EngineError>)
        requires
            old(self).wf(),
        ensures
            final(self).wf(),
            old(self).state is Playing ==> (r matches Ok(effs) && effs@.len() == 0
                && *final(self) == *old(self)),
            old(self).state is Paused ==> (r matches Ok(effs) && {
                &&& effs@.len() == 2
                &&& effs@[0] is StartStream
                &&& effs@[1] == Effect::EmitState(StateTag::Playing)
                &&& *final(self) == (AudioEngine { state: PlaybackState::Playing, ..*old(self) })
            }),
            old(self).state is Stopped ==> {
                let idx = match old(self).current_index {
                    Option::Some(i) => i as int,
                    Option::None => 0int,
                };
                &&& (idx >= old(self).queue@.len() ==> (r matches Err(e) && e
                    == EngineError::QueueEmpty && *final(self) == *old(self)))
                &&& (idx < old(self).queue@.len() ==> (r matches Ok(effs) && {
                    &&& play_start_effects(
                        effs@,
                        old(self).queue.deep_view()[idx],
                        Option::None,
                        spec_next_hint(old(self).queue.deep_view(), old(self).current_index),
                    )
                    &&& *final(self) == (AudioEngine {
                        state: PlaybackState::Playing,
                        decoder_running: true,
                        ..*old(self)
                    })
                }))
            },
    {
        match self.state {
            PlaybackState::Playing => Ok(Vec::new()),
            PlaybackState::Paused => {
                self.state = PlaybackState::Playing;
                let mut effects: Vec<Effect> = Vec::new();
                effects.push(Effect::StartStream);
                effects.push(Effect::EmitState(StateTag::Playing));
                Ok(effects)
            },
            PlaybackState::Stopped => {
                let idx = match self.current_index {
                    Some(i) => i,
                    None => 0,
                };
                if idx >= self.queue.len() {
                    return Err(EngineError::QueueEmpty);
                }
                let path = self.queue[idx].clone();
                let next_hint = self.peek_next_path();
                let mut effects: Vec<Effect> = Vec::new();
                effects.push(Effect::SpawnDecoder { path, seek_ms: None, next_hint });
                effects.push(Effect::WarmUp);
                effects.push(Effect::StartStream);
                effects.push(Effect::EmitState(StateTag::Playing));
                effects.push(Effect::WatchEndOfStream);
                self.state = PlaybackState::Playing;
                self.decoder_running = true;
                Ok(effects)
            },
        }
    }

    /// Pause the stream and freeze there: the worker keeps the buffer warm
    /// and the frames-played counter stops moving.
    pub fn pause(&mut self) -> (effects: Vec<Effect>)
        requires
            old(self).wf(),
        ensures
            final(self).wf(),
            *final(self) == (AudioEngine { state: PlaybackState::Paused, ..*old(self) }),
            effects@.len() == 2,
            effects@[0] is PauseStream,
            effects@[1] == Effect::EmitState(StateTag::Paused),
    {
        self.state = PlaybackState::Paused;
        let mut effects: Vec<Effect> = Vec::new();
        effects.push(Effect::PauseStream);
        effects.push(Effect::EmitState(StateTag::Paused));
        effects
    }

    /// Full stop: halt and join the worker, drop and rebuild the stream and
    /// ring, and zero the played and queued counters. After a stop both
    /// counters read zero.
    pub fn stop(&mut self) -> (effects: Vec<Effect>)
        requires
            old(self).wf(),
        ensures
            final(self).wf(),
            final(self).frames_played == 0,
            final(self).queued_samples == 0,
            *final(self) == (AudioEngine {
                state: PlaybackState::Stopped,
                frames_played: 0,
                queued_samples: 0,
                decoder_running: false,
                ..*old(self)
            }),
            stop_effects(effects@),
    {
        self.state = PlaybackState::Stopped;
        self.decoder_running = false;
        self.frames_played = 0;
        self.queued_samples = 0;
        let mut effects: Vec<Effect> = Vec::new();
        effects.push(Effect::StopDecoder);
        effects.push(Effect::PauseStream);
        effects.push(Effect::RebuildOutput);
        effects.push(Effect::EmitState(StateTag::Stopped));
        effects
    }

    /// Seek the current track to `ms` milliseconds. The pipeline is torn
    /// down and rebuilt, the frames-played counter is seeded to
    /// `round(ms * out_sr / 1000)` before the stream could run again — so
    /// the first position reading is already the target — and playback
    /// resumes only if it was running. With an empty queue the error
    /// surfaces and nothing changes.
    pub fn seek(&mut self, ms: u64) -> (r: Result<Vec<Effect>, EngineError>)
        requires
            old(self).wf(),
            ms * old(self).out_sr + 500 <= u64::MAX,
        ensures
            final(self).wf(),
            old(self).queue@.len() == 0 ==> (r matches Err(e) && e == EngineError::NoCurrentFile
                && *final(self) == *old(self)),
            old(self).queue@.len() > 0 ==> (r matches Ok(effs) && {
                let was_playing = old(self).state is Playing;
                let idx = match old(self).current_index {
                    Option::Some(i) => i as int,
                    Option::None => 0int,
                };
                &&& *final(self) == (AudioEngine {
                    state: if was_playing {
                        PlaybackState::Playing
                    } else {
                        PlaybackState::Paused
                    },
                    frames_played: final(self).frames_played,
                    queued_samples: 0,
                    decoder_running: true,
                    ..*old(self)
                })
                &&& final(self).frames_played == spec_frames_for_millis(ms, old(self).out_sr)
                &&& effs@.len() == 7
                &&& effs@[0] is StopDecoder
                &&& effs@[1] is RebuildOutput
                &&& is_spawn(
                    effs@[2],
                    old(self).queue.deep_view()[idx],
                    Option::Some(ms),
                    spec_next_hint(old(self).queue.deep_view(), old(self).current_index),
                )
                &&& effs@[3] is WarmUp
                &&& (was_playing ==> effs@[4] is StartStream && effs@[5] == Effect::EmitState(
                    StateTag::Playing,
                ))
                &&& (!was_playing ==> effs@[4] is PauseStream && effs@[5] == Effect::EmitState(
                    StateTag::Paused,
                ))
                &&& effs@[6] is WatchEndOfStream
            }),
    {
        if self.queue.len() == 0 {
            return Err(EngineError::NoCurrentFile);
        }
        let was_playing = matches!(self.state, PlaybackState::Playing);
        let idx = match self.current_index {
            Some(i) => i,
            None => 0,
        };
        let path = self.queue[idx].clone();
        let next_hint = self.peek_next_path();
        self.queued_samples = 0;
        self.frames_played = crate::timing::frames_for_millis(ms, self.out_sr);
        self.decoder_running = true;
        self.state = if was_playing {
            PlaybackState::Playing
        } else {
            PlaybackState::Paused
        };
        let mut effects: Vec<Effect> = Vec::new();
        effects.push(Effect::StopDecoder);
        effects.push(Effect::RebuildOutput);
        effects.push(Effect::SpawnDecoder { path, seek_ms: Some(ms), next_hint });
        effects.push(Effect::WarmUp);
        if was_playing {
            effects.push(Effect::StartStream);
            effects.push(Effect::EmitState(StateTag::Playing));
        } else {
            effects.push(Effect::PauseStream);
            effects.push(Effect::EmitState(StateTag::Paused));
        }
        effects.push(Effect::WatchEndOfStream);
        Ok(effects)
    }

    /// Step the queue `n` entries forward, wrapping at its end, then stop
    /// and play the new entry. An empty queue, or a step that lands on the
    /// same entry, does nothing.
    pub fn advance(&mut self, n: usize) -> (r: Result<Vec<Effect>, EngineError>)
        requires
            old(self).wf(),
        ensures
            final(self).wf(),
            old(self).queue@.len() == 0 ==> (r matches Ok(effs) && effs@.len() == 0 && *final(
                self) == *old(self)),
            old(self).queue@.len() > 0 ==> {
                let len = old(self).queue@.len() as int;
                let idx = (match old(self).current_index {
                    Option::Some(i) => i as int,
                    Option::None => 0int,
                }) % len;
                let target = (idx + (n as int) % len) % len;
                &&& (target == idx ==> (r matches Ok(effs) && effs@.len() == 0 && *final(self)
                    == *old(self)))
                &&& (target != idx ==> (r matches Ok(effs)
                    && advanced_to(*old(self), *final(self), target)
                    && advance_effects(effs@, old(self).queue.deep_view(), target)))
            },
    {
        self.advance_to(n, true)
    }

    /// Step the queue `n` entries backward, wrapping at its start, then stop
    /// and play the new entry.
    pub fn advance_back(&mut self, n: usize) -> (r: Result<Vec<Effect>, EngineError>)
        requires
            old(self).wf(),
        ensures
            final(self).wf(),
            old(self).queue@.len() == 0 ==> (r matches Ok(effs) && effs@.len() == 0 && *final(
                self) == *old(self)),
            old(self).queue@.len() > 0 ==> {
                let len = old(self).queue@.len() as int;
                let idx = (match old(self).current_index {
                    Option::Some(i) => i as int,
                    Option::None => 0int,
                }) % len;
                let target = (idx + len - (n as int) % len) % len;
                &&& (target == idx ==> (r matches Ok(effs) && effs@.len() == 0 && *final(self)
                    == *old(self)))
                &&& (target != idx ==> (r matches Ok(effs)
                    && advanced_to(*old(self), *final(self), target)
                    && advance_effects(effs@, old(self).queue.deep_view(), target)))
            },
    {
        self.advance_to(n, false)
    }

    /// Step to the next queue entry, wrapping at the end.
    pub fn next(&mut self) -> (r: Result<Vec<Effect>, EngineError>)
        requires
            old(self).wf(),
        ensures
            final(self).wf(),
            old(self).queue@.len() == 0 ==> (r matches Ok(effs) && effs@.len() == 0 && *final(
                self) == *old(self)),
            old(self).queue@.len() > 0 ==> {
                let len = old(self).queue@.len() as int;
                let idx = (match old(self).current_index {
                    Option::Some(i) => i as int,
                    Option::None => 0int,
                }) % len;
                let target = (idx + 1int % len) % len;
                &&& (target == idx ==> (r matches Ok(effs) && effs@.len() == 0 && *final(self)
                    == *old(self)))
                &&& (target != idx ==> (r matches Ok(effs)
                    && advanced_to(*old(self), *final(self), target)
                    && advance_effects(effs@, old(self).queue.deep_view(), target)))
            },
    {
        self.advance(1)
    }

    /// Step to the previous queue entry, wrapping at the start.
    pub fn prev(&mut self) -> (r: Result<Vec<Effect>, EngineError>)
        requires
            old(self).wf(),
        ensures
            final(self).wf(),
            old(self).queue@.len() == 0 ==> (r matches Ok(effs) && effs@.len() == 0 && *final(
                self) == *old(self)),
            old(self).queue@.len() > 0 ==> {
                let len = old(self).queue@.len() as int;
                let idx = (match old(self).current_index {
                    Option::Some(i) => i as int,
                    Option::None => 0int,
                }) % len;
                let target = (idx + len - 1int % len) % len;
                &&& (target == idx ==> (r matches Ok(effs) && effs@.len() == 0 && *final(self)
                    == *old(self)))
                &&& (target != idx ==> (r matches Ok(effs)
                    && advanced_to(*old(self), *final(self), target)
                    && advance_effects(effs@, old(self).queue.deep_view(), target)))
            },
    {
        self.advance_back(1)
    }

    /// Shared stepping: compute the wrapped target index, and when it
    /// differs from the current one, stop, move there, start the new
    /// entry's duration scan, and play.
    fn advance_to(&mut self, n: usize, forward: bool) -> (r: Result<Vec<Effect>, EngineError>)
        requires
            old(self).wf(),
        ensures
            final(self).wf(),
            old(self).queue@.len() == 0 ==> (r matches Ok(effs) && effs@.len() == 0 && *final(
                self) == *old(self)),
            old(self).queue@.len() > 0 ==> {
                let len = old(self).queue@.len() as int;
                let idx = (match old(self).current_index {
                    Option::Some(i) => i as int,
                    Option::None => 0int,
                }) % len;
                let target = if forward {
                    (idx + (n as int) % len) % len
                } else {
                    (idx + len - (n as int) % len) % len
                };
                &&& (target == idx ==> (r matches Ok(effs) && effs@.len() == 0 && *final(self)
                    == *old(self)))
                &&& (target != idx ==> (r matches Ok(effs)
                    && advanced_to(*old(self), *final(self), target)
                    && advance_effects(effs@, old(self).queue.deep_view(), target)))
            },
    {
        let len = self.queue.len();
        if len == 0 {
            return Ok(Vec::new());
        }
        let idx = match self.current_index {
            Some(i) => i % len,
            None => 0,
        };
        let step = n % len;
        proof {
            lemma_mod_bound(n as int, len as int);
            lemma_mod_bound((match old(self).current_index {
                Option::Some(i) => i as int,
                Option::None => 0int,
            }), len as int);
            if old(self).current_index is None {
                lemma_small_mod(0, len as nat);
            }
        }
        let target = if forward {
            if step < len - idx {
                idx + step
            } else {
                step - (len - idx)
            }
        } else {
            if step <= idx {
                idx - step
            } else {
                len - (step - idx)
            }
        };
        proof {
            let gl = len as int;
            let gi = idx as int;
            let gs = step as int;
            if forward {
                if gs < gl - gi {
                    lemma_small_mod((gi + gs) as nat, gl as nat);
                } else {
                    lemma_mod_sub_multiples_vanish(gi + gs, gl);
                    lemma_small_mod((gi + gs - gl) as nat, gl as nat);
                }
            } else {
                if gs <= gi {
                    lemma_mod_sub_multiples_vanish(gi + gl - gs, gl);
                    lemma_small_mod((gi - gs) as nat, gl as nat);
                } else {
                    lemma_small_mod((gi + gl - gs) as nat, gl as nat);
                }
            }
        }
        if target == idx {
            return Ok(Vec::new());
        }
        self.current_index = Some(target);
        let mut effects = self.stop();
        let path = self.queue[target].clone();
        effects.push(Effect::StartDurationScan(path));
        match self.play() {
            Ok(mut pe) => {
                effects.append(&mut pe);
                Ok(effects)
            },
            Err(e) => {
                proof {
                    assert(false);
                }
                Err(e)
            },
        }
    }

    /// Record the scanned duration once the background scan finishes.
    pub fn set_duration_frames(&mut self, frames: u64)
        requires
            old(self).wf(),
        ensures
            final(self).wf(),
            *final(self) == (AudioEngine { duration_frames: frames, ..*old(self) }),
    {
        self.duration_frames = frames;
    }

    /// Position shown to the host, in milliseconds.
    pub fn position_millis(&self) -> (r: u64)
        requires
            self.wf(),
            self.frames_played * 1000 <= u64::MAX,
        ensures
            r == (self.frames_played * 1000) / (self.out_sr as int),
    {
        (self.frames_played * 1000) / (self.out_sr as u64)
    }

    /// Scanned duration, in milliseconds; zero while unknown.
    pub fn duration_millis(&self) -> (r: u64)
        requires
            self.wf(),
            self.duration_frames * 1000 <= u64::MAX,
        ensures
            r == (self.duration_frames * 1000) / (self.out_sr as int),
    {
        (self.duration_frames * 1000) / (self.out_sr as u64)
    }

    /// End-of-stream from the worker: playback ends, the host hears
    /// `"ended"`, and the engine is quiescent again. The worker that just
    /// ended consumed the ring's producer, so the ring and stream are
    /// rebuilt here: the next play finds a fresh producer to hand out.
    pub fn on_event(&mut self, ev: EngineEvent) -> (effects: Vec<Effect>)
        requires
            old(self).wf(),
        ensures
            final(self).wf(),
            ev is EndOfStream ==> {
                &&& *final(self) == (AudioEngine {
                    state: PlaybackState::Stopped,
                    decoder_running: false,
                    ..*old(self)
                })
                &&& effects@.len() == 2
                &&& effects@[0] is RebuildOutput
                &&& effects@[1] == Effect::EmitState(StateTag::Ended)
            },
    {
        match ev {
            EngineEvent::EndOfStream => {
                self.state = PlaybackState::Stopped;
                self.decoder_running = false;
                let mut effects: Vec<Effect> = Vec::new();
                effects.push(Effect::RebuildOutput);
                effects.push(Effect::EmitState(StateTag::Ended));
                effects
            },
        }
    }
}

} // verus!
