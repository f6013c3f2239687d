use crate::state::{clamp, PlaybackModel, PlayerState, SharedPlaybackState, NORMAL_SPEED_STEPS};
use crate::stream::{trunc_div, AudioSamples};
use std::collections::VecDeque;
use std::sync::mpsc::Receiver;
use vstd::arithmetic::div_mod::{lemma_fundamental_div_mod, lemma_fundamental_div_mod_converse};
use vstd::prelude::*;

verus! {

/// Relies on std's `Receiver::recv_timeout`: waits at most `wait_ms`
/// milliseconds for the next chunk; `None` when none came in time or the
/// sending side is gone.
#[verifier::external_body]
fn receive_within(rx: &Receiver<AudioSamples>, wait_ms: u64) -> (r: Option<AudioSamples>) {
    rx.recv_timeout(std::time::Duration::from_millis(wait_ms)).ok()
}

/// How long one poll of an empty audio queue waits, in milliseconds.
pub const POLL_WAIT_MS: u64 = 1;

/// Polls that may come back empty in one callback before the callback
/// gives up and plays silence for what is missing.
pub const MAX_MISSED_POLLS: u32 = 4;

/// The transport state lets audio advance.
pub open spec fn is_running(s: PlayerState) -> bool {
    s != PlayerState::Stopped && s != PlayerState::Paused
}

/// A sample at a stored volume (`255` is full volume), rounded toward zero.
pub open spec fn scaled_sample(s: i32, volume: u8) -> i32 {
    trunc_div(s * volume, 255) as i32
}

/// Frames of input that one callback of `stride` frames per channel
/// consumes at a stored speed: `stride` at normal speed, more when faster,
/// fewer when slower.
pub open spec fn frames_for_speed(stride: int, speed: u8) -> int {
    stride * speed / (NORMAL_SPEED_STEPS as int)
}

/// Sample `i` of a callback's output, which shows the first `shown`
/// interleaved samples that were pending.
pub open spec fn output_sample(pending: Seq<i32>, shown: int, muted: bool, volume: u8, i: int) -> i32 {
    if i < shown && !muted {
        scaled_sample(pending[i], volume)
    } else {
        0
    }
}

/// Interleaved samples a callback writing `len` samples over `channels`
/// channels shows out of `pending` ones: whole frames, as many as both
/// hold.
pub open spec fn shown_samples(pending: nat, channels: nat, len: nat) -> int {
    let stride = len / channels;
    let avail = pending / channels;
    ((if stride < avail {
        stride
    } else {
        avail
    }) * channels) as int
}

/// Frames of pending audio that a callback writing `len` samples uses up:
/// as many as the speed calls for, or all there are.
pub open spec fn consumed_frames(e: EngineModel, m: PlaybackModel, len: nat) -> int {
    let avail = e.pending.len() / e.channels;
    let want = frames_for_speed((len / e.channels) as int, m.speed);
    if want < avail {
        want
    } else {
        avail as int
    }
}

/// Audio time of a callback writing `len` samples, plus what was carried,
/// in thousandths of a frame.
pub open spec fn callback_time(e: EngineModel, len: nat) -> int {
    ((len / e.channels) * 1000 + e.carry) as int
}

/// The engine after a callback writing `len` samples at playback state
/// `m`: untouched unless running; else the consumed frames are gone, the
/// sub-millisecond remainder is carried, and a callback that found fewer
/// frames than it writes counts as an underrun.
pub open spec fn engine_after_render(e: EngineModel, m: PlaybackModel, len: nat) -> EngineModel {
    if !is_running(m.state) {
        e
    } else {
        EngineModel {
            pending: e.pending.skip(consumed_frames(e, m, len) * e.channels),
            carry: (callback_time(e, len) % (e.sample_rate as int)) as nat,
            underruns: if e.pending.len() / e.channels < len / e.channels {
                clamp(e.underruns as int + 1, 0, u64::MAX as int) as nat
            } else {
                e.underruns
            },
            ..e
        }
    }
}

/// The playback state after such a callback: unless stopped or paused,
/// the audio time advances by the callback's length, `len / channels`
/// frames at the sample rate, in whole milliseconds (the remainder is
/// carried), saturating at the bounds of `i64`.
pub open spec fn state_after_render(e: EngineModel, m: PlaybackModel, len: nat) -> PlaybackModel {
    if !is_running(m.state) {
        m
    } else {
        let ms = callback_time(e, len) / (e.sample_rate as int);
        PlaybackModel {
            audio_pts_ms: clamp(
                m.audio_pts_ms + (if ms > i64::MAX { i64::MAX as int } else { ms }),
                i64::MIN as int,
                i64::MAX as int,
            ) as i64,
            ..m
        }
    }
}

/// Sample `i` written by such a callback: silence unless running, else the
/// pending audio shown as [`output_sample`] says.
pub open spec fn render_output(e: EngineModel, m: PlaybackModel, len: nat, i: int) -> i32 {
    if !is_running(m.state) {
        0
    } else {
        output_sample(e.pending, shown_samples(e.pending.len(), e.channels, len), m.muted, m.volume, i)
    }
}

/// The engine after the queue was drained until `filled` was pending: the
/// output latency is counted once, with the first audio ever received.
pub open spec fn engine_after_fill(e: EngineModel, filled: Seq<i32>) -> EngineModel {
    EngineModel { pending: filled, anchored: e.anchored || filled.len() > e.pending.len(), ..e }
}

/// The playback state after that drain: the output latency is added to the
/// audio time when the first audio ever arrives.
pub open spec fn state_after_fill(e: EngineModel, m: PlaybackModel, filled: Seq<i32>, latency_ms: u32) -> PlaybackModel {
    if !e.anchored && filled.len() > e.pending.len() {
        PlaybackModel {
            audio_pts_ms: clamp(m.audio_pts_ms + latency_ms, i64::MIN as int, i64::MAX as int) as i64,
            ..m
        }
    } else {
        m
    }
}

/// Frame `f`, channel `c` of a chunk of audio: silence where the chunk
/// holds no such sample.
pub open spec fn chunk_sample(chunk: AudioSamples, f: int, c: int) -> i32 {
    if c < chunk.data@.len() && f < chunk.data@[c]@.len() {
        chunk.data@[c]@[f]
    } else {
        0
    }
}

/// A chunk of audio interleaved over `channels` channels, frame by frame.
pub open spec fn interleaved(chunk: AudioSamples, channels: nat) -> Seq<i32> {
    Seq::new(
        (chunk.samples * channels) as nat,
        |i: int| chunk_sample(chunk, i / (channels as int), i % (channels as int)),
    )
}

/// What an [`AudioEngine`] holds.
pub struct EngineModel {
    pub channels: nat,
    pub sample_rate: nat,
    /// Interleaved samples drained from the queue and not yet played.
    pub pending: Seq<i32>,
    /// The output latency has been added to the audio time since playback
    /// last started.
    pub anchored: bool,
    /// Audio time played but not yet counted in whole milliseconds, in
    /// thousandths of a frame.
    pub carry: nat,
    /// Callbacks that found too little audio.
    pub underruns: nat,
}

/// The realtime audio consumer: drains decoded audio into an interleaved
/// buffer, writes exactly the requested number of samples per callback
/// (silence where audio is missing, paused or muted), scales them by the
/// volume, plays faster or slower than normal by skipping or repeating
/// material between callbacks (so pitch is kept), and advances the audio
/// time of the playback state by the audio it consumed.
pub struct AudioEngine {
    channels: usize,
    sample_rate: u32,
    pending: VecDeque<i32>,
    anchored: bool,
    carry: u64,
    underruns: u64,
}

impl View for AudioEngine {
    type V = EngineModel;

    closed spec fn view(&self) -> EngineModel {
        EngineModel {
            channels: self.channels as nat,
            sample_rate: self.sample_rate as nat,
            pending: self.pending@,
            anchored: self.anchored,
            carry: self.carry as nat,
            underruns: self.underruns as nat,
        }
    }
}

proof fn lemma_frame_index(channels: int, f: int, c: int)
    requires
        0 <= c < channels,
        0 <= f,
    ensures
        (f * channels + c) / channels == f,
        (f * channels + c) % channels == c,
{
    lemma_fundamental_div_mod_converse(f * channels + c, channels, f, c);
}

impl AudioEngine {
    /// The engine has at least one channel and a positive sample rate,
    /// holds whole frames, and carries less than one millisecond.
    pub open spec fn wf(&self) -> bool {
        &&& 1 <= self@.channels <= 255
        &&& self@.sample_rate > 0
        &&& (self@.pending.len() as int) % (self@.channels as int) == 0
        &&& self@.carry < self@.sample_rate
    }

    /// An engine for an output of `channels` channels at `sample_rate`
    /// frames per second; `None` when either is zero.
    pub fn new(channels: u8, sample_rate: u32) -> (r: Option<AudioEngine>)
        ensures
            r is None <==> (channels == 0 || sample_rate == 0),
            r matches Some(e) ==> {
                &&& e.wf()
                &&& e@ == (EngineModel {
                    channels: channels as nat,
                    sample_rate: sample_rate as nat,
                    pending: Seq::empty(),
                    anchored: false,
                    carry: 0,
                    underruns: 0,
                })
            },
    {
        if channels == 0 || sample_rate == 0 {
            return None;
        }
        let e = AudioEngine {
            channels: channels as usize,
            sample_rate,
            pending: VecDeque::new(),
            anchored: false,
            carry: 0,
            underruns: 0,
        };
        assert(e.pending@ =~= Seq::<i32>::empty());
        assert(0int % (channels as int) == 0) by (nonlinear_arith)
            requires
                channels > 0,
        ;
        Some(e)
    }

    /// Interleaved frames waiting to be played.
    pub fn pending_frames(&self) -> (r: usize)
        requires
            self.wf(),
        ensures
            r == self@.pending.len() / self@.channels,
    {
        self.pending.len() / self.channels
    }

    /// Callbacks so far that found too little audio.
    pub fn underruns(&self) -> (r: u64)
        ensures
            r == self@.underruns,
    {
        self.underruns
    }

    /// Plays the pending audio into `dst`, which the caller sized to the
    /// callback: `dst.len() / channels` frames per channel, interleaved.
    /// Every sample of `dst` is written.
    ///
    /// When stopped or paused the output is silence and nothing else
    /// changes. Otherwise the first pending frames are shown, scaled by the
    /// volume (or silenced when muted), missing frames are silence and
    /// count as an underrun, the frames that the speed calls for are used
    /// up, and the audio time advances by the callback's length.
    pub fn render_pending(&mut self, state: &mut SharedPlaybackState, dst: &mut Vec<i32>)
        requires
            old(self).wf(),
        ensures
            final(self).wf(),
            final(dst)@.len() == old(dst)@.len(),
            final(self)@ == engine_after_render(old(self)@, old(state)@, old(dst)@.len()),
            final(state)@ == state_after_render(old(self)@, old(state)@, old(dst)@.len()),
            forall|i: int|
                0 <= i < final(dst)@.len() ==> final(dst)@[i] == render_output(
                    old(self)@,
                    old(state)@,
                    old(dst)@.len(),
                    i,
                ),
    {
        let ch = self.channels;
        let len = dst.len();
        let st = state.state();
        if st == PlayerState::Stopped || st == PlayerState::Paused {
            let mut out: Vec<i32> = Vec::with_capacity(len);
            let mut i: usize = 0;
            while i < len
                invariant
                    i <= len,
                    out@.len() == i,
                    forall|j: int| 0 <= j < i ==> out@[j] == 0,
                decreases len - i,
            {
                out.push(0);
                i = i + 1;
            }
            *dst = out;
            return;
        }
        let stride = len / ch;
        let avail = self.pending.len() / ch;
        let shown = if stride < avail {
            stride
        } else {
            avail
        };
        assert(stride as u128 * state@.speed as u128 <= 0xffff_ffff_ffff_ffff * 255) by (nonlinear_arith)
            requires
                stride <= 0xffff_ffff_ffff_ffff,
                state@.speed <= 255,
        ;
        let want_wide = stride as u128 * state.speed_steps() as u128 / NORMAL_SPEED_STEPS as u128;
        let consumed: usize = if want_wide < avail as u128 {
            want_wide as usize
        } else {
            avail
        };
        let ghost e = self@;
        proof {
            assert(stride * ch <= len) by (nonlinear_arith)
                requires
                    stride == len / ch,
                    ch > 0,
            ;
            assert(avail * ch <= self.pending@.len()) by (nonlinear_arith)
                requires
                    avail == self.pending@.len() / (ch as nat),
                    ch > 0,
            ;
            assert(shown * ch <= stride * ch && shown * ch <= avail * ch) by (nonlinear_arith)
                requires
                    shown <= stride,
                    shown <= avail,
            ;
            assert(consumed * ch <= avail * ch) by (nonlinear_arith)
                requires
                    consumed <= avail,
            ;
        }
        let limit = shown * ch;
        let muted = state.muted();
        let volume = state.volume_steps();
        let mut out: Vec<i32> = Vec::with_capacity(len);
        let mut i: usize = 0;
        while i < len
            invariant
                i <= len,
                limit <= self.pending@.len(),
                self@ == e,
                out@.len() == i,
                forall|j: int|
                    0 <= j < i ==> out@[j] == output_sample(e.pending, limit as int, muted, volume, j),
            decreases len - i,
        {
            let v: i32 = if i < limit && !muted {
                let s = self.pending[i];
                assert(-0x8000_0000 * 255 <= s as i64 * volume as i64 <= 0x7fff_ffff * 255)
                    by (nonlinear_arith)
                    requires
                        0 <= volume <= 255,
                        -0x8000_0000 <= s <= 0x7fff_ffff,
                ;
                let p = s as i64 * volume as i64;
                assert(-0x8000_0000 <= p / 255 <= 0x7fff_ffff);
                (p / 255) as i32
            } else {
                0
            };
            out.push(v);
            i = i + 1;
        }
        *dst = out;
        let drop = consumed * ch;
        let mut k: usize = 0;
        assert(e.pending.skip(0) =~= e.pending);
        while k < drop
            invariant
                k <= drop,
                drop <= e.pending.len(),
                self@ == (EngineModel { pending: e.pending.skip(k as int), ..e }),
            decreases drop - k,
        {
            self.pending.pop_front();
            assert(self.pending@ =~= e.pending.skip(k + 1));
            k = k + 1;
        }
        assert(stride as u128 * 1000 <= 0xffff_ffff_ffff_ffff * 1000) by (nonlinear_arith)
            requires
                stride <= 0xffff_ffff_ffff_ffff,
        ;
        let total = stride as u128 * 1000 + self.carry as u128;
        let rate = self.sample_rate as u128;
        let ms = total / rate;
        self.carry = (total % rate) as u64;
        let ms_capped: i64 = if ms > i64::MAX as u128 {
            i64::MAX
        } else {
            ms as i64
        };
        state.incr_audio_pts(ms_capped);
        if avail < stride && self.underruns < u64::MAX {
            self.underruns = self.underruns + 1;
        }
        proof {
            assert(drop as int == consumed * ch);
            lemma_fundamental_div_mod(e.pending.len() as int, ch as int);
            let kk = (e.pending.len() as int) / (ch as int);
            assert(self.pending@.len() == (kk - consumed) * ch) by (nonlinear_arith)
                requires
                    e.pending.len() == ch * kk + 0,
                    self.pending@.len() == e.pending.len() - drop,
                    drop == consumed * ch,
            ;
            lemma_fundamental_div_mod_converse(
                self.pending@.len() as int,
                ch as int,
                kk - consumed,
                0,
            );
        }
    }

    /// Drains the audio queue until `frames` frames are pending, waiting at
    /// most `POLL_WAIT_MS` per poll and giving up after `MAX_MISSED_POLLS`
    /// polls that bring nothing. The first chunk since playback started
    /// also advances the audio time by the output latency `latency_ms`.
    pub fn fill(
        &mut self,
        state: &mut SharedPlaybackState,
        rx: &Receiver<AudioSamples>,
        frames: usize,
        latency_ms: u32,
    )
        requires
            old(self).wf(),
        ensures
            final(self).wf(),
            final(self)@.channels == old(self)@.channels,
            final(self)@.sample_rate == old(self)@.sample_rate,
            final(self)@.carry == old(self)@.carry,
            final(self)@.underruns == old(self)@.underruns,
            old(self)@.pending.is_prefix_of(final(self)@.pending),
            final(self)@ == engine_after_fill(old(self)@, final(self)@.pending),
            final(state)@ == state_after_fill(old(self)@, old(state)@, final(self)@.pending, latency_ms),
    {
        let ghost e = self@;
        let ghost m = state@;
        let mut misses: u32 = 0;
        while self.pending.len() / self.channels < frames && misses < MAX_MISSED_POLLS
            invariant
                self.wf(),
                self@.channels == e.channels,
                self@.sample_rate == e.sample_rate,
                self@.carry == e.carry,
                self@.underruns == e.underruns,
                e.pending.is_prefix_of(self@.pending),
                self@ == engine_after_fill(e, self@.pending),
                state@ == state_after_fill(e, m, self@.pending, latency_ms),
            decreases (MAX_MISSED_POLLS - misses) as int + (if self@.pending.len() / self@.channels
                < frames {
                frames - self@.pending.len() / self@.channels
            } else {
                0
            }),
        {
            let ghost before = self@.pending;
            match receive_within(rx, POLL_WAIT_MS) {
                Some(chunk) => {
                    if chunk.samples == 0 {
                        misses = misses + 1;
                    } else {
                        self.push_chunk(&chunk);
                        if !self.anchored {
                            state.incr_audio_pts(latency_ms as i64);
                            self.anchored = true;
                        }
                        proof {
                            let ch = self.channels as int;
                            assert(interleaved(chunk, ch as nat).len() == chunk.samples * ch);
                            lemma_fundamental_div_mod(before.len() as int, ch);
                            let kk = (before.len() as int) / ch;
                            assert(self@.pending.len() == (kk + chunk.samples) * ch) by (nonlinear_arith)
                                requires
                                    before.len() == ch * kk + 0,
                                    self@.pending.len() == before.len() + chunk.samples * ch,
                            ;
                            lemma_fundamental_div_mod_converse(
                                self@.pending.len() as int,
                                ch,
                                kk + chunk.samples,
                                0,
                            );
                            lemma_fundamental_div_mod_converse(before.len() as int, ch, kk, 0);
                            assert(e.pending.is_prefix_of(self@.pending)) by {
                                assert forall|j: int| 0 <= j < e.pending.len() implies e.pending[j]
                                    == self@.pending[j] by {
                                    assert(before[j] == self@.pending[j]);
                                }
                            }
                        }
                    }
                },
                None => {
                    misses = misses + 1;
                },
            }
        }
    }

    /// One callback of the audio output: `dst` holds `dst.len() / channels`
    /// interleaved frames per channel, and every sample of it is written.
    /// Stopped or paused, the output is silence and nothing else changes:
    /// no audio is taken from the queue and the audio time stands still.
    /// Running, the queue is drained for what the callback needs at the
    /// current speed (`filled` is what is then pending), and that audio is
    /// played as [`AudioEngine::render_pending`] says: the audio time
    /// advances by the callback's length, plus the output latency once,
    /// when the first audio ever arrives.
    pub fn render(
        &mut self,
        state: &mut SharedPlaybackState,
        rx: &Receiver<AudioSamples>,
        dst: &mut Vec<i32>,
        latency_ms: u32,
    )
        requires
            old(self).wf(),
        ensures
            final(self).wf(),
            final(dst)@.len() == old(dst)@.len(),
            !is_running(old(state)@.state) ==> {
                &&& forall|i: int| 0 <= i < final(dst)@.len() ==> final(dst)@[i] == 0
                &&& final(state)@ == old(state)@
                &&& final(self)@ == old(self)@
            },
            is_running(old(state)@.state) ==> {
                &&& old(state)@.audio_pts_ms <= final(state)@.audio_pts_ms
                &&& exists|filled: Seq<i32>|
                    #[trigger] old(self)@.pending.is_prefix_of(filled) && {
                        let e1 = engine_after_fill(old(self)@, filled);
                        let m1 = state_after_fill(old(self)@, old(state)@, filled, latency_ms);
                        &&& final(self)@ == engine_after_render(e1, m1, old(dst)@.len())
                        &&& final(state)@ == state_after_render(e1, m1, old(dst)@.len())
                        &&& forall|i: int|
                            0 <= i < final(dst)@.len() ==> final(dst)@[i] == render_output(
                                e1,
                                m1,
                                old(dst)@.len(),
                                i,
                            )
                    }
            },
            old(state)@.muted ==> forall|i: int|
                0 <= i < final(dst)@.len() ==> final(dst)@[i] == 0,
    {
        let st = state.state();
        if st != PlayerState::Stopped && st != PlayerState::Paused {
            let stride = dst.len() / self.channels;
            assert(stride as u128 * state@.speed as u128 <= 0xffff_ffff_ffff_ffff * 255) by (nonlinear_arith)
                requires
                    stride <= 0xffff_ffff_ffff_ffff,
                    state@.speed <= 255,
            ;
            let want = stride as u128 * state.speed_steps() as u128 / NORMAL_SPEED_STEPS as u128;
            let frames: usize = if want <= stride as u128 {
                stride
            } else if want > usize::MAX as u128 {
                usize::MAX
            } else {
                want as usize
            };
            self.fill(state, rx, frames, latency_ms);
        }
        let ghost filled = self@.pending;
        self.render_pending(state, dst);
        assert(is_running(old(state)@.state) ==> old(self)@.pending.is_prefix_of(filled));
        assert(!is_running(old(state)@.state) ==> filled == old(self)@.pending);
    }

    /// Appends a chunk of decoded audio, frame by frame, across this
    /// engine's channels. Channels the chunk lacks are silent; channels it
    /// has beyond the engine's are left out.
    pub fn push_chunk(&mut self, chunk: &AudioSamples)
        requires
            old(self).wf(),
        ensures
            final(self).wf(),
            final(self)@ == (EngineModel {
                pending: old(self)@.pending + interleaved(*chunk, old(self)@.channels),
                ..old(self)@
            }),
    {
        let ghost start = self.pending@;
        let ghost ch = self.channels as int;
        let ghost full = interleaved(*chunk, self.channels as nat);
        let mut f: usize = 0;
        while f < chunk.samples
            invariant
                self.wf(),
                ch == self.channels as int,
                (start.len() as int) % ch == 0,
                f <= chunk.samples,
                full == interleaved(*chunk, ch as nat),
                self@ == (EngineModel { pending: start + full.take(f * ch), ..old(self)@ }),
            decreases chunk.samples - f,
        {
            let mut c: usize = 0;
            while c < self.channels
                invariant
                    1 <= self.channels <= 255,
                    self.sample_rate > 0,
                    self.carry < self.sample_rate,
                    (c == 0 || c == ch) ==> (self.pending@.len() as int) % ch == 0,
                    ch == self.channels as int,
                    (start.len() as int) % ch == 0,
                    f < chunk.samples,
                    c <= ch,
                    full == interleaved(*chunk, ch as nat),
                    self@ == (EngineModel {
                        pending: start + full.take(f * ch + c),
                        ..old(self)@
                    }),
                decreases ch - c,
            {
                let v: i32 = if c < chunk.data.len() && f < chunk.data[c].len() {
                    chunk.data[c][f]
                } else {
                    0
                };
                proof {
                    lemma_frame_index(ch, f as int, c as int);
                    assert(f * ch + c < chunk.samples * ch) by (nonlinear_arith)
                        requires
                            f < chunk.samples,
                            c < ch,
                    ;
                    assert(full[f * ch + c] == v);
                    assert(full.take(f * ch + c + 1) =~= full.take(f * ch + c).push(v));
                }
                self.pending.push_back(v);
                proof {
                    assert(self.pending@ =~= start + full.take(f * ch + c + 1));
                    assert(self.pending@.len() == start.len() + f * ch + c + 1) by {
                        assert(f * ch + c + 1 <= chunk.samples * ch) by (nonlinear_arith)
                            requires
                                f < chunk.samples,
                                c < ch,
                        ;
                    }
                    if c + 1 == ch {
                        assert((self.pending@.len() as int) % ch == 0) by {
                            let k = (start.len() as int) / ch;
                            lemma_fundamental_div_mod(start.len() as int, ch);
                            assert(self.pending@.len() == (k + f + 1) * ch) by (nonlinear_arith)
                                requires
                                    start.len() == ch * k + 0,
                                    self.pending@.len() == start.len() + f * ch + c + 1,
                                    c + 1 == ch,
                            ;
                            lemma_fundamental_div_mod_converse(
                                self.pending@.len() as int,
                                ch,
                                k + f + 1,
                                0,
                            );
                        }
                    }
                }
                c = c + 1;
            }
            assert(f * ch + ch == (f + 1) * ch) by (nonlinear_arith);
            f = f + 1;
        }
        proof {
            assert(full.len() == chunk.samples * ch);
            assert(full.take(chunk.samples * ch) =~= full);
        }
    }
}

} // verus!
