//! The output stage: what the device callback does with the samples.
//!
//! The stage holds the samples that have arrived from the decode worker,
//! interleaved left and right. For every frame that the device asks for it
//! takes one pair from them and writes it across the device's channels. When
//! the samples run out it repeats the last pair, so that the signal holds
//! its level instead of dropping to zero. It never waits.
//!
//! What it writes is not yet scaled by the volume: the caller multiplies each
//! sample as it converts it to the device's format.

use std::collections::VecDeque;
use vstd::prelude::*;
use crate::rt::RtState;

verus! {

/// Number of frames that `queue` can still give: its pairs, and one more for
/// a single sample left at the end.
pub open spec fn pairs_available(queue: Seq<u32>) -> nat {
    ((queue.len() + 1) / 2) as nat
}

/// The `i`-th frame in `queue`; a single last sample stands on both sides.
pub open spec fn pair_at(queue: Seq<u32>, i: int) -> (u32, u32) {
    if 2 * i + 1 < queue.len() {
        (queue[2 * i], queue[2 * i + 1])
    } else {
        (queue[2 * i], queue[2 * i])
    }
}

/// The `i`-th frame that is played from `queue` after `last` was played:
/// the `i`-th frame of the queue while it lasts, then the last frame known.
pub open spec fn rendered_frame(queue: Seq<u32>, last: (u32, u32), i: int) -> (u32, u32) {
    let p = pairs_available(queue);
    if i < p {
        pair_at(queue, i)
    } else if p > 0 {
        pair_at(queue, p - 1)
    } else {
        last
    }
}

/// The `frames` frames that are played from `queue` after `last`.
pub open spec fn rendered(queue: Seq<u32>, last: (u32, u32), frames: nat) -> Seq<(u32, u32)> {
    Seq::new(frames, |i: int| rendered_frame(queue, last, i))
}

/// The last frame known after `frames` frames were played.
pub open spec fn last_after(queue: Seq<u32>, last: (u32, u32), frames: nat) -> (u32, u32) {
    if frames == 0 {
        last
    } else {
        rendered_frame(queue, last, frames - 1)
    }
}

/// How many frames are taken from `queue` when `frames` are played.
pub open spec fn consumed_pairs(queue: Seq<u32>, frames: nat) -> nat {
    if frames <= pairs_available(queue) {
        frames
    } else {
        pairs_available(queue)
    }
}

/// How many samples are taken from `queue` when `frames` are played.
pub open spec fn consumed_samples(queue: Seq<u32>, frames: nat) -> nat {
    if 2 * frames <= queue.len() {
        2 * frames
    } else {
        queue.len()
    }
}

/// One frame across `channels` device channels: the left sample on the even
/// channels, the right sample on the odd ones. A single channel carries the
/// left sample.
pub open spec fn row(frame: (u32, u32), channels: nat) -> Seq<u32> {
    Seq::new(
        channels,
        |c: int|
            if c % 2 == 0 {
                frame.0
            } else {
                frame.1
            },
    )
}

/// The device buffer for `frames`: one [`row`] after another.
pub open spec fn spread(frames: Seq<(u32, u32)>, channels: nat) -> Seq<u32>
    decreases frames.len(),
{
    if frames.len() == 0 {
        Seq::empty()
    } else {
        spread(frames.drop_last(), channels) + row(frames.last(), channels)
    }
}

/// `n` samples of silence.
pub open spec fn silence(n: nat) -> Seq<u32> {
    Seq::new(n, |i: int| 0u32)
}

/// The device buffer holds `channels` samples for each frame.
pub proof fn lemma_spread_len(frames: Seq<(u32, u32)>, channels: nat)
    ensures
        spread(frames, channels).len() == frames.len() * channels,
    decreases frames.len(),
{
    if frames.len() > 0 {
        lemma_spread_len(frames.drop_last(), channels);
        assert((frames.len() - 1) * channels + channels == frames.len() * channels)
            by (nonlinear_arith);
    } else {
        assert(0 * channels == 0) by (nonlinear_arith);
    }
}

/// Sample `c` of frame `i` in the device buffer is the left sample of the
/// `i`-th frame for even `c`, its right sample for odd `c`.
pub proof fn law_channels_replicate(frames: Seq<(u32, u32)>, channels: nat, i: int, c: int)
    requires
        0 <= i < frames.len(),
        0 <= c < channels,
    ensures
        0 <= i * channels + c < spread(frames, channels).len(),
        spread(frames, channels)[i * channels + c] == (if c % 2 == 0 {
            frames[i].0
        } else {
            frames[i].1
        }),
    decreases frames.len(),
{
    lemma_spread_len(frames, channels);
    lemma_spread_len(frames.drop_last(), channels);
    let n = frames.len() as int;
    let ch = channels as int;
    assert(0 <= i * ch + c && i * ch + c < n * ch) by (nonlinear_arith)
        requires
            0 <= i < n,
            0 <= c < ch;
    if i == n - 1 {
        assert(spread(frames, channels)[i * ch + c] == row(frames.last(), channels)[c]);
    } else {
        law_channels_replicate(frames.drop_last(), channels, i, c);
        assert(i * ch + c < (n - 1) * ch) by (nonlinear_arith)
            requires
                0 <= i < n - 1,
                0 <= c < ch;
    }
}

/// What the stage holds, as mathematics.
pub struct StageState {
    /// Samples that have arrived, interleaved, oldest first.
    pub queue: Seq<u32>,
    /// The last frame played.
    pub last: (u32, u32),
    /// Channel count of the device.
    pub channels: nat,
    /// Token of the session that the stage belongs to.
    pub generation: u64,
}

/// Whether a callback of the stage of session `generation` does nothing but
/// write silence under `rt`: the state belongs to another session, or it
/// asks for silence.
pub open spec fn inert(rt: RtState, generation: u64) -> bool {
    rt.generation != generation || rt.silenced()
}

/// Number of frames in a device buffer of `requested` samples.
pub open spec fn frames_in(requested: nat, channels: nat) -> nat {
    if channels == 0 {
        0
    } else {
        requested / channels
    }
}

/// The stage after a callback that played `frames` frames.
pub open spec fn played(s: StageState, frames: nat) -> StageState {
    StageState {
        queue: s.queue.skip(consumed_samples(s.queue, frames) as int),
        last: last_after(s.queue, s.last, frames),
        ..s
    }
}

/// One callback as mathematics: the stage afterwards, the samples written
/// for a device buffer of `requested` samples, and the number of frames
/// taken from the samples held. An inert callback writes silence and
/// leaves the stage as it is.
pub open spec fn callback(s: StageState, rt: RtState, requested: nat) -> (
    StageState,
    Seq<u32>,
    nat,
) {
    if inert(rt, s.generation) {
        (s, silence(requested), 0)
    } else {
        let frames = frames_in(requested, s.channels);
        (
            played(s, frames),
            spread(rendered(s.queue, s.last, frames), s.channels),
            consumed_pairs(s.queue, frames),
        )
    }
}

/// The output stage of one session.
pub struct OutputStage {
    queue: VecDeque<u32>,
    last: (u32, u32),
    channels: usize,
    generation: u64,
}

impl View for OutputStage {
    type V = StageState;

    closed spec fn view(&self) -> StageState {
        StageState {
            queue: self.queue@,
            last: self.last,
            channels: self.channels as nat,
            generation: self.generation,
        }
    }
}

impl OutputStage {
    /// An empty stage for a device with `channels` channels, owned by the
    /// session with token `generation`. The last frame known is silence.
    pub fn new(channels: usize, generation: u64) -> (r: Self)
        ensures
            r@ == (StageState {
                queue: Seq::empty(),
                last: (0u32, 0u32),
                channels: channels as nat,
                generation,
            }),
    {
        OutputStage { queue: VecDeque::new(), last: (0u32, 0u32), channels, generation }
    }

    /// Number of samples that have arrived and were not yet played.
    pub fn queued_samples(&self) -> (n: usize)
        ensures
            n == self@.queue.len(),
    {
        self.queue.len()
    }

    /// Whether a callback under `rt` does nothing but write silence.
    pub fn is_inert(&self, rt: &RtState) -> (r: bool)
        ensures
            r == inert(*rt, self@.generation),
    {
        rt.generation != self.generation || rt.is_silenced()
    }

    /// Whether a callback for `requested` samples should first look for
    /// another batch: fewer than two samples are held for each of its frames.
    pub fn wants_more(&self, requested: usize) -> (r: bool)
        ensures
            r == (self@.queue.len() < 2 * frames_in(requested as nat, self@.channels)),
    {
        if self.channels == 0 {
            return false;
        }
        let frames: usize = requested / self.channels;
        (self.queue.len() as u128) < 2 * (frames as u128)
    }

    /// Takes in a batch from the decode worker, behind what is held.
    pub fn accept(&mut self, batch: &Vec<u32>)
        ensures
            final(self)@ == (StageState { queue: old(self)@.queue + batch@, ..old(self)@ }),
    {
        let ghost before = self.queue@;
        let mut i: usize = 0;
        while i < batch.len()
            invariant
                0 <= i <= batch@.len(),
                self.queue@ == before + batch@.take(i as int),
                self.last == old(self).last,
                self.channels == old(self).channels,
                self.generation == old(self).generation,
            decreases batch@.len() - i,
        {
            self.queue.push_back(batch[i]);
            assert(self.queue@ =~= before + batch@.take(i as int + 1));
            i += 1;
        }
        assert(batch@.take(i as int) =~= batch@);
    }

    /// Whether playback has come to its end, asked when the queue from the
    /// decode worker turns out to be closed: nothing is held any more and
    /// the worker has decoded the stream to its end.
    pub fn exhausted(&self, decoder_finished: bool) -> (r: bool)
        ensures
            r == (self@.queue.len() == 0 && decoder_finished),
    {
        self.queue.len() == 0 && decoder_finished
    }

    fn write_silence(requested: usize, out: &mut Vec<u32>)
        ensures
            final(out)@ == silence(requested as nat),
    {
        out.clear();
        let mut i: usize = 0;
        while i < requested
            invariant
                0 <= i <= requested,
                out@ == silence(i as nat),
            decreases requested - i,
        {
            out.push(0u32);
            assert(out@ =~= silence((i + 1) as nat));
            i += 1;
        }
    }

    fn next_frame(&mut self) -> (r: ((u32, u32), bool))
        ensures
            old(self)@.queue.len() >= 2 ==> r == ((old(self)@.queue[0], old(self)@.queue[1]), true)
                && final(self)@.queue == old(self)@.queue.skip(2),
            old(self)@.queue.len() == 1 ==> r == ((old(self)@.queue[0], old(self)@.queue[0]), true)
                && final(self)@.queue == old(self)@.queue.skip(1),
            old(self)@.queue.len() == 0 ==> r == (old(self)@.last, false) && final(self)@.queue
                == old(self)@.queue,
            final(self)@.last == r.0,
            final(self)@.channels == old(self)@.channels,
            final(self)@.generation == old(self)@.generation,
    {
        let ghost before = self.queue@;
        let first = self.queue.pop_front();
        match first {
            Some(l) => {
                let second = self.queue.pop_front();
                let r = match second {
                    Some(r) => r,
                    None => l,
                };
                assert(before.len() >= 2 ==> self.queue@ =~= before.skip(2));
                assert(before.len() == 1 ==> self.queue@ =~= before.skip(1));
                self.last = (l, r);
                ((l, r), true)
            },
            None => (self.last, false),
        }
    }

    fn write_row(frame: (u32, u32), channels: usize, out: &mut Vec<u32>)
        ensures
            final(out)@ == old(out)@ + row(frame, channels as nat),
    {
        let ghost before = out@;
        let mut c: usize = 0;
        while c < channels
            invariant
                0 <= c <= channels,
                out@ == before + row(frame, channels as nat).take(c as int),
            decreases channels - c,
        {
            let sample = if c % 2 == 0 {
                frame.0
            } else {
                frame.1
            };
            out.push(sample);
            assert(out@ =~= before + row(frame, channels as nat).take(c as int + 1));
            c += 1;
        }
        assert(row(frame, channels as nat).take(c as int) =~= row(frame, channels as nat));
    }

    /// One callback of the device, which asks for `requested` samples. They
    /// are written to `out`, whatever it held.
    ///
    /// Where `rt` belongs to another session, or asks for silence, `out` is
    /// all silence and the stage is untouched. Otherwise `out` holds
    /// `requested / channels` frames, each taken from the samples held, or
    /// the last frame again where none is left. Returns the number of
    /// frames that were taken from the samples held, which is what the
    /// position advances by.
    pub fn process(&mut self, rt: &RtState, requested: usize, out: &mut Vec<u32>) -> (taken: u64)
        ensures
            (final(self)@, final(out)@, taken as nat) == callback(
                old(self)@,
                *rt,
                requested as nat,
            ),
    {
        if self.is_inert(rt) {
            Self::write_silence(requested, out);
            return 0;
        }
        out.clear();
        let frames: usize = if self.channels == 0 {
            0
        } else {
            requested / self.channels
        };
        let ghost q0 = self.queue@;
        let ghost last0 = self.last;
        let ghost ch = self.channels as nat;
        let held: usize = self.queue.len();
        let mut taken: u64 = 0;
        let mut i: usize = 0;
        assert(q0.skip(0) =~= q0);
        while i < frames
            invariant
                0 <= i <= frames,
                held == q0.len(),
                ch == self.channels,
                self.generation == old(self).generation,
                self.channels == old(self).channels,
                self.queue@ == q0.skip(consumed_samples(q0, i as nat) as int),
                self.last == last_after(q0, last0, i as nat),
                taken == consumed_pairs(q0, i as nat),
                out@ == spread(rendered(q0, last0, i as nat), ch),
            decreases frames - i,
        {
            let ghost cur = self.queue@;
            let (frame, fresh) = self.next_frame();
            proof {
                let n = q0.len() as int;
                let k = consumed_samples(q0, i as nat) as int;
                if cur.len() >= 2 {
                    assert(cur[0] == q0[k] && cur[1] == q0[k + 1]);
                    assert(self.queue@ =~= q0.skip(k + 2));
                } else if cur.len() == 1 {
                    assert(cur[0] == q0[k]);
                    assert(self.queue@ =~= q0.skip(k + 1));
                }
                assert(frame == rendered_frame(q0, last0, i as int));
                let next = rendered(q0, last0, (i + 1) as nat);
                assert(next.drop_last() =~= rendered(q0, last0, i as nat));
                assert(next.last() == frame);
            }
            Self::write_row(frame, self.channels, out);
            if fresh {
                taken += 1;
            }
            i += 1;
        }
        taken
    }
}

/// A session that is not the current one is inert. However its callback is
/// invoked, and whatever it still holds, it writes silence only, keeps what
/// it holds and takes no frame, so that no position advances: nothing of an
/// earlier session is heard once the state belongs to a new one.
pub proof fn law_stale_session_is_inert(s: StageState, rt: RtState, requested: nat)
    requires
        rt.generation != s.generation,
    ensures
        callback(s, rt, requested) == (s, silence(requested), 0nat),
{
}

/// While a session is paused, stopped or finished its callbacks write
/// silence and take nothing; the position stands still.
pub proof fn law_silenced_callback_takes_nothing(s: StageState, rt: RtState, requested: nat)
    requires
        rt.silenced(),
    ensures
        callback(s, rt, requested) == (s, silence(requested), 0nat),
        rt.advanced(callback(s, rt, requested).2 as u64) == rt.samples_played,
{
}

/// A callback never takes more frames than the device asked for, and takes
/// a frame for each one asked while samples are held: the position advances
/// by exactly the frames that were heard from the stream, and never falls.
pub proof fn law_position_follows_the_callback(s: StageState, rt: RtState, requested: nat)
    requires
        requested <= u64::MAX,
    ensures
        callback(s, rt, requested).2 <= frames_in(requested, s.channels),
        callback(s, rt, requested).2 <= requested,
        !inert(rt, s.generation) && 2 * frames_in(requested, s.channels) <= s.queue.len()
            ==> callback(s, rt, requested).2 == frames_in(requested, s.channels),
        rt.advanced(callback(s, rt, requested).2 as u64) >= rt.samples_played,
        !rt.is_paused && rt.samples_played + callback(s, rt, requested).2 <= u64::MAX
            ==> rt.advanced(callback(s, rt, requested).2 as u64) == rt.samples_played + callback(
            s,
            rt,
            requested,
        ).2,
{
    let frames = frames_in(requested, s.channels);
    if s.channels > 0 {
        assert(requested / s.channels <= requested) by (nonlinear_arith)
            requires
                s.channels > 0,
                requested >= 0;
    }
}

/// One step in the life of a stage: a batch arrives, or the device asks
/// for samples under the shared state of that moment.
pub enum StageStep {
    Accept(Seq<u32>),
    Callback { rt: RtState, requested: nat },
}

/// The stage after one step.
pub open spec fn stage_step(s: StageState, step: StageStep) -> StageState {
    match step {
        StageStep::Accept(batch) => StageState { queue: s.queue + batch, ..s },
        StageStep::Callback { rt, requested } => callback(s, rt, requested).0,
    }
}

/// The stage after the steps of `run`.
pub open spec fn stage_after(s: StageState, run: Seq<StageStep>) -> StageState
    decreases run.len(),
{
    if run.len() == 0 {
        s
    } else {
        stage_after(stage_step(s, run[0]), run.skip(1))
    }
}

/// The frames taken by all the callbacks of `run`.
pub open spec fn taken_over(s: StageState, run: Seq<StageStep>) -> nat
    decreases run.len(),
{
    if run.len() == 0 {
        0
    } else {
        (match run[0] {
            StageStep::Accept(_) => 0nat,
            StageStep::Callback { rt, requested } => callback(s, rt, requested).2,
        }) + taken_over(stage_step(s, run[0]), run.skip(1))
    }
}

/// The samples that arrive over `run`.
pub open spec fn arriving(run: Seq<StageStep>) -> nat
    decreases run.len(),
{
    if run.len() == 0 {
        0
    } else {
        (match run[0] {
            StageStep::Accept(batch) => batch.len(),
            StageStep::Callback { .. } => 0nat,
        }) + arriving(run.skip(1))
    }
}

/// Whether every batch of `run` holds whole frames.
pub open spec fn whole_frames(run: Seq<StageStep>) -> bool {
    forall|i: int| 0 <= i < run.len() ==> match #[trigger] run[i] {
        StageStep::Accept(batch) => batch.len() % 2 == 0,
        StageStep::Callback { .. } => true,
    }
}

/// Over any run of batches and callbacks, live or inert, the frames taken
/// are exactly the frames that arrived and are no longer held: every frame
/// of the stream is counted once, when it is played, and a frame that is
/// repeated while the stage runs dry is not counted. A stage that is empty
/// at the end has counted every frame that it was given.
pub proof fn law_every_frame_is_counted_once(s: StageState, run: Seq<StageStep>)
    requires
        s.queue.len() % 2 == 0,
        whole_frames(run),
    ensures
        stage_after(s, run).queue.len() % 2 == 0,
        2 * taken_over(s, run) + stage_after(s, run).queue.len() == s.queue.len() + arriving(run),
    decreases run.len(),
{
    if run.len() > 0 {
        let next = stage_step(s, run[0]);
        let rest = run.skip(1);
        assert(whole_frames(rest)) by {
            assert(forall|i: int| 0 <= i < rest.len() ==> rest[i] == run[i + 1]);
        }
        assert(run[0] == run[0int]);
        match run[0] {
            StageStep::Accept(batch) => {
                assert(batch.len() % 2 == 0);
            },
            StageStep::Callback { rt, requested } => {},
        }
        law_every_frame_is_counted_once(next, rest);
    }
}

} // verus!
