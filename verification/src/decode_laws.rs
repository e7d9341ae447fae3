//! What holds of the decode worker over a whole run.

use vstd::prelude::*;
use crate::batch::BATCH_MAX_SAMPLES;
use crate::decode::{queued, transition, Command, DecodeEvent, Event, Phase, WorkerState};
use crate::frames::{interleave, lemma_interleave_concat, paired, silent_frames};
use crate::packet::{frame_limit, PLAYBACK_LIMIT_SECONDS};
use crate::pending::{tail_frames, BLOCK_FRAMES, PENDING_MAX};
use crate::resample::conversion_needed;

verus! {

/// The samples that a command puts on the queue.
pub open spec fn sent(c: Command) -> Seq<u32> {
    match c {
        Command::Send(batch) => batch,
        _ => Seq::empty(),
    }
}

/// The samples that the worker holds, in the order in which they will leave.
pub open spec fn buffered(s: WorkerState) -> Seq<u32> {
    s.batch + interleave(s.pending)
}

/// The frames that the worker takes in with an event: those of a decoded
/// packet that it was waiting for.
pub open spec fn accepted(s: WorkerState, event: Event) -> Seq<(u32, u32)> {
    match event {
        Event::Decoded(DecodeEvent::Frames(packet)) => if s.phase == Phase::Decoding
            && packet.frames > 0 {
            packet.usable(frame_limit(s.source_rate, PLAYBACK_LIMIT_SECONDS) as u64)
        } else {
            Seq::empty()
        },
        _ => Seq::empty(),
    }
}

/// Whether the worker still runs.
pub open spec fn running(s: WorkerState) -> bool {
    s.phase != Phase::Stopped
}

/// States that a worker for a stream at the device's rate can be in: no
/// frame waits for the resampler, and nothing is awaited from it.
pub open spec fn bypassing(s: WorkerState) -> bool {
    &&& !conversion_needed(s.source_rate, s.target_rate)
    &&& s.pending.len() == 0
    &&& s.phase != Phase::Resampling
    &&& s.phase != Phase::DrainingBlock
    &&& s.phase != Phase::DrainingFlush
}

/// With equal rates the worker passes samples through untouched: after
/// any event, what was put on the queue followed by what is still held is
/// what was held before followed by the frames that came in, bit for bit
/// and in order, however many frames a packet brings. The resampler is
/// never asked.
pub proof fn law_bypass_is_identity(s: WorkerState, event: Event, now: u64)
    requires
        bypassing(s),
    ensures
        bypassing(transition(s, event, now).0),
        sent(transition(s, event, now).1) + buffered(transition(s, event, now).0) == buffered(s)
            + interleave(accepted(s, event)),
        !(transition(s, event, now).1 is Resample),
        !(transition(s, event, now).1 is FlushResampler),
{
    let (t, c) = transition(s, event, now);
    assert(interleave(Seq::<(u32, u32)>::empty()) =~= Seq::<u32>::empty());
    assert(s.pending =~= Seq::<(u32, u32)>::empty());
    assert(s.pending + accepted(s, event) =~= accepted(s, event));
    match event {
        Event::Decoded(DecodeEvent::Frames(packet)) => {
            assert(queued(s.pending, packet, s.source_rate, s.target_rate) == s.pending
                + packet.usable(frame_limit(s.source_rate, PLAYBACK_LIMIT_SECONDS) as u64));
        },
        _ => {},
    }
    assert(sent(c) + buffered(t) =~= buffered(s) + interleave(accepted(s, event)));
}

/// The state after the events of `run`, each with its time of arrival.
pub open spec fn state_after(s: WorkerState, run: Seq<(Event, u64)>) -> WorkerState
    decreases run.len(),
{
    if run.len() == 0 {
        s
    } else {
        state_after(transition(s, run[0].0, run[0].1).0, run.skip(1))
    }
}

/// Everything put on the queue over the events of `run`, in order.
pub open spec fn sent_over(s: WorkerState, run: Seq<(Event, u64)>) -> Seq<u32>
    decreases run.len(),
{
    if run.len() == 0 {
        Seq::empty()
    } else {
        let (t, c) = transition(s, run[0].0, run[0].1);
        sent(c) + sent_over(t, run.skip(1))
    }
}

/// Every frame taken in over the events of `run`, in order.
pub open spec fn accepted_over(s: WorkerState, run: Seq<(Event, u64)>) -> Seq<(u32, u32)>
    decreases run.len(),
{
    if run.len() == 0 {
        Seq::empty()
    } else {
        accepted(s, run[0].0) + accepted_over(
            transition(s, run[0].0, run[0].1).0,
            run.skip(1),
        )
    }
}

/// Over any run of a worker whose stream has the device's rate, the samples
/// put on the queue followed by those still held are exactly the decoded
/// input: the samples held at the start followed by every frame that came
/// in, bit for bit, none lost, none added, none out of order.
pub proof fn law_bypass_output_is_input(s: WorkerState, run: Seq<(Event, u64)>)
    requires
        bypassing(s),
    ensures
        bypassing(state_after(s, run)),
        sent_over(s, run) + buffered(state_after(s, run)) == buffered(s) + interleave(
            accepted_over(s, run),
        ),
    decreases run.len(),
{
    if run.len() == 0 {
        assert(interleave(Seq::<(u32, u32)>::empty()) =~= Seq::<u32>::empty());
        assert(sent_over(s, run) + buffered(s) =~= buffered(s) + Seq::<u32>::empty());
    } else {
        let (t, c) = transition(s, run[0].0, run[0].1);
        let rest = run.skip(1);
        law_bypass_is_identity(s, run[0].0, run[0].1);
        law_bypass_output_is_input(t, rest);
        lemma_interleave_concat(accepted(s, run[0].0), accepted_over(t, rest));
        let last = state_after(t, rest);
        assert(state_after(s, run) == last);
        assert(sent_over(s, run) == sent(c) + sent_over(t, rest));
        assert(accepted_over(s, run) == accepted(s, run[0].0) + accepted_over(t, rest));
        // sent(c) + (sent_over(t) + buffered(last)) == sent(c) + buffered(t) + rest input
        assert((sent(c) + sent_over(t, rest)) + buffered(last) =~= sent(c) + (sent_over(t, rest)
            + buffered(last)));
        assert(sent(c) + (buffered(t) + interleave(accepted_over(t, rest))) =~= (sent(c)
            + buffered(t)) + interleave(accepted_over(t, rest)));
        assert((buffered(s) + interleave(accepted(s, run[0].0))) + interleave(
            accepted_over(t, rest),
        ) =~= buffered(s) + (interleave(accepted(s, run[0].0)) + interleave(
            accepted_over(t, rest),
        )));
    }
}

/// A worker that has ended stays ended: every event leaves it as it is and
/// is answered with `Ignored`, so nothing is sent after the queue closed.
pub proof fn law_stopped_is_final(s: WorkerState, event: Event, now: u64)
    requires
        !running(s),
    ensures
        transition(s, event, now) == (s, Command::Ignored),
{
}

/// A batch that leaves while the stream runs is never empty and never longer
/// than [`BATCH_MAX_SAMPLES`]: a full one has exactly that length, one that
/// leaves on the timer is shorter. Only the last batch of a stream may be
/// longer.
pub proof fn law_streaming_batches_are_bounded(s: WorkerState, event: Event, now: u64)
    ensures
        ({
            let (t, c) = transition(s, event, now);
            &&& c is Send && t.phase == Phase::SendingFull ==> sent(c).len() == BATCH_MAX_SAMPLES
            &&& c is Send && t.phase == Phase::SendingTimed ==> 0 < sent(c).len()
                < BATCH_MAX_SAMPLES
        }),
{
    match event {
        Event::StopRequested => {},
        Event::Packet(p) => {},
        Event::Decoded(d) => {},
        Event::DecoderReset => {},
        Event::Resampled(r) => {},
        Event::Sent(delivered) => {},
    }
}

/// The frames that a command hands to the resampler.
pub open spec fn to_resampler(c: Command) -> Seq<(u32, u32)> {
    match c {
        Command::Resample { left, right } => paired(left, right),
        _ => Seq::empty(),
    }
}

/// Where the rates differ, every frame goes to the resampler once and in
/// the order in which it was decoded. A block is always [`BLOCK_FRAMES`]
/// long: it holds the oldest frames that wait, and silence behind them only
/// where the stream has ended. The frames that were not handed over wait
/// on, in order. This holds as long as no more than [`PENDING_MAX`] frames
/// wait; beyond that the oldest are dropped.
pub proof fn law_resampler_gets_frames_in_order(s: WorkerState, event: Event, now: u64)
    requires
        conversion_needed(s.source_rate, s.target_rate),
        s.pending.len() + accepted(s, event).len() <= PENDING_MAX,
    ensures
        ({
            let (t, c) = transition(s, event, now);
            let all = s.pending + accepted(s, event);
            &&& c is Resample ==> exists|n: nat|
                {
                    &&& 0 < n <= all.len()
                    &&& n <= BLOCK_FRAMES
                    &&& to_resampler(c) == all.take(n as int) + silent_frames((BLOCK_FRAMES - n) as nat)
                    &&& t.pending == all.skip(n as int)
                    &&& (n < BLOCK_FRAMES ==> t.phase == Phase::DrainingBlock)
                }
            &&& !(c is Resample) ==> t.pending == all
        }),
{
    let (t, c) = transition(s, event, now);
    let all = s.pending + accepted(s, event);
    assert(s.pending + Seq::<(u32, u32)>::empty() =~= s.pending);
    assert(all.skip(0) =~= all);
    if s.phase != Phase::Stopped {
        match event {
            Event::Decoded(DecodeEvent::Frames(packet)) => {
                if s.phase == Phase::Decoding && packet.frames > 0 {
                    assert(queued(s.pending, packet, s.source_rate, s.target_rate) == all);
                }
            },
            _ => {},
        }
    }
    if c is Resample {
        let n: nat = if t.phase == Phase::DrainingBlock {
            tail_frames(all.len())
        } else {
            BLOCK_FRAMES as nat
        };
        let block = all.take(n as int) + silent_frames((BLOCK_FRAMES - n) as nat);
        assert(silent_frames(0) =~= Seq::<(u32, u32)>::empty());
        assert(c->left.len() == block.len());
        assert(c->right.len() == block.len());
        assert(to_resampler(c) =~= block);
        assert(t.pending == all.skip(n as int));
        assert(0 < n <= all.len() && n <= BLOCK_FRAMES);
        assert(n < BLOCK_FRAMES ==> t.phase == Phase::DrainingBlock);
    }
}

} // verus!
