//! The decode worker: everything the decoding thread decides.
//!
//! The worker owns the frames that wait for the resampler and the batch
//! that is on its way to the output queue. It touches neither the file, the
//! codec, the resampler nor the queue. It says what is to be done next (an
//! [`Action`]) and is told how that went (an [`Event`]); the thread that
//! drives it performs the action and reports back.
//!
//! One packet travels `Scanning` (read until a packet of the chosen track
//! turns up), `Decoding`, `Resampling` (one block at a time, skipped when
//! the rates agree), then `SendingFull` and `SendingTimed` as far as the
//! batch is due, and back to `Scanning`. The end of the stream leads through
//! `DrainingBlock` and `DrainingFlush` to the last send; a stop request
//! leads there directly. `Stopped` is final.

use vstd::prelude::*;
use crate::batch::{flush_due, should_flush, take_all, take_full, BATCH_MAX_SAMPLES};
use crate::frames::{append_paired, interleave, lefts, paired, rights, silent_frames};
use crate::packet::{frame_limit, playback_frame_limit, DecodedPacket, PLAYBACK_LIMIT_SECONDS};
use crate::pending::{overflow, tail_frames, Block, PendingFrames, BLOCK_FRAMES};
use crate::resample::{
    append_resampled,
    conversion_needed,
    held,
    held_len,
    hold_resample,
    needs_resampling,
    resampled_frames,
};

verus! {

/// After this many packets in a row that decode to no frame at all, the
/// decoder is reset.
pub const MAX_ZERO_FRAME_PACKETS: u32 = 100;

/// What the worker is waiting for.
#[derive(Clone, Copy, Debug, PartialEq, Eq, Structural)]
pub enum Phase {
    /// For the next packet of the container.
    Scanning,
    /// For the decoder's result on the packet that was read.
    Decoding,
    /// For the decoder to be reset after the demuxer asked for it.
    ResettingInScan,
    /// For the decoder to be reset after a packet was given up.
    ResettingAfterDecode,
    /// For the resampler's output on a full block.
    Resampling,
    /// For the queue to take a batch of full length.
    SendingFull,
    /// For the queue to take a batch that left on the timer.
    SendingTimed,
    /// For the resampler's output on the last, padded block.
    DrainingBlock,
    /// For what the resampler still held.
    DrainingFlush,
    /// For the queue to take the last batch. `finished` says whether the
    /// stream was decoded to its end.
    SendingFinal { finished: bool },
    /// For nothing: the worker has ended.
    Stopped,
}

/// How reading the next packet went.
#[derive(Clone, Copy, Debug, PartialEq, Eq, Structural)]
pub enum PacketEvent {
    /// A packet of the chosen track was read.
    Audio,
    /// A packet of another track was read.
    OtherTrack,
    /// The demuxer asks for the decoder to be reset.
    ResetRequired,
    /// The container has no more data.
    EndOfStream,
    /// Reading failed for another reason.
    Failed,
}

/// How decoding the packet went.
#[derive(Debug)]
pub enum DecodeEvent {
    Frames(DecodedPacket),
    /// The decoder asks to be reset.
    ResetRequired,
    /// The packet could not be decoded.
    Failed,
}

/// How resampling went.
#[derive(Debug)]
pub enum ResampleEvent {
    /// The planes that the resampler returned.
    Output(Vec<Vec<u32>>),
    /// The resampler failed, or there is none; the block comes back.
    Failed(Block),
}

/// What the driving thread reports.
#[derive(Debug)]
pub enum Event {
    /// The stop flag was seen.
    StopRequested,
    Packet(PacketEvent),
    Decoded(DecodeEvent),
    /// The decoder has been reset.
    DecoderReset,
    Resampled(ResampleEvent),
    /// Whether the queue took the batch; `false` when the receiver is gone.
    Sent(bool),
}

/// What the driving thread is to do next.
#[derive(Debug)]
pub enum Action {
    /// Read the next packet and report `Packet`.
    ReadPacket,
    /// Decode the packet that was read and report `Decoded`.
    DecodePacket,
    /// Reset the decoder and report `DecoderReset`.
    ResetDecoder,
    /// Run the resampler on the block and report `Resampled`.
    Resample(Block),
    /// Make the resampler give up what it holds and report `Resampled`.
    FlushResampler,
    /// Put the batch on the queue, waiting while it is full, and report `Sent`.
    Send(Vec<u32>),
    /// Close the queue and end. `finished` says whether the stream was
    /// decoded to its end.
    Exit { finished: bool },
    /// The event was not awaited; nothing changed. Go on waiting.
    Ignored,
}

/// An [`Action`] with its samples as sequences.
pub enum Command {
    ReadPacket,
    DecodePacket,
    ResetDecoder,
    Resample { left: Seq<u32>, right: Seq<u32> },
    FlushResampler,
    Send(Seq<u32>),
    Exit { finished: bool },
    Ignored,
}

impl View for Action {
    type V = Command;

    open spec fn view(&self) -> Command {
        match *self {
            Action::ReadPacket => Command::ReadPacket,
            Action::DecodePacket => Command::DecodePacket,
            Action::ResetDecoder => Command::ResetDecoder,
            Action::Resample(b) => Command::Resample { left: b.left@, right: b.right@ },
            Action::FlushResampler => Command::FlushResampler,
            Action::Send(batch) => Command::Send(batch@),
            Action::Exit { finished } => Command::Exit { finished },
            Action::Ignored => Command::Ignored,
        }
    }
}

/// The worker's state as mathematics.
pub struct WorkerState {
    pub phase: Phase,
    /// Frames that wait for the resampler, oldest first.
    pub pending: Seq<(u32, u32)>,
    /// Samples that wait for the queue, interleaved.
    pub batch: Seq<u32>,
    /// Packets without a frame since the last packet that had one.
    pub zero_frames: u32,
    /// When a batch last left on the timer.
    pub last_flush_ms: u64,
    pub source_rate: u32,
    pub target_rate: u32,
}

/// Milliseconds from `since` to `now`; zero where the clock went back.
pub open spec fn elapsed(now: u64, since: u64) -> u64 {
    if now >= since {
        (now - since) as u64
    } else {
        0
    }
}

/// The samples that stand in for a block the resampler failed on: each
/// plane converted by sample and hold. Nothing where that cannot be done.
pub open spec fn fallback_samples(block: Block, source_rate: u32, target_rate: u32) -> Seq<u32> {
    if source_rate == 0 || target_rate == 0 || held_len(
        block.left@.len(),
        source_rate,
        target_rate,
    ) > usize::MAX || held_len(block.right@.len(), source_rate, target_rate) > usize::MAX {
        Seq::empty()
    } else {
        interleave(
            paired(
                held(block.left@, source_rate, target_rate),
                held(block.right@, source_rate, target_rate),
            ),
        )
    }
}

/// The samples that a resampling event adds to the batch.
pub open spec fn produced(event: ResampleEvent, source_rate: u32, target_rate: u32) -> Seq<u32> {
    match event {
        ResampleEvent::Output(planes) => interleave(resampled_frames(planes@)),
        ResampleEvent::Failed(block) => fallback_samples(block, source_rate, target_rate),
    }
}

/// The batch is looked at: a batch of full length leaves, cut to that length;
/// else a batch that is due on the timer leaves whole; else the next packet
/// is read.
pub open spec fn after_packet(s: WorkerState, now: u64) -> (WorkerState, Command) {
    if s.batch.len() >= BATCH_MAX_SAMPLES {
        (
            WorkerState {
                phase: Phase::SendingFull,
                batch: s.batch.skip(BATCH_MAX_SAMPLES as int),
                ..s
            },
            Command::Send(s.batch.take(BATCH_MAX_SAMPLES as int)),
        )
    } else if flush_due(s.batch.len(), elapsed(now, s.last_flush_ms)) {
        (
            WorkerState { phase: Phase::SendingTimed, batch: Seq::empty(), ..s },
            Command::Send(s.batch),
        )
    } else {
        (WorkerState { phase: Phase::Scanning, ..s }, Command::ReadPacket)
    }
}

/// The waiting frames are moved on. Where the rates differ, a full block
/// goes to the resampler if there is one. Where they agree, all of them join
/// the batch as they are. Then the batch is looked at.
pub open spec fn feed(s: WorkerState, now: u64) -> (WorkerState, Command) {
    if conversion_needed(s.source_rate, s.target_rate) {
        if s.pending.len() >= BLOCK_FRAMES {
            let block = s.pending.take(BLOCK_FRAMES as int);
            (
                WorkerState {
                    phase: Phase::Resampling,
                    pending: s.pending.skip(BLOCK_FRAMES as int),
                    ..s
                },
                Command::Resample { left: lefts(block), right: rights(block) },
            )
        } else {
            after_packet(s, now)
        }
    } else {
        after_packet(
            WorkerState { pending: Seq::empty(), batch: s.batch + interleave(s.pending), ..s },
            now,
        )
    }
}

/// The worker ends: what is left of the batch leaves, then the queue closes.
pub open spec fn finish(s: WorkerState, finished: bool) -> (WorkerState, Command) {
    if s.batch.len() > 0 {
        (
            WorkerState { phase: Phase::SendingFinal { finished }, batch: Seq::empty(), ..s },
            Command::Send(s.batch),
        )
    } else {
        (WorkerState { phase: Phase::Stopped, ..s }, Command::Exit { finished })
    }
}

/// The stream has ended. Where the rates differ, the frames that wait go to
/// the resampler as one block padded with silence, and the resampler is
/// flushed. Where they agree, they join the batch. Then the worker ends.
pub open spec fn drain(s: WorkerState) -> (WorkerState, Command) {
    if conversion_needed(s.source_rate, s.target_rate) {
        if s.pending.len() > 0 {
            let n = tail_frames(s.pending.len());
            let padded = s.pending.take(n as int) + silent_frames((BLOCK_FRAMES - n) as nat);
            (
                WorkerState {
                    phase: Phase::DrainingBlock,
                    pending: s.pending.skip(n as int),
                    ..s
                },
                Command::Resample { left: lefts(padded), right: rights(padded) },
            )
        } else {
            (WorkerState { phase: Phase::DrainingFlush, ..s }, Command::FlushResampler)
        }
    } else {
        finish(
            WorkerState { pending: Seq::empty(), batch: s.batch + interleave(s.pending), ..s },
            true,
        )
    }
}

/// A packet was read, or not. Packets of other tracks and unreadable
/// packets are passed over; only the end of the stream ends the scan.
pub open spec fn on_packet(s: WorkerState, event: PacketEvent) -> (WorkerState, Command) {
    match event {
        PacketEvent::Audio => (WorkerState { phase: Phase::Decoding, ..s }, Command::DecodePacket),
        PacketEvent::OtherTrack => (s, Command::ReadPacket),
        PacketEvent::Failed => (s, Command::ReadPacket),
        PacketEvent::ResetRequired => (
            WorkerState { phase: Phase::ResettingInScan, ..s },
            Command::ResetDecoder,
        ),
        PacketEvent::EndOfStream => drain(s),
    }
}

/// A packet without a frame was decoded: it is counted, and past
/// [`MAX_ZERO_FRAME_PACKETS`] in a row the decoder is reset.
pub open spec fn on_zero_frames(s: WorkerState, now: u64) -> (WorkerState, Command) {
    if s.zero_frames >= MAX_ZERO_FRAME_PACKETS {
        (
            WorkerState { phase: Phase::ResettingAfterDecode, zero_frames: 0, ..s },
            Command::ResetDecoder,
        )
    } else {
        after_packet(WorkerState { zero_frames: (s.zero_frames + 1) as u32, ..s }, now)
    }
}

/// The frames that wait once `packet` has been queued. Where the rates
/// differ, no more than the limit wait for the resampler: the oldest frames
/// beyond it are dropped. Where the rates agree, every frame stays; all of
/// them join the batch at once.
pub open spec fn queued(
    pending: Seq<(u32, u32)>,
    packet: DecodedPacket,
    source_rate: u32,
    target_rate: u32,
) -> Seq<(u32, u32)> {
    let all = pending + packet.usable(frame_limit(source_rate, PLAYBACK_LIMIT_SECONDS) as u64);
    if conversion_needed(source_rate, target_rate) {
        all.skip(overflow(all.len()) as int)
    } else {
        all
    }
}

/// The decoder has answered. A packet that failed is passed over. One that
/// asks for a reset gets it. Frames are queued and moved on.
pub open spec fn on_decoded(s: WorkerState, event: DecodeEvent, now: u64) -> (
    WorkerState,
    Command,
) {
    match event {
        DecodeEvent::Failed => after_packet(s, now),
        DecodeEvent::ResetRequired => (
            WorkerState { phase: Phase::ResettingAfterDecode, ..s },
            Command::ResetDecoder,
        ),
        DecodeEvent::Frames(packet) => if packet.frames == 0 {
            on_zero_frames(s, now)
        } else {
            feed(
                WorkerState {
                    zero_frames: 0,
                    pending: queued(s.pending, packet, s.source_rate, s.target_rate),
                    ..s
                },
                now,
            )
        },
    }
}

/// The decoder has been reset.
pub open spec fn on_reset(s: WorkerState, now: u64) -> (WorkerState, Command) {
    match s.phase {
        Phase::ResettingInScan => (WorkerState { phase: Phase::Scanning, ..s }, Command::ReadPacket),
        Phase::ResettingAfterDecode => after_packet(s, now),
        _ => (s, Command::Ignored),
    }
}

/// The resampler has answered. Its output joins the batch; for a block it
/// failed on, the block converted by sample and hold joins instead. A
/// failed flush adds nothing.
pub open spec fn on_resampled(s: WorkerState, event: ResampleEvent, now: u64) -> (
    WorkerState,
    Command,
) {
    let grown = WorkerState {
        batch: s.batch + produced(event, s.source_rate, s.target_rate),
        ..s
    };
    match s.phase {
        Phase::Resampling => feed(grown, now),
        Phase::DrainingBlock => (
            WorkerState { phase: Phase::DrainingFlush, ..grown },
            Command::FlushResampler,
        ),
        Phase::DrainingFlush => match event {
            ResampleEvent::Output(_) => finish(grown, true),
            ResampleEvent::Failed(_) => finish(s, true),
        },
        _ => (s, Command::Ignored),
    }
}

/// The queue has answered. With the receiver gone the worker ends.
pub open spec fn on_sent(s: WorkerState, delivered: bool, now: u64) -> (WorkerState, Command) {
    match s.phase {
        Phase::SendingFull => if delivered {
            after_packet(s, now)
        } else {
            (WorkerState { phase: Phase::Stopped, ..s }, Command::Exit { finished: true })
        },
        Phase::SendingTimed => if delivered {
            (
                WorkerState { phase: Phase::Scanning, last_flush_ms: now, ..s },
                Command::ReadPacket,
            )
        } else {
            (WorkerState { phase: Phase::Stopped, ..s }, Command::Exit { finished: true })
        },
        Phase::SendingFinal { finished } => (
            WorkerState { phase: Phase::Stopped, ..s },
            Command::Exit { finished },
        ),
        _ => (s, Command::Ignored),
    }
}

/// The worker's whole behaviour: the state and the command that follow
/// from a state and an event that arrives at time `now`.
pub open spec fn transition(s: WorkerState, event: Event, now: u64) -> (WorkerState, Command) {
    if s.phase == Phase::Stopped {
        (s, Command::Ignored)
    } else {
        match event {
            Event::StopRequested => finish(s, false),
            Event::Packet(p) => if s.phase == Phase::Scanning {
                on_packet(s, p)
            } else {
                (s, Command::Ignored)
            },
            Event::Decoded(d) => if s.phase == Phase::Decoding {
                on_decoded(s, d, now)
            } else {
                (s, Command::Ignored)
            },
            Event::DecoderReset => on_reset(s, now),
            Event::Resampled(r) => on_resampled(s, r, now),
            Event::Sent(delivered) => on_sent(s, delivered, now),
        }
    }
}

/// The decode worker.
pub struct DecodeWorker {
    phase: Phase,
    pending: PendingFrames,
    batch: Vec<u32>,
    zero_frames: u32,
    last_flush_ms: u64,
    source_rate: u32,
    target_rate: u32,
}

impl View for DecodeWorker {
    type V = WorkerState;

    closed spec fn view(&self) -> WorkerState {
        WorkerState {
            phase: self.phase,
            pending: self.pending@,
            batch: self.batch@,
            zero_frames: self.zero_frames,
            last_flush_ms: self.last_flush_ms,
            source_rate: self.source_rate,
            target_rate: self.target_rate,
        }
    }
}

impl DecodeWorker {
    /// A worker for a stream at `source_rate` that is played at
    /// `target_rate`, created at time `now_ms`. It waits for the first packet.
    pub fn new(source_rate: u32, target_rate: u32, now_ms: u64) -> (w: Self)
        ensures
            w@ == (WorkerState {
                phase: Phase::Scanning,
                pending: Seq::empty(),
                batch: Seq::empty(),
                zero_frames: 0,
                last_flush_ms: now_ms,
                source_rate,
                target_rate,
            }),
    {
        DecodeWorker {
            phase: Phase::Scanning,
            pending: PendingFrames::new(),
            batch: Vec::new(),
            zero_frames: 0,
            last_flush_ms: now_ms,
            source_rate,
            target_rate,
        }
    }

    /// What the worker is waiting for.
    pub fn phase(&self) -> (p: Phase)
        ensures
            p == self@.phase,
    {
        self.phase
    }

    /// Number of samples in the batch.
    pub fn batch_len(&self) -> (n: usize)
        ensures
            n == self@.batch.len(),
    {
        self.batch.len()
    }

    /// Number of frames that wait for the resampler.
    pub fn pending_len(&self) -> (n: usize)
        ensures
            n == self@.pending.len(),
    {
        self.pending.len()
    }

    fn after_packet(&mut self, now_ms: u64) -> (action: Action)
        ensures
            (final(self)@, action@) == after_packet(old(self)@, now_ms),
    {
        match take_full(&mut self.batch) {
            Some(chunk) => {
                self.phase = Phase::SendingFull;
                Action::Send(chunk)
            },
            None => {
                let since: u64 = if now_ms >= self.last_flush_ms {
                    now_ms - self.last_flush_ms
                } else {
                    0
                };
                if should_flush(self.batch.len(), since) {
                    self.phase = Phase::SendingTimed;
                    Action::Send(take_all(&mut self.batch))
                } else {
                    self.phase = Phase::Scanning;
                    Action::ReadPacket
                }
            },
        }
    }

    fn feed(&mut self, now_ms: u64) -> (action: Action)
        ensures
            (final(self)@, action@) == feed(old(self)@, now_ms),
    {
        if needs_resampling(self.source_rate, self.target_rate) {
            match self.pending.take_block() {
                Some(block) => {
                    self.phase = Phase::Resampling;
                    Action::Resample(block)
                },
                None => self.after_packet(now_ms),
            }
        } else {
            self.pending.drain_interleaved(&mut self.batch);
            self.after_packet(now_ms)
        }
    }

    fn finish(&mut self, finished: bool) -> (action: Action)
        ensures
            (final(self)@, action@) == finish(old(self)@, finished),
    {
        if self.batch.len() > 0 {
            self.phase = Phase::SendingFinal { finished };
            Action::Send(take_all(&mut self.batch))
        } else {
            self.phase = Phase::Stopped;
            Action::Exit { finished }
        }
    }

    fn drain(&mut self) -> (action: Action)
        ensures
            (final(self)@, action@) == drain(old(self)@),
    {
        if needs_resampling(self.source_rate, self.target_rate) {
            match self.pending.take_padded_block() {
                Some(block) => {
                    self.phase = Phase::DrainingBlock;
                    Action::Resample(block)
                },
                None => {
                    self.phase = Phase::DrainingFlush;
                    Action::FlushResampler
                },
            }
        } else {
            self.pending.drain_interleaved(&mut self.batch);
            self.finish(true)
        }
    }

    fn on_packet(&mut self, event: PacketEvent) -> (action: Action)
        ensures
            (final(self)@, action@) == on_packet(old(self)@, event),
    {
        match event {
            PacketEvent::Audio => {
                self.phase = Phase::Decoding;
                Action::DecodePacket
            },
            PacketEvent::OtherTrack => Action::ReadPacket,
            PacketEvent::Failed => Action::ReadPacket,
            PacketEvent::ResetRequired => {
                self.phase = Phase::ResettingInScan;
                Action::ResetDecoder
            },
            PacketEvent::EndOfStream => self.drain(),
        }
    }

    fn on_decoded(&mut self, event: DecodeEvent, now_ms: u64) -> (action: Action)
        ensures
            (final(self)@, action@) == on_decoded(old(self)@, event, now_ms),
    {
        match event {
            DecodeEvent::Failed => self.after_packet(now_ms),
            DecodeEvent::ResetRequired => {
                self.phase = Phase::ResettingAfterDecode;
                Action::ResetDecoder
            },
            DecodeEvent::Frames(packet) => {
                if packet.frames == 0 {
                    if self.zero_frames >= MAX_ZERO_FRAME_PACKETS {
                        self.zero_frames = 0;
                        self.phase = Phase::ResettingAfterDecode;
                        Action::ResetDecoder
                    } else {
                        self.zero_frames = self.zero_frames + 1;
                        self.after_packet(now_ms)
                    }
                } else {
                    self.zero_frames = 0;
                    let limit = playback_frame_limit(self.source_rate);
                    let _ = self.pending.push_packet(&packet, limit);
                    if needs_resampling(self.source_rate, self.target_rate) {
                        let _ = self.pending.trim_oldest();
                    }
                    self.feed(now_ms)
                }
            },
        }
    }

    fn on_reset(&mut self, now_ms: u64) -> (action: Action)
        ensures
            (final(self)@, action@) == on_reset(old(self)@, now_ms),
    {
        match self.phase {
            Phase::ResettingInScan => {
                self.phase = Phase::Scanning;
                Action::ReadPacket
            },
            Phase::ResettingAfterDecode => self.after_packet(now_ms),
            _ => Action::Ignored,
        }
    }

    fn append_fallback(&mut self, block: &Block)
        ensures
            final(self)@ == (WorkerState {
                batch: old(self)@.batch + fallback_samples(
                    *block,
                    old(self)@.source_rate,
                    old(self)@.target_rate,
                ),
                ..old(self)@
            }),
    {
        let left = hold_resample(&block.left, self.source_rate, self.target_rate);
        let right = hold_resample(&block.right, self.source_rate, self.target_rate);
        match (left, right) {
            (Some(l), Some(r)) => {
                assert(l@.len() == l.len() && r@.len() == r.len());
                append_paired(&mut self.batch, &l, &r);
            },
            _ => {
                assert(self.batch@ + Seq::<u32>::empty() =~= self.batch@);
            },
        }
    }

    fn on_resampled(&mut self, event: ResampleEvent, now_ms: u64) -> (action: Action)
        ensures
            (final(self)@, action@) == on_resampled(old(self)@, event, now_ms),
    {
        match self.phase {
            Phase::Resampling => {
                self.absorb(&event);
                self.feed(now_ms)
            },
            Phase::DrainingBlock => {
                self.absorb(&event);
                self.phase = Phase::DrainingFlush;
                Action::FlushResampler
            },
            Phase::DrainingFlush => {
                match event {
                    ResampleEvent::Output(planes) => {
                        append_resampled(&mut self.batch, &planes);
                    },
                    ResampleEvent::Failed(_) => {},
                }
                self.finish(true)
            },
            _ => Action::Ignored,
        }
    }

    fn absorb(&mut self, event: &ResampleEvent)
        ensures
            final(self)@ == (WorkerState {
                batch: old(self)@.batch + produced(
                    *event,
                    old(self)@.source_rate,
                    old(self)@.target_rate,
                ),
                ..old(self)@
            }),
    {
        match event {
            ResampleEvent::Output(planes) => {
                append_resampled(&mut self.batch, planes);
            },
            ResampleEvent::Failed(block) => {
                self.append_fallback(block);
            },
        }
    }

    fn on_sent(&mut self, delivered: bool, now_ms: u64) -> (action: Action)
        ensures
            (final(self)@, action@) == on_sent(old(self)@, delivered, now_ms),
    {
        match self.phase {
            Phase::SendingFull => {
                if delivered {
                    self.after_packet(now_ms)
                } else {
                    self.phase = Phase::Stopped;
                    Action::Exit { finished: true }
                }
            },
            Phase::SendingTimed => {
                if delivered {
                    self.phase = Phase::Scanning;
                    self.last_flush_ms = now_ms;
                    Action::ReadPacket
                } else {
                    self.phase = Phase::Stopped;
                    Action::Exit { finished: true }
                }
            },
            Phase::SendingFinal { finished } => {
                self.phase = Phase::Stopped;
                Action::Exit { finished }
            },
            _ => Action::Ignored,
        }
    }

    /// Takes in what the driving thread reports at time `now_ms` and says
    /// what it is to do next. An event that is not the answer to the last
    /// action changes nothing and is answered with `Ignored`, a stop request
    /// apart, which is taken in every phase but the last.
    pub fn step(&mut self, event: Event, now_ms: u64) -> (action: Action)
        ensures
            (final(self)@, action@) == transition(old(self)@, event, now_ms),
    {
        match self.phase {
            Phase::Stopped => {
                return Action::Ignored;
            },
            _ => {},
        }
        match event {
            Event::StopRequested => self.finish(false),
            Event::Packet(p) => match self.phase {
                Phase::Scanning => self.on_packet(p),
                _ => Action::Ignored,
            },
            Event::Decoded(d) => match self.phase {
                Phase::Decoding => self.on_decoded(d, now_ms),
                _ => Action::Ignored,
            },
            Event::DecoderReset => self.on_reset(now_ms),
            Event::Resampled(r) => self.on_resampled(r, now_ms),
            Event::Sent(delivered) => self.on_sent(delivered, now_ms),
        }
    }
}

} // verus!
