//! Filling the output stage before the device stream starts.
//!
//! A stream that starts on an empty stage begins with a gap. So before
//! the stream is built, batches are taken from the queue until about two
//! seconds of audio are held. The wait is bounded: it ends after a number
//! of polls in a row that found the queue empty, after a run of empty
//! batches, and when the queue is closed.

use vstd::prelude::*;
use crate::output::{OutputStage, StageState};

verus! {

/// Seconds of audio that the stage should hold before the stream starts.
pub const PRELOAD_SECONDS: u64 = 2;

/// Polls in a row that may find the queue empty.
pub const MAX_PRELOAD_ATTEMPTS: u32 = 100;

/// Empty batches in a row that are passed over.
pub const MAX_SILENT_BATCHES: u32 = 50;

/// Milliseconds to wait after a poll that found the queue empty.
pub const PRELOAD_WAIT_MS: u64 = 5;

/// What a poll of the queue brought, without waiting.
#[derive(Debug)]
pub enum Received {
    Batch(Vec<u32>),
    /// Nothing is there yet.
    Empty,
    /// The sender is gone.
    Disconnected,
}

/// What to do next while preloading.
#[derive(Clone, Copy, Debug, PartialEq, Eq, Structural)]
pub enum PreloadStep {
    /// Poll the queue.
    Poll,
    /// Wait [`PRELOAD_WAIT_MS`], then poll the queue.
    WaitThenPoll,
    /// Build and start the stream.
    Start,
}

/// The preload as mathematics.
pub struct PreloadModel {
    /// Samples that the stage should hold.
    pub target: u64,
    /// Polls in a row that found the queue empty.
    pub attempts: u32,
    /// Empty batches in a row.
    pub silent: u32,
    /// The preload has ended.
    pub done: bool,
}

/// Samples of two seconds of stereo audio at `sample_rate`.
pub open spec fn preload_target(sample_rate: u32) -> u64 {
    (sample_rate * PRELOAD_SECONDS * 2) as u64
}

/// Whether the preload goes on: it has not ended, the stage holds less than
/// the target, and the polls are not used up.
pub open spec fn preload_wanted(p: PreloadModel, held: nat) -> bool {
    !p.done && held < p.target && p.attempts < MAX_PRELOAD_ATTEMPTS
}

/// The preload and the stage after a poll that brought `received`, and what
/// to do next. A batch always joins the stage, so that no sample is lost.
pub open spec fn preload_transition(p: PreloadModel, stage: StageState, received: Received) -> (
    PreloadModel,
    StageState,
    PreloadStep,
) {
    match received {
        Received::Batch(batch) => {
            let grown = StageState { queue: stage.queue + batch@, ..stage };
            if p.done {
                (p, grown, PreloadStep::Start)
            } else if batch@.len() == 0 {
                if p.silent >= MAX_SILENT_BATCHES {
                    (PreloadModel { done: true, ..p }, grown, PreloadStep::Start)
                } else {
                    let q = PreloadModel { silent: (p.silent + 1) as u32, ..p };
                    if preload_wanted(q, grown.queue.len()) {
                        (q, grown, PreloadStep::Poll)
                    } else {
                        (PreloadModel { done: true, ..q }, grown, PreloadStep::Start)
                    }
                }
            } else {
                let q = PreloadModel { silent: 0, attempts: 0, ..p };
                if preload_wanted(q, grown.queue.len()) {
                    (q, grown, PreloadStep::Poll)
                } else {
                    (PreloadModel { done: true, ..q }, grown, PreloadStep::Start)
                }
            }
        },
        Received::Empty => {
            if p.done {
                (p, stage, PreloadStep::Start)
            } else {
                let q = PreloadModel {
                    attempts: if p.attempts < MAX_PRELOAD_ATTEMPTS {
                        (p.attempts + 1) as u32
                    } else {
                        p.attempts
                    },
                    ..p
                };
                if preload_wanted(q, stage.queue.len()) {
                    (q, stage, PreloadStep::WaitThenPoll)
                } else {
                    (PreloadModel { done: true, ..q }, stage, PreloadStep::Start)
                }
            }
        },
        Received::Disconnected => (PreloadModel { done: true, ..p }, stage, PreloadStep::Start),
    }
}

/// The preload of one session.
pub struct Preload {
    target: u64,
    attempts: u32,
    silent: u32,
    done: bool,
}

impl View for Preload {
    type V = PreloadModel;

    closed spec fn view(&self) -> PreloadModel {
        PreloadModel {
            target: self.target,
            attempts: self.attempts,
            silent: self.silent,
            done: self.done,
        }
    }
}

impl Preload {
    /// A preload for a device at `sample_rate` frames per second.
    pub fn new(sample_rate: u32) -> (p: Self)
        ensures
            p@ == (PreloadModel {
                target: preload_target(sample_rate),
                attempts: 0,
                silent: 0,
                done: false,
            }),
    {
        Preload {
            target: sample_rate as u64 * PRELOAD_SECONDS * 2,
            attempts: 0,
            silent: 0,
            done: false,
        }
    }

    /// Whether the queue is to be polled once more.
    pub fn wanted(&self, stage: &OutputStage) -> (r: bool)
        ensures
            r == preload_wanted(self@, stage@.queue.len()),
    {
        !self.done && (stage.queued_samples() as u64) < self.target && self.attempts
            < MAX_PRELOAD_ATTEMPTS
    }

    fn settle(&mut self, stage: &OutputStage, waiting: bool) -> (step: PreloadStep)
        ensures
            preload_wanted(old(self)@, stage@.queue.len()) ==> final(self)@ == old(self)@ && step
                == (if waiting {
                PreloadStep::WaitThenPoll
            } else {
                PreloadStep::Poll
            }),
            !preload_wanted(old(self)@, stage@.queue.len()) ==> final(self)@ == (PreloadModel {
                done: true,
                ..old(self)@
            }) && step == PreloadStep::Start,
    {
        if self.wanted(stage) {
            if waiting {
                PreloadStep::WaitThenPoll
            } else {
                PreloadStep::Poll
            }
        } else {
            self.done = true;
            PreloadStep::Start
        }
    }

    /// Takes in what a poll of the queue brought and says what to do next.
    pub fn on_received(&mut self, stage: &mut OutputStage, received: Received) -> (step:
        PreloadStep)
        ensures
            (final(self)@, final(stage)@, step) == preload_transition(
                old(self)@,
                old(stage)@,
                received,
            ),
    {
        match received {
            Received::Batch(batch) => {
                stage.accept(&batch);
                if self.done {
                    PreloadStep::Start
                } else if batch.len() == 0 {
                    if self.silent >= MAX_SILENT_BATCHES {
                        self.done = true;
                        PreloadStep::Start
                    } else {
                        self.silent = self.silent + 1;
                        self.settle(stage, false)
                    }
                } else {
                    self.silent = 0;
                    self.attempts = 0;
                    self.settle(stage, false)
                }
            },
            Received::Empty => {
                if self.done {
                    PreloadStep::Start
                } else {
                    if self.attempts < MAX_PRELOAD_ATTEMPTS {
                        self.attempts = self.attempts + 1;
                    }
                    self.settle(stage, true)
                }
            },
            Received::Disconnected => {
                self.done = true;
                PreloadStep::Start
            },
        }
    }
}

/// The preload is bounded: with the polls used up, an empty queue starts the
/// stream, whatever the stage holds.
pub proof fn law_preload_ends(p: PreloadModel, stage: StageState)
    requires
        p.attempts + 1 >= MAX_PRELOAD_ATTEMPTS,
    ensures
        preload_transition(p, stage, Received::Empty).2 == PreloadStep::Start,
{
}

/// The preload loses nothing: every batch that a poll brought is held by
/// the stage afterwards, behind what it held.
pub proof fn law_preload_keeps_batches(p: PreloadModel, stage: StageState, batch: Vec<u32>)
    ensures
        preload_transition(p, stage, Received::Batch(batch)).1.queue == stage.queue + batch@,
{
}

} // verus!
