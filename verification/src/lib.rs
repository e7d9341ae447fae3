//! Playback core of a local-file music player.
//!
//! The crate holds the decisions of the player, each with a contract that
//! Verus proves: which track of a file is played, how decoded frames are
//! gathered into blocks for the resampler and into batches for the output
//! queue, what the device callback writes, how a session starts, pauses,
//! seeks and ends, and into which bucket of a waveform a frame falls. Around
//! them stand the rules of the library store: how tags and text fields are
//! tidied, how metadata is merged, which covers are pruned.
//!
//! The crate opens no file and no device and starts no thread. Where work
//! of that kind alternates with decisions, the decisions are a state
//! machine: it is told what happened and says what to do next.
//!
//! Audio samples are single precision numbers. They pass through the crate
//! as their bit patterns, which it moves and compares and never computes
//! on. Time is counted in whole nanoseconds and in frames.
//!
//! The pipeline, from the file to the device:
//! [`track`] chooses the track, [`packet`] guards against oversized
//! packets, [`pending`] queues frames for the resampler, [`resample`] and
//! [`batch`] gather its output, [`decode`] is the decoding thread's state
//! machine with its laws in [`decode_laws`], [`preload`] fills the output
//! stage before the stream starts, [`output`] is the device callback,
//! [`rt`] the state shared with it, and [`controller`] the session
//! controller. [`waveform`] counts for the waveform extractor.

pub mod album_art;
pub mod batch;
pub mod controller;
pub mod decode;
pub mod decode_laws;
pub mod format;
pub mod frames;
pub mod metadata;
pub mod models;
pub mod output;
pub mod packet;
pub mod pending;
pub mod preload;
pub mod prune;
pub mod resample;
pub mod rt;
pub mod scan;
pub mod scan_watch;
pub mod tags;
pub mod text;
pub mod time;
pub mod track;
pub mod volume;
pub mod waveform;
