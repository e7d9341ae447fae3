use lcmp_core::batch::{
    should_flush, take_all, take_full, BATCH_MAX_SAMPLES, FLUSH_INTERVAL_MS,
    FORCE_FLUSH_INTERVAL_MS, MIN_FLUSH_SAMPLES,
};
use lcmp_core::controller::Controller;
use lcmp_core::decode::{
    Action, DecodeEvent, DecodeWorker, Event, PacketEvent, Phase, ResampleEvent,
    MAX_ZERO_FRAME_PACKETS,
};
use lcmp_core::frames::append_paired;
use lcmp_core::output::OutputStage;
use lcmp_core::packet::{
    analysis_frame_limit, playback_frame_limit, safe_frames, ChannelData, DecodedPacket,
};
use lcmp_core::pending::{Block, PendingFrames, BLOCK_FRAMES, PENDING_MAX};
use lcmp_core::preload::{Preload, PreloadStep, Received, MAX_PRELOAD_ATTEMPTS, MAX_SILENT_BATCHES};
use lcmp_core::resample::{append_resampled, hold_resample, needs_resampling};
use lcmp_core::rt::RtState;

fn stereo_packet(first: u32, frames: usize) -> DecodedPacket {
    let left: Vec<u32> = (0..frames).map(|i| first + 2 * i as u32).collect();
    let right: Vec<u32> = (0..frames).map(|i| first + 2 * i as u32 + 1).collect();
    DecodedPacket { frames, capacity: frames, data: ChannelData::Stereo(left, right) }
}

fn mono_packet(first: u32, frames: usize) -> DecodedPacket {
    let plane: Vec<u32> = (0..frames).map(|i| first + i as u32).collect();
    DecodedPacket { frames, capacity: frames, data: ChannelData::Mono(plane) }
}

fn counting(first: u32, n: usize) -> Vec<u32> {
    (0..n).map(|i| first + i as u32).collect()
}

#[test]
fn frame_limits_exact_values() {
    assert_eq!(playback_frame_limit(44100), 1_323_000);
    assert_eq!(playback_frame_limit(48000), 1_440_000);
    assert_eq!(playback_frame_limit(100), 8192);
    assert_eq!(playback_frame_limit(0), 8192);
    assert_eq!(playback_frame_limit(u32::MAX), u32::MAX as u64 * 30);
    assert_eq!(analysis_frame_limit(44100), 88200);
    assert_eq!(analysis_frame_limit(4096), 8192);
    assert_eq!(analysis_frame_limit(4000), 8192);
}

#[test]
fn safe_frames_is_the_smallest_of_three() {
    assert_eq!(safe_frames(1152, 1152, 88200), 1152);
    assert_eq!(safe_frames(1152, 4096, 88200), 1152);
    assert_eq!(safe_frames(5000, 4096, 88200), 4096);
    assert_eq!(safe_frames(1_000_000_000, 2_000_000_000, 88200), 88200);
    assert_eq!(safe_frames(100, 2_000_000_000, 88200), 100);
    assert_eq!(safe_frames(0, 0, 88200), 0);
}

#[test]
fn usable_count_never_exceeds_the_planes() {
    let mut p = stereo_packet(0, 10);
    p.frames = 50;
    p.capacity = 50;
    assert_eq!(p.usable_count(8192), 10);
    let p = DecodedPacket { frames: 5, capacity: 5, data: ChannelData::Stereo(vec![1, 2, 3, 4, 5], vec![9, 8]) };
    assert_eq!(p.usable_count(8192), 2);
    assert_eq!(p.data.frame(1), (2, 8));
}

#[test]
fn mono_is_duplicated_to_stereo() {
    let mut pending = PendingFrames::new();
    let n = pending.push_packet(&mono_packet(10, 3), 8192);
    assert_eq!(n, 3);
    let mut out = Vec::new();
    pending.drain_interleaved(&mut out);
    assert_eq!(out, vec![10, 10, 11, 11, 12, 12]);
    assert_eq!(pending.len(), 0);
}

#[test]
fn stereo_is_interleaved_in_order() {
    let mut pending = PendingFrames::new();
    pending.push_packet(&stereo_packet(0, 3), 8192);
    pending.push_packet(&stereo_packet(100, 2), 8192);
    let mut out = vec![7];
    pending.drain_interleaved(&mut out);
    assert_eq!(out, vec![7, 0, 1, 2, 3, 4, 5, 100, 101, 102, 103]);
}

#[test]
fn packet_is_cut_at_the_limit() {
    let mut pending = PendingFrames::new();
    let n = pending.push_packet(&mono_packet(0, 100), 64);
    assert_eq!(n, 64);
    assert_eq!(pending.len(), 64);
}

#[test]
fn pending_drops_the_oldest_beyond_the_limit() {
    let mut pending = PendingFrames::new();
    pending.push_packet(&mono_packet(0, PENDING_MAX + 5), u64::MAX);
    assert_eq!(pending.len(), PENDING_MAX + 5);
    assert_eq!(pending.trim_oldest(), 5);
    assert_eq!(pending.len(), PENDING_MAX);
    assert_eq!(pending.trim_oldest(), 0);
    let mut out = Vec::new();
    pending.drain_interleaved(&mut out);
    assert_eq!(out[0], 5);
    assert_eq!(out[1], 5);
    assert_eq!(*out.last().unwrap(), (PENDING_MAX + 4) as u32);
}

#[test]
fn blocks_have_exactly_the_block_length() {
    let mut pending = PendingFrames::new();
    pending.push_packet(&stereo_packet(0, BLOCK_FRAMES - 1), u64::MAX);
    assert!(pending.take_block().is_none());
    assert_eq!(pending.len(), BLOCK_FRAMES - 1);
    pending.push_packet(&stereo_packet(1_000_000, 10), u64::MAX);
    let block = pending.take_block().unwrap();
    assert_eq!(block.left.len(), BLOCK_FRAMES);
    assert_eq!(block.right.len(), BLOCK_FRAMES);
    assert_eq!(block.left[0], 0);
    assert_eq!(block.right[0], 1);
    assert_eq!(block.left[BLOCK_FRAMES - 2], 2 * (BLOCK_FRAMES as u32 - 2));
    assert_eq!(block.left[BLOCK_FRAMES - 1], 1_000_000);
    assert_eq!(block.right[BLOCK_FRAMES - 1], 1_000_001);
    assert_eq!(pending.len(), 9);
    assert!(pending.take_block().is_none());
}

#[test]
fn last_block_is_padded_with_silence() {
    let mut pending = PendingFrames::new();
    assert!(pending.take_padded_block().is_none());
    pending.push_packet(&stereo_packet(1, 3), u64::MAX);
    let block = pending.take_padded_block().unwrap();
    assert_eq!(block.left.len(), BLOCK_FRAMES);
    assert_eq!(block.right.len(), BLOCK_FRAMES);
    assert_eq!(&block.left[..4], &[1, 3, 5, 0]);
    assert_eq!(&block.right[..4], &[2, 4, 6, 0]);
    assert!(block.left[3..].iter().all(|s| *s == 0));
    assert!(block.right[3..].iter().all(|s| *s == 0));
    assert_eq!(pending.len(), 0);
    assert!(pending.take_padded_block().is_none());
}

#[test]
fn flush_rule_table() {
    assert!(!should_flush(0, 0));
    assert!(!should_flush(MIN_FLUSH_SAMPLES, FLUSH_INTERVAL_MS - 1));
    assert!(should_flush(MIN_FLUSH_SAMPLES, FLUSH_INTERVAL_MS));
    assert!(!should_flush(MIN_FLUSH_SAMPLES - 1, FLUSH_INTERVAL_MS));
    assert!(!should_flush(MIN_FLUSH_SAMPLES - 1, FORCE_FLUSH_INTERVAL_MS - 1));
    assert!(should_flush(1, FORCE_FLUSH_INTERVAL_MS));
    assert!(!should_flush(0, FORCE_FLUSH_INTERVAL_MS));
    assert!(!should_flush(0, u64::MAX));
    assert!(should_flush(usize::MAX, 30));
}

#[test]
fn full_batches_are_cut_to_length() {
    let mut batch = counting(0, BATCH_MAX_SAMPLES - 1);
    assert!(take_full(&mut batch).is_none());
    assert_eq!(batch.len(), BATCH_MAX_SAMPLES - 1);
    let mut batch = counting(0, BATCH_MAX_SAMPLES + 3);
    let chunk = take_full(&mut batch).unwrap();
    assert_eq!(chunk, counting(0, BATCH_MAX_SAMPLES));
    assert_eq!(batch, counting(BATCH_MAX_SAMPLES as u32, 3));
    let rest = take_all(&mut batch);
    assert_eq!(rest, counting(BATCH_MAX_SAMPLES as u32, 3));
    assert!(batch.is_empty());
}

#[test]
fn resampling_is_needed_only_for_different_rates() {
    assert!(!needs_resampling(44100, 44100));
    assert!(needs_resampling(44100, 48000));
    assert!(needs_resampling(48000, 44100));
}

#[test]
fn resampler_output_is_interleaved() {
    let mut batch = vec![9];
    append_resampled(&mut batch, &vec![]);
    assert_eq!(batch, vec![9]);
    append_resampled(&mut batch, &vec![vec![1, 2]]);
    assert_eq!(batch, vec![9, 1, 1, 2, 2]);
    append_resampled(&mut batch, &vec![vec![3, 4], vec![5, 6]]);
    assert_eq!(batch, vec![9, 1, 1, 2, 2, 3, 5, 4, 6]);
    append_resampled(&mut batch, &vec![vec![], vec![5, 6]]);
    assert_eq!(batch.len(), 9);
    let mut short = Vec::new();
    append_paired(&mut short, &vec![1, 2, 3], &vec![7]);
    assert_eq!(short, vec![1, 7, 2, 2, 3, 3]);
}

#[test]
fn hold_resample_exact_values() {
    assert_eq!(hold_resample(&vec![1, 2, 3, 4], 2, 4), Some(vec![1, 1, 2, 2, 3, 3, 4, 4]));
    assert_eq!(hold_resample(&vec![1, 2, 3, 4], 4, 2), Some(vec![1, 3]));
    assert_eq!(hold_resample(&vec![1, 2, 3, 4], 3, 3), Some(vec![1, 2, 3, 4]));
    assert_eq!(hold_resample(&vec![10, 20, 30], 2, 3), Some(vec![10, 10, 20, 30]));
    assert_eq!(hold_resample(&vec![], 44100, 48000), Some(vec![]));
    assert_eq!(hold_resample(&vec![1, 2], 0, 48000), None);
    assert_eq!(hold_resample(&vec![1, 2], 44100, 0), None);
    let out = hold_resample(&counting(0, 8192), 44100, 48000).unwrap();
    assert_eq!(out.len(), 8916);
    assert_eq!(out[0], 0);
    assert_eq!(out[1], 0);
    assert_eq!(out[2], 1);
    assert_eq!(out[8915], 8190);
}

#[test]
fn worker_starts_in_scanning() {
    let w = DecodeWorker::new(44100, 44100, 0);
    assert_eq!(w.phase(), Phase::Scanning);
    assert_eq!(w.batch_len(), 0);
    assert_eq!(w.pending_len(), 0);
}

#[test]
fn other_tracks_and_read_errors_are_skipped() {
    let mut w = DecodeWorker::new(44100, 44100, 0);
    assert!(matches!(w.step(Event::Packet(PacketEvent::OtherTrack), 1), Action::ReadPacket));
    assert!(matches!(w.step(Event::Packet(PacketEvent::Failed), 2), Action::ReadPacket));
    assert_eq!(w.phase(), Phase::Scanning);
    assert!(matches!(w.step(Event::Packet(PacketEvent::ResetRequired), 3), Action::ResetDecoder));
    assert_eq!(w.phase(), Phase::ResettingInScan);
    assert!(matches!(w.step(Event::DecoderReset, 4), Action::ReadPacket));
    assert!(matches!(w.step(Event::Packet(PacketEvent::Audio), 5), Action::DecodePacket));
    assert_eq!(w.phase(), Phase::Decoding);
}

#[test]
fn decode_errors_do_not_end_the_stream() {
    let mut w = DecodeWorker::new(44100, 44100, 0);
    w.step(Event::Packet(PacketEvent::Audio), 0);
    assert!(matches!(w.step(Event::Decoded(DecodeEvent::Failed), 1), Action::ReadPacket));
    assert_eq!(w.phase(), Phase::Scanning);
    w.step(Event::Packet(PacketEvent::Audio), 2);
    assert!(matches!(w.step(Event::Decoded(DecodeEvent::ResetRequired), 3), Action::ResetDecoder));
    assert!(matches!(w.step(Event::DecoderReset, 4), Action::ReadPacket));
    assert_eq!(w.phase(), Phase::Scanning);
}

#[test]
fn zero_frame_packets_reset_the_decoder_after_the_bound() {
    let mut w = DecodeWorker::new(44100, 44100, 0);
    for _ in 0..MAX_ZERO_FRAME_PACKETS {
        assert!(matches!(w.step(Event::Packet(PacketEvent::Audio), 0), Action::DecodePacket));
        let a = w.step(Event::Decoded(DecodeEvent::Frames(stereo_packet(0, 0))), 0);
        assert!(matches!(a, Action::ReadPacket));
    }
    w.step(Event::Packet(PacketEvent::Audio), 0);
    let a = w.step(Event::Decoded(DecodeEvent::Frames(stereo_packet(0, 0))), 0);
    assert!(matches!(a, Action::ResetDecoder));
    assert!(matches!(w.step(Event::DecoderReset, 0), Action::ReadPacket));
    w.step(Event::Packet(PacketEvent::Audio), 0);
    let a = w.step(Event::Decoded(DecodeEvent::Frames(stereo_packet(0, 0))), 0);
    assert!(matches!(a, Action::ReadPacket));
}

#[test]
fn a_packet_with_frames_restarts_the_zero_count() {
    let mut w = DecodeWorker::new(44100, 44100, 0);
    for _ in 0..MAX_ZERO_FRAME_PACKETS {
        w.step(Event::Packet(PacketEvent::Audio), 0);
        w.step(Event::Decoded(DecodeEvent::Frames(stereo_packet(0, 0))), 0);
    }
    w.step(Event::Packet(PacketEvent::Audio), 0);
    w.step(Event::Decoded(DecodeEvent::Frames(stereo_packet(0, 4))), 0);
    w.step(Event::Packet(PacketEvent::Audio), 0);
    let a = w.step(Event::Decoded(DecodeEvent::Frames(stereo_packet(0, 0))), 0);
    assert!(matches!(a, Action::ReadPacket));
}

#[test]
fn small_batches_wait_for_the_timer() {
    let mut w = DecodeWorker::new(44100, 44100, 1000);
    w.step(Event::Packet(PacketEvent::Audio), 1000);
    let a = w.step(Event::Decoded(DecodeEvent::Frames(stereo_packet(0, 100))), 1010);
    assert!(matches!(a, Action::ReadPacket));
    assert_eq!(w.batch_len(), 200);
    w.step(Event::Packet(PacketEvent::Audio), 1020);
    let a = w.step(Event::Decoded(DecodeEvent::Frames(stereo_packet(200, 100))), 1040);
    assert!(matches!(a, Action::ReadPacket));
    assert_eq!(w.batch_len(), 400);
    w.step(Event::Packet(PacketEvent::Audio), 1100);
    let a = w.step(Event::Decoded(DecodeEvent::Failed), 1200);
    match a {
        Action::Send(batch) => assert_eq!(batch, counting(0, 400)),
        other => panic!("expected a send, got {:?}", other),
    }
    assert_eq!(w.phase(), Phase::SendingTimed);
    assert!(matches!(w.step(Event::Sent(true), 1300), Action::ReadPacket));
    w.step(Event::Packet(PacketEvent::Audio), 1310);
    let a = w.step(Event::Decoded(DecodeEvent::Frames(stereo_packet(0, 1))), 1499);
    assert!(matches!(a, Action::ReadPacket));
    w.step(Event::Packet(PacketEvent::Audio), 1499);
    let a = w.step(Event::Decoded(DecodeEvent::Failed), 1500);
    assert!(matches!(a, Action::Send(_)));
}

#[test]
fn medium_batches_leave_after_the_short_interval() {
    let mut w = DecodeWorker::new(44100, 44100, 0);
    w.step(Event::Packet(PacketEvent::Audio), 0);
    let a = w.step(Event::Decoded(DecodeEvent::Frames(stereo_packet(0, 1024))), 29);
    assert!(matches!(a, Action::ReadPacket));
    w.step(Event::Packet(PacketEvent::Audio), 29);
    let a = w.step(Event::Decoded(DecodeEvent::Failed), 30);
    match a {
        Action::Send(batch) => assert_eq!(batch.len(), 2048),
        other => panic!("expected a send, got {:?}", other),
    }
}

#[test]
fn full_batches_leave_at_once_cut_to_length() {
    let mut w = DecodeWorker::new(44100, 44100, 0);
    w.step(Event::Packet(PacketEvent::Audio), 0);
    let frames = BATCH_MAX_SAMPLES + 10;
    let a = w.step(Event::Decoded(DecodeEvent::Frames(stereo_packet(0, frames))), 0);
    match a {
        Action::Send(batch) => assert_eq!(batch, counting(0, BATCH_MAX_SAMPLES)),
        other => panic!("expected a send, got {:?}", other),
    }
    assert_eq!(w.phase(), Phase::SendingFull);
    let a = w.step(Event::Sent(true), 0);
    match a {
        Action::Send(batch) => assert_eq!(batch, counting(BATCH_MAX_SAMPLES as u32, BATCH_MAX_SAMPLES)),
        other => panic!("expected a send, got {:?}", other),
    }
    assert!(matches!(w.step(Event::Sent(true), 0), Action::ReadPacket));
    assert_eq!(w.batch_len(), 20);
}

#[test]
fn bypass_output_is_bit_identical_to_input() {
    for rate in [8000u32, 22050, 44100, 48000, 96000, 192000] {
        let mut w = DecodeWorker::new(rate, rate, 0);
        let mut sent: Vec<u32> = Vec::new();
        let mut input: Vec<u32> = Vec::new();
        let mut now = 0u64;
        let mut action = Action::ReadPacket;
        let mut packets = 0usize;
        loop {
            now += 7;
            action = match action {
                Action::ReadPacket => {
                    if packets == 40 {
                        w.step(Event::Packet(PacketEvent::EndOfStream), now)
                    } else if packets % 5 == 4 {
                        packets += 1;
                        w.step(Event::Packet(PacketEvent::OtherTrack), now)
                    } else {
                        w.step(Event::Packet(PacketEvent::Audio), now)
                    }
                }
                Action::DecodePacket => {
                    let frames = 1000 + 3000 * (packets % 7);
                    let first = (packets * 100_000) as u32;
                    packets += 1;
                    let p = if packets % 2 == 0 { stereo_packet(first, frames) } else { mono_packet(first, frames) };
                    for i in 0..frames {
                        let f = p.data.frame(i);
                        input.push(f.0);
                        input.push(f.1);
                    }
                    w.step(Event::Decoded(DecodeEvent::Frames(p)), now)
                }
                Action::Send(batch) => {
                    sent.extend(batch);
                    w.step(Event::Sent(true), now)
                }
                Action::Exit { finished } => {
                    assert!(finished);
                    break;
                }
                other => panic!("the resampler must not be asked: {:?}", other),
            };
        }
        assert_eq!(sent, input);
        assert_eq!(w.phase(), Phase::Stopped);
    }
}

#[test]
fn resampling_path_feeds_full_blocks_in_order() {
    let mut w = DecodeWorker::new(44100, 48000, 0);
    w.step(Event::Packet(PacketEvent::Audio), 0);
    let a = w.step(Event::Decoded(DecodeEvent::Frames(stereo_packet(0, BLOCK_FRAMES - 1))), 0);
    assert!(matches!(a, Action::ReadPacket));
    assert_eq!(w.pending_len(), BLOCK_FRAMES - 1);
    assert_eq!(w.batch_len(), 0);
    w.step(Event::Packet(PacketEvent::Audio), 0);
    let a = w.step(Event::Decoded(DecodeEvent::Frames(stereo_packet(5_000_000, BLOCK_FRAMES + 2))), 0);
    let block = match a {
        Action::Resample(block) => block,
        other => panic!("expected a block, got {:?}", other),
    };
    assert_eq!(block.left.len(), BLOCK_FRAMES);
    assert_eq!(block.left[0], 0);
    assert_eq!(block.left[BLOCK_FRAMES - 1], 5_000_000);
    assert_eq!(w.phase(), Phase::Resampling);
    let a = w.step(Event::Resampled(ResampleEvent::Output(vec![vec![1, 2, 3], vec![4, 5, 6]])), 0);
    let block = match a {
        Action::Resample(block) => block,
        other => panic!("expected a second block, got {:?}", other),
    };
    assert_eq!(block.left[0], 5_000_002);
    assert_eq!(block.right[0], 5_000_003);
    let a = w.step(Event::Resampled(ResampleEvent::Output(vec![vec![7], vec![8]])), 0);
    assert!(matches!(a, Action::ReadPacket));
    assert_eq!(w.pending_len(), 1);
    assert_eq!(w.batch_len(), 8);
    let a = w.step(Event::StopRequested, 0);
    match a {
        Action::Send(batch) => assert_eq!(batch, vec![1, 4, 2, 5, 3, 6, 7, 8]),
        other => panic!("expected the rest, got {:?}", other),
    }
}

#[test]
fn failed_block_is_replaced_by_sample_and_hold() {
    let mut w = DecodeWorker::new(1, 2, 0);
    w.step(Event::Packet(PacketEvent::Audio), 0);
    let a = w.step(Event::Decoded(DecodeEvent::Frames(stereo_packet(0, BLOCK_FRAMES))), 0);
    let block = match a {
        Action::Resample(block) => block,
        other => panic!("expected a block, got {:?}", other),
    };
    let a = w.step(Event::Resampled(ResampleEvent::Failed(block)), 0);
    match a {
        Action::Send(batch) => {
            assert_eq!(batch.len(), BATCH_MAX_SAMPLES);
            assert_eq!(&batch[..8], &[0, 1, 0, 1, 2, 3, 2, 3]);
        }
        other => panic!("expected a full batch, got {:?}", other),
    }
}

#[test]
fn end_of_stream_pads_then_flushes_then_exits() {
    let mut w = DecodeWorker::new(44100, 48000, 0);
    w.step(Event::Packet(PacketEvent::Audio), 0);
    w.step(Event::Decoded(DecodeEvent::Frames(stereo_packet(1, 2))), 0);
    let a = w.step(Event::Packet(PacketEvent::EndOfStream), 0);
    let block = match a {
        Action::Resample(block) => block,
        other => panic!("expected the padded block, got {:?}", other),
    };
    assert_eq!(block.left.len(), BLOCK_FRAMES);
    assert_eq!(&block.left[..3], &[1, 3, 0]);
    assert_eq!(&block.right[..3], &[2, 4, 0]);
    assert_eq!(w.phase(), Phase::DrainingBlock);
    let a = w.step(Event::Resampled(ResampleEvent::Output(vec![vec![10], vec![11]])), 0);
    assert!(matches!(a, Action::FlushResampler));
    assert_eq!(w.phase(), Phase::DrainingFlush);
    let a = w.step(Event::Resampled(ResampleEvent::Output(vec![vec![12], vec![13]])), 0);
    match a {
        Action::Send(batch) => assert_eq!(batch, vec![10, 11, 12, 13]),
        other => panic!("expected the last batch, got {:?}", other),
    }
    assert_eq!(w.phase(), Phase::SendingFinal { finished: true });
    assert!(matches!(w.step(Event::Sent(true), 0), Action::Exit { finished: true }));
    assert_eq!(w.phase(), Phase::Stopped);
}

#[test]
fn end_of_stream_without_pending_only_flushes() {
    let mut w = DecodeWorker::new(44100, 48000, 0);
    let a = w.step(Event::Packet(PacketEvent::EndOfStream), 0);
    assert!(matches!(a, Action::FlushResampler));
    let failed = ResampleEvent::Failed(Block { left: vec![1, 2], right: vec![3, 4] });
    let a = w.step(Event::Resampled(failed), 0);
    assert!(matches!(a, Action::Exit { finished: true }));
}

#[test]
fn empty_stream_exits_finished_without_sending() {
    let mut w = DecodeWorker::new(44100, 44100, 0);
    let a = w.step(Event::Packet(PacketEvent::EndOfStream), 0);
    assert!(matches!(a, Action::Exit { finished: true }));
}

#[test]
fn stop_sends_the_rest_and_exits_unfinished() {
    let mut w = DecodeWorker::new(44100, 44100, 0);
    w.step(Event::Packet(PacketEvent::Audio), 0);
    w.step(Event::Decoded(DecodeEvent::Frames(stereo_packet(0, 5))), 0);
    let a = w.step(Event::StopRequested, 1);
    match a {
        Action::Send(batch) => assert_eq!(batch, counting(0, 10)),
        other => panic!("expected the rest, got {:?}", other),
    }
    assert!(matches!(w.step(Event::Sent(false), 2), Action::Exit { finished: false }));
    assert_eq!(w.phase(), Phase::Stopped);
}

#[test]
fn receiver_gone_ends_the_worker() {
    let mut w = DecodeWorker::new(44100, 44100, 0);
    w.step(Event::Packet(PacketEvent::Audio), 0);
    let a = w.step(Event::Decoded(DecodeEvent::Frames(stereo_packet(0, BATCH_MAX_SAMPLES))), 0);
    assert!(matches!(a, Action::Send(_)));
    assert!(matches!(w.step(Event::Sent(false), 0), Action::Exit { finished: true }));
    assert_eq!(w.phase(), Phase::Stopped);
}

#[test]
fn stopped_worker_ignores_everything() {
    let mut w = DecodeWorker::new(44100, 44100, 0);
    w.step(Event::StopRequested, 0);
    assert_eq!(w.phase(), Phase::Stopped);
    assert!(matches!(w.step(Event::Packet(PacketEvent::Audio), 0), Action::Ignored));
    assert!(matches!(w.step(Event::Decoded(DecodeEvent::Frames(stereo_packet(0, 5))), 0), Action::Ignored));
    assert!(matches!(w.step(Event::StopRequested, 0), Action::Ignored));
    assert!(matches!(w.step(Event::Sent(true), 0), Action::Ignored));
    assert_eq!(w.batch_len(), 0);
}

#[test]
fn unexpected_events_change_nothing() {
    let mut w = DecodeWorker::new(44100, 48000, 0);
    assert!(matches!(w.step(Event::Sent(true), 0), Action::Ignored));
    assert!(matches!(w.step(Event::DecoderReset, 0), Action::Ignored));
    assert!(matches!(w.step(Event::Decoded(DecodeEvent::Frames(stereo_packet(0, 5))), 0), Action::Ignored));
    assert!(matches!(w.step(Event::Resampled(ResampleEvent::Output(vec![vec![1]])), 0), Action::Ignored));
    assert_eq!(w.phase(), Phase::Scanning);
    assert_eq!(w.pending_len(), 0);
    assert_eq!(w.batch_len(), 0);
}

#[test]
fn stereo_device_gets_pairs_in_order() {
    let mut stage = OutputStage::new(2, 1);
    stage.accept(&vec![1, 2, 3, 4, 5, 6]);
    let rt = RtState::new(0x3F00_0000, 1);
    let mut out = vec![99; 3];
    let taken = stage.process(&rt, 4, &mut out);
    assert_eq!(out, vec![1, 2, 3, 4]);
    assert_eq!(taken, 2);
    assert_eq!(stage.queued_samples(), 2);
}

#[test]
fn mono_device_gets_the_left_sample_only() {
    let mut stage = OutputStage::new(1, 1);
    stage.accept(&vec![1, 2, 3, 4, 5, 6]);
    let rt = RtState::new(0x3F00_0000, 1);
    let mut out = Vec::new();
    let taken = stage.process(&rt, 3, &mut out);
    assert_eq!(out, vec![1, 3, 5]);
    assert_eq!(taken, 3);
    assert_eq!(stage.queued_samples(), 0);
}

#[test]
fn wide_device_repeats_the_pair_across_channels() {
    let mut stage = OutputStage::new(6, 1);
    stage.accept(&vec![1, 2, 3, 4]);
    let rt = RtState::new(0x3F00_0000, 1);
    let mut out = Vec::new();
    let taken = stage.process(&rt, 12, &mut out);
    assert_eq!(out, vec![1, 2, 1, 2, 1, 2, 3, 4, 3, 4, 3, 4]);
    assert_eq!(taken, 2);
    let mut stage = OutputStage::new(3, 1);
    stage.accept(&vec![1, 2]);
    let taken = stage.process(&rt, 3, &mut out);
    assert_eq!(out, vec![1, 2, 1]);
    assert_eq!(taken, 1);
}

#[test]
fn underrun_repeats_the_last_pair() {
    let mut stage = OutputStage::new(2, 1);
    let rt = RtState::new(0x3F00_0000, 1);
    let mut out = Vec::new();
    assert_eq!(stage.process(&rt, 4, &mut out), 0);
    assert_eq!(out, vec![0, 0, 0, 0]);
    stage.accept(&vec![7, 8]);
    assert_eq!(stage.process(&rt, 6, &mut out), 1);
    assert_eq!(out, vec![7, 8, 7, 8, 7, 8]);
    assert_eq!(stage.process(&rt, 4, &mut out), 0);
    assert_eq!(out, vec![7, 8, 7, 8]);
}

#[test]
fn single_last_sample_plays_on_both_sides() {
    let mut stage = OutputStage::new(2, 1);
    stage.accept(&vec![1, 2, 3]);
    let rt = RtState::new(0x3F00_0000, 1);
    let mut out = Vec::new();
    assert_eq!(stage.process(&rt, 6, &mut out), 2);
    assert_eq!(out, vec![1, 2, 3, 3, 3, 3]);
}

#[test]
fn partial_frame_at_the_end_of_the_buffer_is_not_written() {
    let mut stage = OutputStage::new(2, 1);
    stage.accept(&vec![1, 2, 3, 4]);
    let rt = RtState::new(0x3F00_0000, 1);
    let mut out = Vec::new();
    assert_eq!(stage.process(&rt, 3, &mut out), 1);
    assert_eq!(out, vec![1, 2]);
    let mut none = OutputStage::new(0, 1);
    none.accept(&vec![1, 2]);
    assert_eq!(none.process(&rt, 8, &mut out), 0);
    assert!(out.is_empty());
    assert!(!none.wants_more(8));
}

#[test]
fn silenced_callback_writes_silence_and_keeps_samples() {
    let mut stage = OutputStage::new(2, 1);
    stage.accept(&vec![1, 2, 3, 4]);
    let mut out = Vec::new();
    let mut paused = RtState::new(0x3F00_0000, 1);
    paused.pause();
    assert_eq!(stage.process(&paused, 5, &mut out), 0);
    assert_eq!(out, vec![0; 5]);
    let mut stopped = RtState::new(0x3F00_0000, 1);
    stopped.request_stop();
    assert_eq!(stage.process(&stopped, 4, &mut out), 0);
    assert_eq!(out, vec![0; 4]);
    let mut finished = RtState::new(0x3F00_0000, 1);
    finished.mark_finished();
    assert_eq!(stage.process(&finished, 4, &mut out), 0);
    assert_eq!(out, vec![0; 4]);
    assert_eq!(stage.queued_samples(), 4);
    let rt = RtState::new(0x3F00_0000, 1);
    assert_eq!(stage.process(&rt, 4, &mut out), 2);
    assert_eq!(out, vec![1, 2, 3, 4]);
}

#[test]
fn stale_session_callback_is_inert() {
    let mut c = Controller::new();
    let first = c.play("a.flac".to_string(), 0x3F00_0000, None);
    let mut old_stage = OutputStage::new(2, first.rt.generation);
    old_stage.accept(&vec![1, 2, 3, 4]);
    c.stop();
    c.stopped();
    let second = c.play("b.flac".to_string(), 0x3F00_0000, None);
    let mut out = Vec::new();
    let taken = old_stage.process(&second.rt, 4, &mut out);
    assert_eq!(taken, 0);
    assert_eq!(out, vec![0, 0, 0, 0]);
    assert_eq!(old_stage.queued_samples(), 4);
    let mut new_stage = OutputStage::new(2, second.rt.generation);
    new_stage.accept(&vec![5, 6]);
    assert_eq!(new_stage.process(&second.rt, 2, &mut out), 1);
    assert_eq!(out, vec![5, 6]);
}

#[test]
fn stage_asks_for_more_below_two_samples_a_frame() {
    let mut stage = OutputStage::new(2, 1);
    assert!(stage.wants_more(2));
    assert!(!stage.wants_more(1));
    assert!(!stage.wants_more(0));
    stage.accept(&vec![1, 2, 3]);
    assert!(!stage.wants_more(2));
    assert!(stage.wants_more(4));
    stage.accept(&vec![4]);
    assert!(!stage.wants_more(4));
    let mono = OutputStage::new(1, 1);
    assert!(mono.wants_more(usize::MAX));
}

#[test]
fn stage_is_exhausted_when_empty_and_decoder_done() {
    let mut stage = OutputStage::new(2, 1);
    assert!(stage.exhausted(true));
    assert!(!stage.exhausted(false));
    stage.accept(&vec![1, 2]);
    assert!(!stage.exhausted(true));
}

#[test]
fn preload_fills_to_two_seconds() {
    let mut stage = OutputStage::new(2, 1);
    let mut preload = Preload::new(1000);
    assert!(preload.wanted(&stage));
    assert_eq!(preload.on_received(&mut stage, Received::Batch(vec![1; 3999])), PreloadStep::Poll);
    assert_eq!(preload.on_received(&mut stage, Received::Batch(vec![1; 1])), PreloadStep::Start);
    assert_eq!(stage.queued_samples(), 4000);
    assert!(!preload.wanted(&stage));
    assert_eq!(preload.on_received(&mut stage, Received::Batch(vec![2; 10])), PreloadStep::Start);
    assert_eq!(stage.queued_samples(), 4010);
}

#[test]
fn preload_gives_up_after_empty_polls() {
    let mut stage = OutputStage::new(2, 1);
    let mut preload = Preload::new(44100);
    for _ in 0..MAX_PRELOAD_ATTEMPTS - 1 {
        assert_eq!(preload.on_received(&mut stage, Received::Empty), PreloadStep::WaitThenPoll);
    }
    assert_eq!(preload.on_received(&mut stage, Received::Empty), PreloadStep::Start);
    assert_eq!(preload.on_received(&mut stage, Received::Empty), PreloadStep::Start);
}

#[test]
fn preload_restarts_its_count_on_a_batch() {
    let mut stage = OutputStage::new(2, 1);
    let mut preload = Preload::new(44100);
    for _ in 0..MAX_PRELOAD_ATTEMPTS - 1 {
        preload.on_received(&mut stage, Received::Empty);
    }
    assert_eq!(preload.on_received(&mut stage, Received::Batch(vec![1, 2])), PreloadStep::Poll);
    for _ in 0..MAX_PRELOAD_ATTEMPTS - 1 {
        assert_eq!(preload.on_received(&mut stage, Received::Empty), PreloadStep::WaitThenPoll);
    }
    assert_eq!(preload.on_received(&mut stage, Received::Empty), PreloadStep::Start);
}

#[test]
fn preload_passes_over_a_bounded_run_of_empty_batches() {
    let mut stage = OutputStage::new(2, 1);
    let mut preload = Preload::new(44100);
    for _ in 0..MAX_SILENT_BATCHES {
        assert_eq!(preload.on_received(&mut stage, Received::Batch(vec![])), PreloadStep::Poll);
    }
    assert_eq!(preload.on_received(&mut stage, Received::Batch(vec![])), PreloadStep::Start);
}

#[test]
fn preload_ends_when_the_queue_is_closed() {
    let mut stage = OutputStage::new(2, 1);
    let mut preload = Preload::new(44100);
    assert_eq!(preload.on_received(&mut stage, Received::Disconnected), PreloadStep::Start);
    assert!(!preload.wanted(&stage));
}

#[test]
fn three_minute_track_plays_to_the_end_and_finishes_once() {
    let rate = 44100u32;
    let total_frames: u64 = 3 * 60 * 44100;
    let mut controller = Controller::new();
    let order = controller.play("track.flac".to_string(), 0x3F80_0000, None);
    let mut rt = order.rt;
    assert!(controller.started(rt.generation));

    let mut worker = DecodeWorker::new(rate, rate, 0);
    let mut stage = OutputStage::new(2, rt.generation);
    let mut queue: std::collections::VecDeque<Vec<u32>> = std::collections::VecDeque::new();
    let mut decoded: u64 = 0;
    let mut action = Action::ReadPacket;
    let mut now = 0u64;
    let mut closed = false;
    let mut announcements = 0u32;
    let mut out = Vec::new();
    let mut checksum_in: u64 = 0;
    let mut checksum_out: u64 = 0;

    while !rt.finished {
        // the decode thread runs until the queue is full or it ends
        while !closed && queue.len() < 256 {
            now += 1;
            action = match action {
                Action::ReadPacket => {
                    if decoded == total_frames {
                        worker.step(Event::Packet(PacketEvent::EndOfStream), now)
                    } else {
                        worker.step(Event::Packet(PacketEvent::Audio), now)
                    }
                }
                Action::DecodePacket => {
                    let frames = std::cmp::min(4608, total_frames - decoded) as usize;
                    let p = stereo_packet((decoded % 1_000_000) as u32, frames);
                    for i in 0..frames {
                        let f = p.data.frame(i);
                        checksum_in = checksum_in.wrapping_mul(31).wrapping_add(f.0 as u64);
                        checksum_in = checksum_in.wrapping_mul(31).wrapping_add(f.1 as u64);
                    }
                    decoded += frames as u64;
                    worker.step(Event::Decoded(DecodeEvent::Frames(p)), now)
                }
                Action::Send(batch) => {
                    queue.push_back(batch);
                    worker.step(Event::Sent(true), now)
                }
                Action::Exit { finished } => {
                    assert!(finished);
                    rt.decoder_exited();
                    closed = true;
                    Action::Ignored
                }
                other => panic!("unexpected action {:?}", other),
            };
        }
        // one callback of the device for 512 frames
        let requested = 1024usize;
        while stage.wants_more(requested) {
            match queue.pop_front() {
                Some(batch) => stage.accept(&batch),
                None => {
                    if closed && stage.exhausted(rt.decoder_finished) {
                        rt.mark_finished();
                    }
                    break;
                }
            }
        }
        let taken = stage.process(&rt, requested, &mut out);
        for s in out.iter().take(2 * taken as usize) {
            checksum_out = checksum_out.wrapping_mul(31).wrapping_add(*s as u64);
        }
        let before = rt.samples_played;
        rt.advance(taken);
        assert!(rt.samples_played >= before);
        if rt.ended_naturally() && controller.finished(rt.generation) {
            announcements += 1;
        }
    }
    for _ in 0..3 {
        if rt.ended_naturally() && controller.finished(rt.generation) {
            announcements += 1;
        }
    }
    assert_eq!(announcements, 1);
    assert_eq!(rt.samples_played, total_frames);
    assert_eq!(checksum_in, checksum_out);
}

#[test]
fn bypass_keeps_every_frame_of_a_very_long_packet() {
    let frames = PENDING_MAX + 36_160;
    let mut w = DecodeWorker::new(48000, 48000, 0);
    w.step(Event::Packet(PacketEvent::Audio), 0);
    let mut action = w.step(Event::Decoded(DecodeEvent::Frames(stereo_packet(0, frames))), 0);
    let mut sent: Vec<u32> = Vec::new();
    loop {
        action = match action {
            Action::Send(batch) => {
                sent.extend(batch);
                w.step(Event::Sent(true), 0)
            }
            Action::ReadPacket => w.step(Event::Packet(PacketEvent::EndOfStream), 0),
            Action::Exit { finished } => {
                assert!(finished);
                break;
            }
            other => panic!("unexpected action {:?}", other),
        };
    }
    assert_eq!(sent, counting(0, 2 * frames));
}

#[test]
fn resampling_drops_the_oldest_frames_beyond_the_limit() {
    let frames = PENDING_MAX + 5;
    let mut w = DecodeWorker::new(44100, 48000, 0);
    w.step(Event::Packet(PacketEvent::Audio), 0);
    let action = w.step(Event::Decoded(DecodeEvent::Frames(mono_packet(0, frames))), 0);
    match action {
        Action::Resample(block) => assert_eq!(block.left[0], 5),
        other => panic!("expected a block, got {:?}", other),
    }
    assert_eq!(w.pending_len(), PENDING_MAX - BLOCK_FRAMES);
}

#[test]
fn queue_holds_a_fixed_number_of_batches() {
    assert_eq!(lcmp_core::batch::QUEUE_BATCHES, 256);
}
