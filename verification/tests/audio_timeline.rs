//! The timeline between the decoder and the audio device.

use sanctuary_player::audio_timeline::{pcm_timeline_ring, FillStats, PcmTimeline, QueueError, QueueResult};

fn mono_ring(capacity: usize) -> PcmTimeline {
    pcm_timeline_ring(capacity, 1)
}

fn bits(samples: &[f32]) -> Vec<u32> {
    samples.iter().map(|sample| sample.to_bits()).collect()
}

fn fill(timeline: &mut PcmTimeline, out: &mut [f32]) -> FillStats {
    let mut raw = bits(out);
    let stats = timeline.fill(&mut raw);
    for (sample, bits) in out.iter_mut().zip(raw) {
        *sample = f32::from_bits(bits);
    }
    stats
}

#[test]
fn first_frame_initialises_integer_timeline_and_appends() {
    let mut timeline = mono_ring(8);
    assert_eq!(
        timeline.queue_interleaved(Some(100), 3, &bits(&[1.0, 2.0, 3.0])),
        Ok(QueueResult::Queued)
    );
    assert_eq!(timeline.origin_pts(), Some(100));
    assert_eq!(timeline.next_output_pts(), Some(100));
    assert_eq!(timeline.ring_end_pts(), Some(103));
    assert_eq!(timeline.shared.ring_start_pts(), Some(100));
    assert_eq!(timeline.queued_frames(), 3);
}

#[test]
fn contiguous_frame_appends_at_ring_end() {
    let mut timeline = mono_ring(8);
    timeline
        .queue_interleaved(Some(10), 2, &bits(&[1.0, 2.0]))
        .unwrap();
    assert_eq!(
        timeline.queue_interleaved(Some(12), 2, &bits(&[3.0, 4.0])),
        Ok(QueueResult::Queued)
    );
    let mut out = [0.0; 4];
    let stats = fill(&mut timeline, &mut out);
    assert_eq!(out, [1.0, 2.0, 3.0, 4.0]);
    assert_eq!(stats.copied_frames, 4);
    assert_eq!(timeline.next_output_pts(), Some(14));
}

#[test]
fn missing_pts_is_assumed_contiguous() {
    let mut timeline = mono_ring(8);
    timeline
        .queue_interleaved(Some(50), 2, &bits(&[1.0, 2.0]))
        .unwrap();
    assert_eq!(
        timeline.queue_interleaved(None, 2, &bits(&[3.0, 4.0])),
        Ok(QueueResult::Queued)
    );
    assert_eq!(timeline.ring_end_pts(), Some(54));
    let mut out = [0.0; 4];
    fill(&mut timeline, &mut out);
    assert_eq!(out, [1.0, 2.0, 3.0, 4.0]);
}

#[test]
fn small_forward_gap_is_padded_with_zeroes_before_frame() {
    let mut timeline = mono_ring(8);
    timeline
        .queue_interleaved(Some(10), 2, &bits(&[1.0, 2.0]))
        .unwrap();
    assert_eq!(
        timeline.queue_interleaved(Some(14), 2, &bits(&[5.0, 6.0])),
        Ok(QueueResult::Queued)
    );
    assert_eq!(timeline.ring_end_pts(), Some(16));
    let mut out = [9.0; 6];
    fill(&mut timeline, &mut out);
    assert_eq!(out, [1.0, 2.0, 0.0, 0.0, 5.0, 6.0]);
}

#[test]
fn too_large_gap_fills_available_ring_with_zeroes_and_defers_frame() {
    let mut timeline = mono_ring(4);
    timeline.queue_interleaved(Some(0), 1, &bits(&[1.0])).unwrap();

    assert_eq!(
        timeline.queue_interleaved(Some(10), 1, &bits(&[9.0])),
        Ok(QueueResult::Deferred)
    );
    assert_eq!(timeline.queued_frames(), 4);
    assert_eq!(timeline.ring_end_pts(), Some(4));

    let mut first = [7.0; 4];
    fill(&mut timeline, &mut first);
    assert_eq!(first, [1.0, 0.0, 0.0, 0.0]);

    assert_eq!(
        timeline.queue_interleaved(Some(10), 1, &bits(&[9.0])),
        Ok(QueueResult::Deferred)
    );
    assert_eq!(timeline.ring_end_pts(), Some(8));
    let mut second = [7.0; 4];
    fill(&mut timeline, &mut second);
    assert_eq!(second, [0.0; 4]);

    assert_eq!(
        timeline.queue_interleaved(Some(10), 1, &bits(&[9.0])),
        Ok(QueueResult::Queued)
    );
    assert_eq!(timeline.ring_end_pts(), Some(11));
    let mut third = [7.0; 3];
    fill(&mut timeline, &mut third);
    assert_eq!(third, [0.0, 0.0, 9.0]);
}

#[test]
fn gap_can_fit_while_following_frame_is_deferred_without_partial_audio() {
    let mut timeline = mono_ring(4);
    timeline.queue_interleaved(Some(0), 1, &bits(&[1.0])).unwrap();

    assert_eq!(
        timeline.queue_interleaved(Some(3), 2, &bits(&[3.0, 4.0])),
        Ok(QueueResult::Deferred)
    );
    assert_eq!(timeline.ring_end_pts(), Some(3));
    assert_eq!(timeline.queued_frames(), 3);

    let mut first = [9.0; 4];
    fill(&mut timeline, &mut first);
    assert_eq!(first, [1.0, 0.0, 0.0, 0.0]);
    assert_eq!(timeline.next_output_pts(), Some(4));

    assert_eq!(
        timeline.queue_interleaved(Some(3), 2, &bits(&[3.0, 4.0])),
        Ok(QueueResult::Queued)
    );
    let mut second = [0.0; 1];
    fill(&mut timeline, &mut second);
    assert_eq!(second, [4.0]);
}

#[test]
fn future_frame_after_underflow_pads_from_next_output_cursor() {
    let mut timeline = mono_ring(8);
    timeline.queue_interleaved(Some(10), 1, &bits(&[1.0])).unwrap();

    let mut first = [0.0; 3];
    fill(&mut timeline, &mut first);
    assert_eq!(first, [1.0, 0.0, 0.0]);
    assert_eq!(timeline.next_output_pts(), Some(13));

    assert_eq!(
        timeline.queue_interleaved(Some(15), 1, &bits(&[6.0])),
        Ok(QueueResult::Queued)
    );
    assert_eq!(timeline.ring_end_pts(), Some(16));

    let mut second = [9.0; 3];
    fill(&mut timeline, &mut second);
    assert_eq!(second, [0.0, 0.0, 6.0]);
    assert_eq!(timeline.next_output_pts(), Some(16));
}

#[test]
fn wholly_overlapped_frame_is_dropped() {
    let mut timeline = mono_ring(8);
    timeline
        .queue_interleaved(Some(10), 4, &bits(&[1.0, 2.0, 3.0, 4.0]))
        .unwrap();
    assert_eq!(
        timeline.queue_interleaved(Some(11), 2, &bits(&[8.0, 9.0])),
        Ok(QueueResult::Dropped)
    );
    assert_eq!(timeline.ring_end_pts(), Some(14));
    assert_eq!(timeline.queued_frames(), 4);
}

#[test]
fn partial_overlap_trims_only_duplicate_prefix() {
    let mut timeline = mono_ring(8);
    timeline
        .queue_interleaved(Some(10), 4, &bits(&[1.0, 2.0, 3.0, 4.0]))
        .unwrap();
    assert_eq!(
        timeline.queue_interleaved(Some(12), 4, &bits(&[30.0, 40.0, 5.0, 6.0])),
        Ok(QueueResult::Queued)
    );
    assert_eq!(timeline.ring_end_pts(), Some(16));
    let mut out = [0.0; 6];
    fill(&mut timeline, &mut out);
    assert_eq!(out, [1.0, 2.0, 3.0, 4.0, 5.0, 6.0]);
}

#[test]
fn contiguous_overflow_defers_whole_frame_without_partial_append() {
    let mut timeline = mono_ring(4);
    timeline
        .queue_interleaved(Some(0), 3, &bits(&[1.0, 2.0, 3.0]))
        .unwrap();
    assert_eq!(
        timeline.queue_interleaved(Some(3), 2, &bits(&[4.0, 5.0])),
        Ok(QueueResult::Deferred)
    );
    assert_eq!(timeline.ring_end_pts(), Some(3));

    let mut first = [0.0; 2];
    fill(&mut timeline, &mut first);
    assert_eq!(first, [1.0, 2.0]);

    assert_eq!(
        timeline.queue_interleaved(Some(3), 2, &bits(&[4.0, 5.0])),
        Ok(QueueResult::Queued)
    );
    let mut rest = [0.0; 3];
    fill(&mut timeline, &mut rest);
    assert_eq!(rest, [3.0, 4.0, 5.0]);
}

#[test]
fn callback_discards_ring_data_that_is_behind_next_output_pts() {
    let mut timeline = mono_ring(8);
    timeline
        .queue_interleaved(Some(0), 6, &bits(&[0.0, 1.0, 2.0, 3.0, 4.0, 5.0]))
        .unwrap();

    timeline.shared.next_output_pts = 3;
    let mut out = [99.0; 2];
    let stats = fill(&mut timeline, &mut out);
    assert_eq!(stats.discarded_frames, 3);
    assert_eq!(out, [3.0, 4.0]);
    assert_eq!(timeline.next_output_pts(), Some(5));
}

#[test]
fn callback_inserts_silence_when_ring_starts_ahead_then_copies_audio() {
    let mut timeline = mono_ring(8);
    timeline.queue_interleaved(Some(3), 2, &bits(&[7.0, 8.0])).unwrap();
    timeline.shared.next_output_pts = 0;

    let mut out = [1.0; 5];
    let stats = fill(&mut timeline, &mut out);
    assert_eq!(out, [0.0, 0.0, 0.0, 7.0, 8.0]);
    assert_eq!(stats.silence_frames, 3);
    assert_eq!(stats.copied_frames, 2);
    assert_eq!(timeline.next_output_pts(), Some(5));
}

#[test]
fn empty_ring_outputs_silence_and_advances_next_output_pts() {
    let mut timeline = mono_ring(4);
    timeline.queue_interleaved(Some(100), 1, &bits(&[1.0])).unwrap();
    let mut first = [0.0; 1];
    fill(&mut timeline, &mut first);
    assert_eq!(timeline.next_output_pts(), Some(101));

    let mut out = [9.0; 3];
    let stats = fill(&mut timeline, &mut out);
    assert_eq!(out, [0.0; 3]);
    assert_eq!(stats.silence_frames, 3);
    assert_eq!(timeline.next_output_pts(), Some(104));
}

#[test]
fn partial_underflow_copies_available_audio_then_zero_fills_remainder() {
    let mut timeline = mono_ring(8);
    timeline
        .queue_interleaved(Some(20), 2, &bits(&[1.0, 2.0]))
        .unwrap();
    let mut out = [9.0; 5];
    let stats = fill(&mut timeline, &mut out);
    assert_eq!(out, [1.0, 2.0, 0.0, 0.0, 0.0]);
    assert_eq!(stats.copied_frames, 2);
    assert_eq!(stats.silence_frames, 3);
    assert_eq!(timeline.next_output_pts(), Some(25));
}

#[test]
fn late_frame_after_underflow_trims_missed_prefix_and_keeps_future_suffix() {
    let mut timeline = mono_ring(8);
    timeline.queue_interleaved(Some(0), 1, &bits(&[1.0])).unwrap();

    let mut first = [9.0; 4];
    fill(&mut timeline, &mut first);
    assert_eq!(first, [1.0, 0.0, 0.0, 0.0]);
    assert_eq!(timeline.next_output_pts(), Some(4));

    assert_eq!(
        timeline.queue_interleaved(Some(2), 4, &bits(&[2.0, 3.0, 4.0, 5.0])),
        Ok(QueueResult::Queued)
    );
    let mut second = [0.0; 2];
    fill(&mut timeline, &mut second);
    assert_eq!(second, [4.0, 5.0]);
    assert_eq!(timeline.next_output_pts(), Some(6));
}

#[test]
fn wholly_late_frame_after_underflow_is_dropped() {
    let mut timeline = mono_ring(8);
    timeline.queue_interleaved(Some(0), 1, &bits(&[1.0])).unwrap();
    let mut out = [0.0; 4];
    fill(&mut timeline, &mut out);
    assert_eq!(timeline.next_output_pts(), Some(4));

    assert_eq!(
        timeline.queue_interleaved(Some(1), 2, &bits(&[8.0, 9.0])),
        Ok(QueueResult::Dropped)
    );
    assert_eq!(timeline.queued_frames(), 0);
}

#[test]
fn missing_pts_after_underflow_continues_from_next_output_pts() {
    let mut timeline = mono_ring(8);
    timeline.queue_interleaved(Some(10), 1, &bits(&[1.0])).unwrap();
    let mut first = [0.0; 3];
    fill(&mut timeline, &mut first);
    assert_eq!(timeline.next_output_pts(), Some(13));

    assert_eq!(
        timeline.queue_interleaved(None, 2, &bits(&[4.0, 5.0])),
        Ok(QueueResult::Queued)
    );
    assert_eq!(timeline.ring_end_pts(), Some(15));
    let mut second = [0.0; 2];
    fill(&mut timeline, &mut second);
    assert_eq!(second, [4.0, 5.0]);
}

#[test]
fn stereo_timeline_counts_sample_frames_not_scalar_samples() {
    let mut timeline = pcm_timeline_ring(4, 2);
    timeline
        .queue_interleaved(Some(10), 2, &bits(&[1.0, -1.0, 2.0, -2.0]))
        .unwrap();
    assert_eq!(timeline.queued_frames(), 2);
    assert_eq!(timeline.ring_end_pts(), Some(12));
    let mut out = [0.0; 4];
    fill(&mut timeline, &mut out);
    assert_eq!(out, [1.0, -1.0, 2.0, -2.0]);
    assert_eq!(timeline.next_output_pts(), Some(12));
}

#[test]
fn frame_larger_than_ring_capacity_is_rejected() {
    let mut timeline = mono_ring(2);
    let error = timeline
        .queue_interleaved(Some(0), 3, &bits(&[1.0, 2.0, 3.0]))
        .unwrap_err();
    assert!(error.message().contains("ring capacity"));
}

#[test]
fn callback_before_timeline_initialisation_is_silent_without_advancing_pts() {
    let mut timeline = mono_ring(4);
    let mut out = [1.0; 2];
    let stats = fill(&mut timeline, &mut out);
    assert_eq!(out, [0.0; 2]);
    assert_eq!(stats.silence_frames, 2);
    assert_eq!(timeline.next_output_pts(), None);
    assert_eq!(timeline.queued_frames(), 0);
}

#[test]
fn frame_with_too_few_samples_is_rejected() {
    let mut timeline = pcm_timeline_ring(8, 2);
    let error = timeline.queue_interleaved(Some(0), 2, &bits(&[1.0, 2.0, 3.0])).unwrap_err();
    assert_eq!(error, QueueError::SampleCount { actual: 3, expected: 4 });
    assert_eq!(timeline.queued_frames(), 0);
}

#[test]
fn frame_that_ends_beyond_all_time_stamps_is_rejected() {
    let mut timeline = mono_ring(8);
    assert_eq!(
        timeline.queue_interleaved(Some(i64::MAX), 1, &bits(&[1.0])),
        Err(QueueError::EndOverflow)
    );
}

#[test]
fn room_and_queue_make_up_the_ring() {
    let mut timeline = mono_ring(8);
    assert_eq!(timeline.vacant_frames(), 8);
    timeline.queue_interleaved(Some(0), 3, &bits(&[1.0, 2.0, 3.0])).unwrap();
    assert_eq!(timeline.vacant_frames(), 5);
    assert_eq!(timeline.queued_frames() + timeline.vacant_frames(), 8);
}

#[test]
fn every_block_holds_what_is_due() {
    let mut timeline = pcm_timeline_ring(16, 2);
    let frame = |first: u32| -> Vec<u32> { (first..first + 8).collect() };
    assert_eq!(timeline.queue_interleaved(Some(10), 4, &frame(100)), Ok(QueueResult::Queued));
    // Two sample frames are covered already, and those of the next frame lie behind a gap.
    assert_eq!(timeline.queue_interleaved(Some(12), 4, &frame(200)), Ok(QueueResult::Queued));
    assert_eq!(timeline.queue_interleaved(Some(18), 4, &frame(300)), Ok(QueueResult::Queued));
    let heard = |pts: u32, channel: u32| match pts {
        10..=13 => 100 + (pts - 10) * 2 + channel,
        14..=15 => 200 + (pts - 12) * 2 + channel,
        18..=21 => 300 + (pts - 18) * 2 + channel,
        _ => 0,
    };
    let mut pts = 10;
    for requested in [3, 1, 4, 5, 3] {
        let mut block = vec![9; requested * 2];
        timeline.fill(&mut block);
        for (index, sample) in block.iter().enumerate() {
            assert_eq!(*sample, heard(pts + index as u32 / 2, index as u32 % 2));
        }
        pts += requested as u32;
    }
}

#[test]
fn missed_audio_is_not_heard() {
    let mut timeline = mono_ring(8);
    timeline.queue_interleaved(Some(0), 1, &[1]).unwrap();
    timeline.fill(&mut [0; 4]);
    timeline.queue_interleaved(Some(2), 4, &[2, 3, 4, 5]).unwrap();
    let mut block = [9; 3];
    timeline.fill(&mut block);
    assert_eq!(block, [4, 5, 0]);
}

#[test]
fn nothing_is_filled_by_default() {
    assert_eq!(
        FillStats::default(),
        FillStats { output_frames: 0, copied_frames: 0, silence_frames: 0, discarded_frames: 0 }
    );
}
