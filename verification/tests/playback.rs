use oidar::playback::{buffer_is_whole_frames, nap_nanos, plan_transfer, TransferPlan, PLAY_INTERVAL_NANOS};

#[test]
fn plan_copies_what_both_sides_have() {
    let p = plan_transfer(10, 2, 4, 8, 2, 2);
    assert_eq!(
        p,
        TransferPlan {
            groups: 3,
            source_start: 4,
            source_count: 6,
            target_start: 2,
            target_count: 6,
            mix_to_mono: false,
            next_frames_offset: 10,
            next_data_offset: 8,
            release_frames: true,
        }
    );
}

#[test]
fn plan_limited_by_output_buffer() {
    let p = plan_transfer(10, 2, 0, 4, 0, 2);
    assert_eq!(p.groups, 2);
    assert_eq!(p.source_count, 4);
    assert_eq!(p.next_frames_offset, 4);
    assert_eq!(p.next_data_offset, 4);
    assert!(!p.release_frames);
}

#[test]
fn mixing_counts_groups_not_samples() {
    // 2-channel frames [1,3,5,7] into a 1-channel buffer of 2: two source
    // groups are mixed into the two device groups, and the frames are used up
    let p = plan_transfer(4, 2, 0, 2, 0, 1);
    assert!(p.mix_to_mono);
    assert_eq!(p.groups, 2);
    assert_eq!(p.source_count, 4);
    assert_eq!(p.target_count, 2);
    assert!(p.release_frames);
}

#[test]
fn mixing_into_more_device_channels() {
    let p = plan_transfer(6, 1, 0, 4, 0, 2);
    assert!(p.mix_to_mono);
    assert_eq!(p.groups, 2);
    assert_eq!(p.source_count, 2);
    assert_eq!(p.target_count, 4);
    assert!(!p.release_frames);
}

#[test]
fn trailing_partial_group_is_dropped() {
    // frames [1,2,3] of 2 channels into a buffer of 4: one group is copied
    // and the frames are released with their half group
    let p = plan_transfer(3, 2, 0, 4, 0, 2);
    assert_eq!(p.source_count, 2);
    assert_eq!(p.next_frames_offset, 2);
    assert!(p.release_frames);
}

#[test]
fn read_out_whole_frames_are_released_without_copying() {
    let p = plan_transfer(4, 2, 4, 8, 4, 2);
    assert_eq!(p.groups, 0);
    assert!(p.release_frames);
}

#[test]
fn empty_frames_are_released() {
    let p = plan_transfer(0, 2, 0, 8, 0, 2);
    assert_eq!(p.groups, 0);
    assert!(p.release_frames);
}

#[test]
fn frames_without_channels_are_released() {
    let p = plan_transfer(0, 0, 0, 2, 0, 1);
    assert_eq!(p.groups, 0);
    assert_eq!(p.target_count, 0);
    assert!(p.release_frames);
}

#[test]
fn output_buffers_hold_whole_groups() {
    assert!(buffer_is_whole_frames(8, 2));
    assert!(!buffer_is_whole_frames(7, 2));
    assert!(!buffer_is_whole_frames(8, 0));
    assert!(buffer_is_whole_frames(0, 3));
}

#[test]
fn nap_is_rest_of_interval() {
    assert_eq!(nap_nanos(PLAY_INTERVAL_NANOS, 30_000_000), 70_000_000);
    assert_eq!(nap_nanos(PLAY_INTERVAL_NANOS, PLAY_INTERVAL_NANOS), 0);
    assert_eq!(nap_nanos(PLAY_INTERVAL_NANOS, 0), 100_000_000);
}

#[test]
fn slow_play_gets_no_nap() {
    assert_eq!(nap_nanos(PLAY_INTERVAL_NANOS, 250_000_000), 0);
}

/// Fills device buffers from a queue of frames the way the player's
/// callback does, copying groups as planned.
fn fill(queue: &[Vec<f32>], channels: usize, state: &mut (usize, usize), data: &mut [f32]) {
    let mut data_offset = 0;
    while data_offset < data.len() && state.0 < queue.len() {
        let f = &queue[state.0];
        let p = plan_transfer(f.len(), channels, state.1, data.len(), data_offset, channels);
        data[p.target_start..p.target_start + p.target_count]
            .copy_from_slice(&f[p.source_start..p.source_start + p.source_count]);
        data_offset = p.next_data_offset;
        state.1 = p.next_frames_offset;
        if p.release_frames {
            state.0 += 1;
            state.1 = 0;
        }
    }
}

#[test]
fn successive_buffers_play_every_sample_once_in_order() {
    let queue = vec![vec![1.0f32, 2.0, 3.0, 4.0], vec![5.0, 6.0], vec![7.0, 8.0, 9.0, 10.0]];
    let mut state = (0, 0);
    let mut d1 = [0.0f32; 4];
    let mut d2 = [0.0f32; 4];
    let mut d3 = [0.0f32; 2];
    fill(&queue, 2, &mut state, &mut d1);
    fill(&queue, 2, &mut state, &mut d2);
    fill(&queue, 2, &mut state, &mut d3);
    assert_eq!(d1, [1.0, 2.0, 3.0, 4.0]);
    assert_eq!(d2, [5.0, 6.0, 7.0, 8.0]);
    assert_eq!(d3, [9.0, 10.0]);
}
