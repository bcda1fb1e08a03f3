use voxlink::caret::context_around;
use voxlink::frames::{
    batch_target, count_sign_changes, deinterleave, first_channel, full_frames, SampleSign,
    RESAMPLER_CHUNK_SIZE,
};
use voxlink::ring::{fill_batch, new_sample_ring, push_sample, RING_BUFFER_CAPACITY};

#[test]
fn deinterleave_splits_channels() {
    let out = deinterleave(&[1, 2, 3, 4, 5, 6, 7], 2);
    assert_eq!(out, vec![vec![1, 3, 5], vec![2, 4, 6]]);
    let mono = deinterleave(&[1.5f32, 2.5], 1);
    assert_eq!(mono, vec![vec![1.5f32, 2.5]]);
}

#[test]
fn first_channel_takes_the_first_lane() {
    assert_eq!(first_channel(vec![vec![1, 2], vec![3]]), vec![1, 2]);
    assert!(first_channel::<u8>(vec![]).is_empty());
}

#[test]
fn full_frames_drop_the_partial_tail() {
    let frames = full_frames(&[1, 2, 3, 4, 5, 6, 7], 3);
    assert_eq!(frames, vec![vec![1, 2, 3], vec![4, 5, 6]]);
    assert!(full_frames(&[1, 2], 3).is_empty());
}

fn signs(samples: &[f32]) -> Vec<SampleSign> {
    samples
        .iter()
        .map(|s| {
            if *s >= 0.0 {
                SampleSign::NonNegative
            } else if *s < 0.0 {
                SampleSign::Negative
            } else {
                SampleSign::Unordered
            }
        })
        .collect()
}

#[test]
fn sign_changes_count_zero_crossings() {
    assert_eq!(count_sign_changes(&signs(&[1.0, -1.0, 1.0, -1.0, 1.0])), 4);
    assert_eq!(count_sign_changes(&signs(&[0.0; 100])), 0);
    assert_eq!(count_sign_changes(&signs(&[-1.0])), 0);
    assert_eq!(count_sign_changes(&[]), 0);
}

#[test]
fn nan_never_crosses_zero() {
    assert_eq!(count_sign_changes(&signs(&[1.0, f32::NAN, -1.0, f32::NAN, 1.0])), 0);
    assert_eq!(count_sign_changes(&signs(&[1.0, -1.0, f32::NAN])), 1);
}

#[test]
fn batch_target_is_a_chunk_per_channel() {
    assert_eq!(batch_target(2), Some(RESAMPLER_CHUNK_SIZE * 2));
    assert_eq!(batch_target(usize::MAX), None);
}

#[test]
fn context_window_is_two_hundred_each_side() {
    let text: Vec<u32> = (0..500).collect();
    let (before, after) = context_around(&text, 300);
    assert_eq!(before, (100..300).collect::<Vec<u32>>());
    assert_eq!(after, (300..500).collect::<Vec<u32>>());
    let (before, after) = context_around(&text, 50);
    assert_eq!(before, (0..50).collect::<Vec<u32>>());
    assert_eq!(after, (50..250).collect::<Vec<u32>>());
    let chars: Vec<char> = "abc".chars().collect();
    let (before, after) = context_around(&chars, 3);
    assert_eq!(before, vec!['a', 'b', 'c']);
    assert!(after.is_empty());
}

#[test]
fn ring_drops_oldest_when_full() {
    let mut ring = new_sample_ring();
    for i in 0..(RING_BUFFER_CAPACITY as u32 + 5) {
        push_sample(&mut ring, i);
    }
    let mut batch = Vec::new();
    let full = fill_batch(&mut ring, &mut batch, RING_BUFFER_CAPACITY + 1);
    assert!(!full);
    assert_eq!(batch.len(), RING_BUFFER_CAPACITY);
    assert_eq!(batch[0], 5);
    assert_eq!(*batch.last().unwrap(), RING_BUFFER_CAPACITY as u32 + 4);
}

#[test]
fn fill_batch_stops_at_target() {
    let mut ring = new_sample_ring();
    for i in 0..10u32 {
        push_sample(&mut ring, i);
    }
    let mut batch = vec![100];
    assert!(fill_batch(&mut ring, &mut batch, 4));
    assert_eq!(batch, vec![100, 0, 1, 2]);
    let mut rest = Vec::new();
    assert!(!fill_batch(&mut ring, &mut rest, 20));
    assert_eq!(rest, (3..10).collect::<Vec<u32>>());
}

#[test]
fn f32_samples_travel_as_bits() {
    let mut ring = new_sample_ring();
    push_sample(&mut ring, (-0.25f32).to_bits());
    let mut batch = Vec::new();
    fill_batch(&mut ring, &mut batch, 1);
    assert_eq!(f32::from_bits(batch[0]), -0.25);
}
