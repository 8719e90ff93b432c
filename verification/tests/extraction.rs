use std::collections::VecDeque;

use spectrum_monitor::utils::{contains_device_id, extract_float_samples};

fn queue_of_frames(frames: &[(f32, f32)]) -> VecDeque<u8> {
    let mut q = VecDeque::new();
    for &(left, right) in frames {
        for b in left.to_le_bytes() {
            q.push_back(b);
        }
        for b in right.to_le_bytes() {
            q.push_back(b);
        }
    }
    q
}

#[test]
fn extracts_left_channel_of_stereo_frames() {
    let frames = [(0.5f32, 0.9f32), (-0.25f32, 0.1f32), (1.0f32, -1.0f32)];
    let mut q = queue_of_frames(&frames);
    let samples = extract_float_samples(&mut q, 3, 8);
    assert_eq!(samples.len(), 3);
    for (i, &(left, _)) in frames.iter().enumerate() {
        assert_eq!(f32::from_bits(samples[i]), left);
    }
}

#[test]
fn consumes_exactly_eight_bytes_per_stereo_frame() {
    let frames = [(0.5f32, 0.9f32), (-0.25f32, 0.1f32), (1.0f32, -1.0f32), (0.125f32, 0.0f32)];
    let mut q = queue_of_frames(&frames);
    q.push_back(0xAA);
    q.push_back(0xBB);
    let before = q.len();
    let samples = extract_float_samples(&mut q, 2, 8);
    assert_eq!(samples.len(), 2);
    assert_eq!(before - q.len(), 16);
    // the rest of the queue is untouched, starting with the third frame
    let next = extract_float_samples(&mut q, 2, 8);
    assert_eq!(f32::from_bits(next[0]), 1.0);
    assert_eq!(f32::from_bits(next[1]), 0.125);
    assert_eq!(q.len(), 2);
    assert_eq!(q[0], 0xAA);
    assert_eq!(q[1], 0xBB);
}

#[test]
fn extracts_little_endian_words() {
    let mut q: VecDeque<u8> = VecDeque::new();
    for b in [0x01u8, 0x02, 0x03, 0x04, 0xFF, 0xFF, 0xFF, 0xFF] {
        q.push_back(b);
    }
    let samples = extract_float_samples(&mut q, 1, 8);
    assert_eq!(samples, vec![0x04030201u32]);
    assert!(q.is_empty());
}

#[test]
fn extracts_mono_frames_without_discarding() {
    let mut q: VecDeque<u8> = VecDeque::new();
    for value in [7u32, 8, 9] {
        for b in value.to_le_bytes() {
            q.push_back(b);
        }
    }
    let samples = extract_float_samples(&mut q, 3, 4);
    assert_eq!(samples, vec![7, 8, 9]);
    assert!(q.is_empty());
}

#[test]
fn finds_device_id_in_list() {
    let ids = vec![String::from("alpha"), String::from("beta")];
    assert!(contains_device_id(&ids, &String::from("beta")));
    assert!(!contains_device_id(&ids, &String::from("gamma")));
    let empty: Vec<String> = Vec::new();
    assert!(!contains_device_id(&empty, &String::from("alpha")));
}
