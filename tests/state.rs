use rust_audio::state::VisualizerState;
use rust_audio::{BIN_COUNT, FFT_SIZE};

fn half_window() -> Vec<u32> {
    (0..BIN_COUNT as u32).collect()
}

#[test]
fn fresh_state_is_zeroed() {
    let s = VisualizerState::new(&half_window(), 0u32);
    assert_eq!(s.previous_magnitudes(), &vec![0u32; BIN_COUNT]);
    assert_eq!(s.dc_filter_state(), (0, 0));
    let w = s.window_table();
    assert_eq!(w.len(), FFT_SIZE);
    assert_eq!(w[0], 0);
    assert_eq!(w[31], 31);
    assert_eq!(w[32], 31);
    assert_eq!(w[63], 0);
}

#[test]
fn windowed_pairs_of_long_chunk() {
    let s = VisualizerState::new(&half_window(), 0u32);
    let chunk: Vec<u32> = (0..1470).collect();
    let pairs = s.windowed_pairs(&chunk, 0);
    assert_eq!(pairs.len(), FFT_SIZE);
    assert_eq!(pairs[0], (1406, 0));
    assert_eq!(pairs[40], (1446, 23));
    assert_eq!(pairs[63], (1469, 0));
}

#[test]
fn windowed_pairs_of_short_chunk_keep_position() {
    let s = VisualizerState::new(&half_window(), 0u32);
    let chunk = vec![100u32, 200, 300];
    let pairs = s.windowed_pairs(&chunk, 7);
    assert_eq!(pairs[60], (7, 3));
    assert_eq!(pairs[61], (100, 2));
    assert_eq!(pairs[62], (200, 1));
    assert_eq!(pairs[63], (300, 0));
}

#[test]
fn commit_replaces_magnitudes_and_filter_state() {
    let mut s = VisualizerState::new(&half_window(), 0u32);
    let window_before = s.window_table().clone();
    let mags: Vec<u32> = (100..100 + BIN_COUNT as u32).collect();
    s.commit(mags.clone(), (5, 9));
    assert_eq!(s.previous_magnitudes(), &mags);
    assert_eq!(s.dc_filter_state(), (5, 9));
    assert_eq!(s.window_table(), &window_before);
}
