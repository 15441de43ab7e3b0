use termwave::bins::{bin_ranges, clamp_bin_range};
use termwave::capture::{
    audio_health, capture_request, device_display_name, with_system_audio, CaptureRequest, DEFAULT_SAMPLE_RATE,
    SYSTEM_AUDIO_LABEL,
};
use termwave::ring::{frame_aligned_len, split_channels, write_to_buffer};

#[test]
fn window_keeps_newest_samples() {
    let mut buf = vec![1, 2, 3, 4, 5];
    write_to_buffer(&mut buf, &[6, 7]);
    assert_eq!(buf, vec![3, 4, 5, 6, 7]);
    write_to_buffer(&mut buf, &[]);
    assert_eq!(buf, vec![3, 4, 5, 6, 7]);
    write_to_buffer(&mut buf, &[10, 11, 12, 13, 14, 15, 16]);
    assert_eq!(buf, vec![12, 13, 14, 15, 16]);
    write_to_buffer(&mut buf, &[20, 21, 22, 23, 24]);
    assert_eq!(buf, vec![20, 21, 22, 23, 24]);
    let mut empty: Vec<i32> = Vec::new();
    write_to_buffer(&mut empty, &[1, 2]);
    assert!(empty.is_empty());
}

#[test]
fn two_writes_equal_one() {
    let mut a = vec![0.0f32; 4];
    let mut b = a.clone();
    write_to_buffer(&mut a, &[1.0, 2.0, 3.0]);
    write_to_buffer(&mut a, &[4.0, 5.0]);
    write_to_buffer(&mut b, &[1.0, 2.0, 3.0, 4.0, 5.0]);
    assert_eq!(a, b);
    assert_eq!(a, vec![2.0, 3.0, 4.0, 5.0]);
}

#[test]
fn channel_split() {
    let (l, r) = split_channels(&[1, 2, 3, 4, 5, 6], 2);
    assert_eq!(l, vec![1, 3, 5]);
    assert_eq!(r, vec![2, 4, 6]);
    let (l, r) = split_channels(&[1, 2, 3], 1);
    assert_eq!(l, vec![1, 2, 3]);
    assert_eq!(r, vec![1, 2, 3]);
    // six channels: first two samples of each frame; a partial frame counts
    let (l, r) = split_channels(&[1, 2, 3, 4, 5, 6, 7, 8], 6);
    assert_eq!(l, vec![1, 7]);
    assert_eq!(r, vec![2, 8]);
    let (l, r) = split_channels::<u8>(&[], 2);
    assert!(l.is_empty() && r.is_empty());
}

#[test]
fn stereo_frame_alignment() {
    assert_eq!(frame_aligned_len(4096), 4096);
    assert_eq!(frame_aligned_len(4095), 4088);
    assert_eq!(frame_aligned_len(7), 0);
    assert_eq!(frame_aligned_len(12), 8);
}

#[test]
fn capture_choice() {
    assert!(matches!(
        capture_request(None),
        CaptureRequest::Tap { sample_rate } if sample_rate == DEFAULT_SAMPLE_RATE
    ));
    assert!(matches!(capture_request(Some("system")), CaptureRequest::Tap { .. }));
    assert!(matches!(capture_request(Some(SYSTEM_AUDIO_LABEL)), CaptureRequest::Tap { .. }));
    match capture_request(Some("BlackHole 2ch")) {
        CaptureRequest::Device(name) => assert_eq!(name, "BlackHole 2ch"),
        other => panic!("unexpected {:?}", other),
    }
    assert!(matches!(capture_request(Some("System")), CaptureRequest::Device(_)));
}

#[test]
fn device_names() {
    assert_eq!(device_display_name(None), "System Audio (ScreenCaptureKit)");
    assert_eq!(device_display_name(Some("Mic".to_string())), "Mic");
    let list = with_system_audio(vec!["Mic".to_string()], true);
    assert_eq!(list, vec![SYSTEM_AUDIO_LABEL.to_string(), "Mic".to_string()]);
    let list = with_system_audio(vec!["Mic".to_string()], false);
    assert_eq!(list, vec!["Mic".to_string()]);
}

#[test]
fn bins_are_pushed_apart() {
    // three bars that all floor to bin 5: each later bar starts one bin later
    let ranges = bin_ranges(&[(5, 5), (5, 6), (5, 9)], 2048);
    assert_eq!(ranges, vec![(5, 6), (6, 7), (7, 9)]);
    // a wide bar is cut at the start of the pushed bar after it
    let ranges = bin_ranges(&[(10, 30), (10, 40)], 2048);
    assert_eq!(ranges, vec![(10, 11), (11, 40)]);
    // bars that do not clash keep their own bounds
    let ranges = bin_ranges(&[(1, 3), (3, 8), (8, 20)], 2048);
    assert_eq!(ranges, vec![(1, 3), (3, 8), (8, 20)]);
}

#[test]
fn bins_at_the_top() {
    // positions beyond the spectrum are clipped; once the last bin is taken
    // a bar falls back to its own clipped position
    let ranges = bin_ranges(&[(5000, 6000), (5000, 6000)], 2048);
    assert_eq!(ranges, vec![(2047, 2048), (2047, 2048)]);
    let ranges = bin_ranges(&[(0, 0), (0, 0), (0, 0), (0, 0)], 3);
    assert_eq!(ranges, vec![(0, 1), (1, 2), (2, 3), (0, 1)]);
    assert_eq!(bin_ranges(&[], 2048), vec![]);
    for (lo, hi) in bin_ranges(&[(0, 0), (3, 2), (2, 100)], 50) {
        assert!(lo < hi && hi <= 50);
    }
}

#[test]
fn ordered_bins_stay_apart() {
    let raw = [(2, 4), (4, 4), (4, 9), (10, 12)];
    let ranges = bin_ranges(&raw, 2048);
    assert_eq!(ranges, vec![(2, 4), (4, 5), (5, 9), (10, 12)]);
    for i in 1..ranges.len() {
        assert!(ranges[i - 1].1 <= ranges[i].0);
    }
}

#[test]
fn audio_health_decisions() {
    let h = audio_health(100_000_000, false, None);
    assert!(!h.zero_buffers && !h.restart);
    let h = audio_health(100_000_001, false, None);
    assert!(h.zero_buffers);
    let h = audio_health(0, true, None);
    assert!(h.restart);
    let h = audio_health(0, true, Some(1_999_999_999));
    assert!(!h.restart);
    let h = audio_health(0, true, Some(2_000_000_000));
    assert!(h.restart);
    let h = audio_health(0, false, Some(5_000_000_000));
    assert!(!h.restart);
}

#[test]
fn bar_bins_clipped_to_spectrum() {
    assert_eq!(clamp_bin_range(3, 7, 2048), Some((3, 7)));
    assert_eq!(clamp_bin_range(3, 3, 2048), Some((3, 4)));
    assert_eq!(clamp_bin_range(10, 20, 15), Some((10, 15)));
    assert_eq!(clamp_bin_range(30, 40, 15), Some((14, 15)));
    assert_eq!(clamp_bin_range(0, 5, 0), None);
}
