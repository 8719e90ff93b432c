use spectrum_monitor::monitor::{
    capture_step, chunk_ready, AudioMonitor, CaptureAction, CaptureEvent, RelayEvent,
    SpectrumSource,
};

fn sine_chunk_bits(freq_hz: f32, sample_rate: f32, len: usize) -> Vec<u32> {
    (0..len)
        .map(|i| {
            let t = i as f32 / sample_rate;
            (2.0 * std::f32::consts::PI * freq_hz * t).sin().to_bits()
        })
        .collect()
}

#[test]
fn new_monitor_is_stopped_with_defaults() {
    let m = AudioMonitor::new();
    assert!(!m.running());
    assert_eq!(m.chunk_size(), 2048);
    assert_eq!(m.current_device_id(), None);
}

#[test]
fn spectrum_is_all_zeros_before_any_chunk() {
    let m = AudioMonitor::new();
    for bands in [1u32, 7, 64, 1000] {
        match m.get_spectrum(bands) {
            SpectrumSource::Silence { bands: b } => assert_eq!(b, bands),
            SpectrumSource::Analyze { .. } => panic!("no chunk was published"),
        }
    }
}

#[test]
fn published_chunk_reaches_the_spectrum() {
    let mut m = AudioMonitor::new();
    let chunk = sine_chunk_bits(1000.0, 44100.0, 2048);
    m.publish_chunk(chunk.clone());
    match m.get_spectrum(64) {
        SpectrumSource::Analyze { samples, layout } => {
            assert_eq!(samples, chunk);
            assert_eq!(layout.fft_size, 2048);
            assert_eq!(layout.num_bands, 64);
            assert_eq!(layout.bins_per_band, 16);
        },
        SpectrumSource::Silence { .. } => panic!("a chunk was published"),
    }
}

#[test]
fn republishing_overwrites_the_previous_chunk() {
    let mut m = AudioMonitor::new();
    m.publish_chunk(vec![1, 2, 3, 4]);
    m.publish_chunk(vec![9, 9]);
    match m.get_spectrum(1) {
        SpectrumSource::Analyze { samples, .. } => assert_eq!(samples, vec![9, 9]),
        SpectrumSource::Silence { .. } => panic!("a chunk was published"),
    }
}

#[test]
fn one_band_per_bin_is_the_largest_valid_request() {
    let mut m = AudioMonitor::new();
    m.publish_chunk(sine_chunk_bits(440.0, 44100.0, 2048));
    match m.get_spectrum(1024) {
        SpectrumSource::Analyze { layout, .. } => {
            assert_eq!(layout.num_bands, 1024);
            assert_eq!(layout.bins_per_band, 1);
        },
        SpectrumSource::Silence { .. } => panic!("1024 bands fit 1024 bins"),
    }
    match m.get_spectrum(1025) {
        SpectrumSource::Silence { bands } => assert_eq!(bands, 1025),
        SpectrumSource::Analyze { .. } => panic!("1025 bands exceed 1024 bins"),
    }
}

#[test]
fn oversized_band_count_is_answered_with_zeros() {
    let mut m = AudioMonitor::new();
    m.publish_chunk(sine_chunk_bits(440.0, 44100.0, 2048));
    match m.get_spectrum(5000) {
        SpectrumSource::Silence { bands } => assert_eq!(bands, 5000),
        SpectrumSource::Analyze { .. } => panic!("2048 samples offer only 1024 bins"),
    }
}

#[test]
fn start_then_stop_leaves_no_worker() {
    let mut m = AudioMonitor::new();
    m.start(None);
    assert!(m.running());
    m.stop();
    assert!(!m.running());
    // idempotent
    m.stop();
    assert!(!m.running());
}

#[test]
fn start_adopts_the_given_chunk_size() {
    let mut m = AudioMonitor::new();
    m.start(Some(1024));
    assert_eq!(m.chunk_size(), 1024);
    m.stop();
    m.start(None);
    assert_eq!(m.chunk_size(), 1024);
}

#[test]
fn set_device_stops_a_running_session() {
    let mut m = AudioMonitor::new();
    m.start(None);
    m.set_device(Some(String::from("other-endpoint")));
    assert!(!m.running());
    assert_eq!(m.current_device_id(), Some(String::from("other-endpoint")));
}

#[test]
fn reselecting_the_same_device_changes_nothing() {
    let mut m = AudioMonitor::new();
    m.set_device(Some(String::from("endpoint-a")));
    m.start(None);
    m.set_device(Some(String::from("endpoint-a")));
    assert!(m.running());
    m.stop();
}

#[test]
fn unresolvable_id_falls_back_to_the_default_device() {
    let mut m = AudioMonitor::new();
    m.set_device(Some(String::from("unplugged-headset")));
    m.start(None);
    let available = vec![String::from("speakers"), String::from("hdmi")];
    m.update_device_id(&available, Some(String::from("speakers")));
    assert_eq!(m.current_device_id(), Some(String::from("speakers")));
}

#[test]
fn available_id_survives_resolution() {
    let mut m = AudioMonitor::new();
    m.set_device(Some(String::from("hdmi")));
    let available = vec![String::from("speakers"), String::from("hdmi")];
    m.update_device_id(&available, Some(String::from("speakers")));
    assert_eq!(m.current_device_id(), Some(String::from("hdmi")));
}

#[test]
fn no_selection_resolves_to_the_default_device() {
    let mut m = AudioMonitor::new();
    let available = vec![String::from("speakers")];
    m.update_device_id(&available, Some(String::from("speakers")));
    assert_eq!(m.current_device_id(), Some(String::from("speakers")));
}

#[test]
fn relay_publishes_chunks_while_running() {
    let mut m = AudioMonitor::new();
    m.start(None);
    assert!(m.handle_relay_event(RelayEvent::Chunk(vec![5, 6, 7, 8])));
    match m.get_spectrum(1) {
        SpectrumSource::Analyze { samples, .. } => assert_eq!(samples, vec![5, 6, 7, 8]),
        SpectrumSource::Silence { .. } => panic!("the relay published a chunk"),
    }
    assert!(m.handle_relay_event(RelayEvent::Timeout));
}

#[test]
fn relay_halts_on_disconnect_or_stop() {
    let mut m = AudioMonitor::new();
    m.start(None);
    assert!(!m.handle_relay_event(RelayEvent::Disconnected));
    m.stop();
    assert!(!m.handle_relay_event(RelayEvent::Timeout));
    assert!(!m.handle_relay_event(RelayEvent::Chunk(vec![1])));
}

#[test]
fn cleared_flag_stops_the_capture_loop() {
    // whatever happened last and however full the queue is
    for event in [
        CaptureEvent::Started,
        CaptureEvent::SentOk,
        CaptureEvent::SendFailed,
        CaptureEvent::Drained,
        CaptureEvent::WaitSignaled,
        CaptureEvent::WaitTimeout,
        CaptureEvent::WaitError,
    ] {
        assert_eq!(capture_step(false, 0, 8, 2048, event), CaptureAction::StopStream);
        assert_eq!(capture_step(false, 8 * 2048, 8, 2048, event), CaptureAction::StopStream);
    }
}

#[test]
fn gone_receiver_stops_the_capture_loop() {
    assert_eq!(
        capture_step(true, 8 * 2048, 8, 2048, CaptureEvent::SendFailed),
        CaptureAction::StopStream
    );
}

#[test]
fn capture_loop_follows_extract_drain_wait_cycle() {
    // iteration start with a whole chunk buffered: extract and send
    assert_eq!(
        capture_step(true, 8 * 2048, 8, 2048, CaptureEvent::Started),
        CaptureAction::ExtractAndSend
    );
    assert_eq!(
        capture_step(true, 8 * 2048 + 5, 8, 2048, CaptureEvent::WaitTimeout),
        CaptureAction::ExtractAndSend
    );
    assert_eq!(
        capture_step(true, 8 * 2048, 8, 2048, CaptureEvent::WaitSignaled),
        CaptureAction::ExtractAndSend
    );
    // not enough buffered: drain the device
    assert_eq!(capture_step(true, 0, 8, 2048, CaptureEvent::Started), CaptureAction::Drain);
    assert_eq!(
        capture_step(true, 8 * 2048 - 1, 8, 2048, CaptureEvent::WaitTimeout),
        CaptureAction::Drain
    );
    // after a send, drain newly available bytes before waiting
    assert_eq!(capture_step(true, 8 * 2048, 8, 2048, CaptureEvent::SentOk), CaptureAction::Drain);
    // after a drain, wait for the data signal
    assert_eq!(capture_step(true, 0, 8, 2048, CaptureEvent::Drained), CaptureAction::Wait);
    // a wait error is a spurious wake: the cycle goes on
    assert_eq!(capture_step(true, 0, 8, 2048, CaptureEvent::WaitError), CaptureAction::Drain);
}

#[test]
fn chunk_ready_needs_a_whole_chunk_of_frames() {
    assert!(!chunk_ready(0, 8, 2048));
    assert!(!chunk_ready(8 * 2048 - 1, 8, 2048));
    assert!(chunk_ready(8 * 2048, 8, 2048));
    assert!(chunk_ready(8 * 2048 + 5, 8, 2048));
}
