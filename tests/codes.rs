use aaudio::{
    callback_buffer_len, AllowedCapturePolicy, CallbackResult, ContentType, Direction, Format,
    InputPreset, PerformanceMode, SharingMode, StreamState, Usage,
};

#[test]
fn direction_codes() {
    assert_eq!(Direction::from_i32(0), Direction::Output);
    assert_eq!(Direction::from_i32(1), Direction::Input);
    assert_eq!(Direction::Input.to_i32(), 1);
    assert_eq!(Direction::try_from_i32(2), None);
    assert_eq!(Direction::try_from_i32(-1), None);
}

#[test]
fn format_codes_and_sample_sizes() {
    assert_eq!(Format::from_i32(0), Format::Unspecified);
    assert_eq!(Format::from_i32(1), Format::I16);
    assert_eq!(Format::from_i32(2), Format::F32);
    assert_eq!(Format::try_from_i32(3), None);
    assert_eq!(Format::F32.to_i32(), 2);
    assert_eq!(Format::Unspecified.sample_size(), 0);
    assert_eq!(Format::I16.sample_size(), 2);
    assert_eq!(Format::F32.sample_size(), 4);
}

#[test]
fn sharing_mode_codes() {
    assert_eq!(SharingMode::from_i32(0), SharingMode::Exclusive);
    assert_eq!(SharingMode::from_i32(1), SharingMode::Shared);
    assert_eq!(SharingMode::try_from_i32(5), None);
}

#[test]
fn performance_mode_falls_back() {
    assert_eq!(PerformanceMode::from_i32(11), PerformanceMode::PowerSaving);
    assert_eq!(PerformanceMode::from_i32(12), PerformanceMode::LowLatency);
    assert_eq!(PerformanceMode::from_i32(10), PerformanceMode::Normal);
    assert_eq!(PerformanceMode::from_i32(99), PerformanceMode::Normal);
    assert_eq!(PerformanceMode::LowLatency.to_i32(), 12);
}

#[test]
fn state_codes_round_trip() {
    for code in 0..14 {
        let s = StreamState::from_i32(code);
        assert_eq!(s.to_i32(), code);
        assert_eq!(StreamState::try_from_i32(code), Some(s));
    }
    assert_eq!(StreamState::from_i32(2), StreamState::Open);
    assert_eq!(StreamState::from_i32(13), StreamState::Disconnected);
    assert_eq!(StreamState::try_from_i32(14), None);
    assert_eq!(StreamState::try_from_i32(-1), None);
}

#[test]
fn attribute_codes() {
    assert_eq!(Usage::Media.to_i32(), 1);
    assert_eq!(Usage::NotificationEvent.to_i32(), 10);
    assert_eq!(Usage::Assistant.to_i32(), 16);
    assert_eq!(Usage::Announcement.to_i32(), 1003);
    assert_eq!(InputPreset::Camcorder.to_i32(), 5);
    assert_eq!(InputPreset::VoicePerformance.to_i32(), 10);
    assert_eq!(ContentType::Sonification.to_i32(), 4);
    assert_eq!(AllowedCapturePolicy::AllowCaptureByNone.to_i32(), 3);
    assert_eq!(CallbackResult::Continue.to_i32(), 0);
    assert_eq!(CallbackResult::Stop.to_i32(), 1);
}

#[test]
fn callback_buffer_is_frames_times_channels_times_sample_size() {
    assert_eq!(callback_buffer_len(256, 2, Format::I16), Some(1024));
    assert_eq!(callback_buffer_len(480, 2, Format::F32), Some(3840));
    assert_eq!(callback_buffer_len(0, 2, Format::F32), Some(0));
    assert_eq!(callback_buffer_len(10, 2, Format::Unspecified), Some(0));
    assert_eq!(callback_buffer_len(-1, 2, Format::I16), None);
    assert_eq!(callback_buffer_len(16, -2, Format::I16), None);
    assert_eq!(
        callback_buffer_len(i32::MAX, i32::MAX, Format::F32),
        Some(i32::MAX as usize * i32::MAX as usize * 4)
    );
}
