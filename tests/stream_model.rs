use std::cell::Cell;
use std::rc::Rc;

use aaudio::{
    AAudioStream, AAudioStreamBuilder, Direction, Error, Format, PerformanceMode, Request,
    SharingMode, StreamConfig, StreamProperties, StreamState, Timestamp,
};

/// Stands in for a callback closure and counts how often it is freed.
struct Counted(Rc<Cell<u32>>);

impl Drop for Counted {
    fn drop(&mut self) {
        self.0.set(self.0.get() + 1);
    }
}

fn props(direction: Direction) -> StreamProperties {
    StreamProperties {
        direction,
        format: Format::I16,
        channel_count: 2,
        buffer_capacity_in_frames: 1920,
    }
}

fn open(direction: Direction) -> AAudioStream<(), ()> {
    AAudioStreamBuilder::<(), ()>::new()
        .open_stream(0, props(direction))
        .unwrap()
}

#[test]
fn builder_gathers_options() {
    let b = AAudioStreamBuilder::<(), ()>::new()
        .set_device_id(3)
        .set_sample_rate(48000)
        .set_channel_count(2)
        .set_format(Format::F32)
        .set_sharing_mode(SharingMode::Exclusive)
        .set_direction(Direction::Input)
        .set_performance_mode(PerformanceMode::LowLatency)
        .allocate_session_id()
        .set_frames_per_data_callback(192);
    let c = b.config();
    assert_eq!(c.device_id, Some(3));
    assert_eq!(c.sample_rate, Some(48000));
    assert_eq!(c.channel_count, Some(2));
    assert_eq!(c.format, Some(Format::F32));
    assert_eq!(c.sharing_mode, Some(SharingMode::Exclusive));
    assert_eq!(c.direction, Some(Direction::Input));
    assert_eq!(c.performance_mode, Some(PerformanceMode::LowLatency));
    assert_eq!(c.session_id, Some(0));
    assert_eq!(c.frames_per_data_callback, Some(192));
    assert_eq!(c.usage, None);
    assert_eq!(c.buffer_capacity_in_frames, None);
    let c = b.remove_session_id().config();
    assert_eq!(c.session_id, Some(-1));
    assert_eq!(AAudioStreamBuilder::<(), ()>::new().config(), StreamConfig::unspecified());
}

#[test]
fn state_is_open_right_after_open() {
    let s = open(Direction::Output);
    assert_eq!(s.get_state(), StreamState::Open);
    assert_eq!(s.properties(), props(Direction::Output));
    assert!(!s.has_callbacks());
}

#[test]
fn failed_open_returns_the_error() {
    let r = AAudioStreamBuilder::<(), ()>::new().open_stream(-889, props(Direction::Output));
    assert!(matches!(r, Err(Error::Unavailable)));
}

#[test]
fn start_then_wait_sees_starting_or_started() {
    let mut s = open(Direction::Output);
    assert_eq!(s.check_request(Request::Start), Ok(()));
    assert_eq!(s.record_request(Request::Start, 0), Ok(()));
    assert_eq!(s.get_state(), StreamState::Starting);
    assert_eq!(s.record_state_change(0, 4), Ok(StreamState::Started));
    assert_eq!(s.get_state(), StreamState::Started);
    assert_eq!(s.record_state_change(-885, 0), Err(Error::Timeout));
    assert_eq!(s.get_state(), StreamState::Started);
}

#[test]
fn refused_request_keeps_state() {
    let mut s = open(Direction::Output);
    assert_eq!(s.record_request(Request::Start, -899), Err(Error::Disconnected));
    assert_eq!(s.get_state(), StreamState::Open);
}

#[test]
fn pause_and_flush_unimplemented_on_input() {
    let s = open(Direction::Input);
    assert_eq!(s.check_request(Request::Pause), Err(Error::Unimplemented));
    assert_eq!(s.check_request(Request::Flush), Err(Error::Unimplemented));
    assert_eq!(s.check_request(Request::Stop), Ok(()));
}

#[test]
fn flush_needs_a_pause_first() {
    let mut s = open(Direction::Output);
    assert_eq!(s.check_request(Request::Flush), Err(Error::InvalidState));
    s.record_request(Request::Start, 0).unwrap();
    s.record_request(Request::Pause, 0).unwrap();
    assert_eq!(s.get_state(), StreamState::Pausing);
    assert_eq!(s.check_request(Request::Flush), Ok(()));
    s.record_request(Request::Flush, 0).unwrap();
    assert_eq!(s.get_state(), StreamState::Flushing);
}

#[test]
fn disconnected_stream_only_releases() {
    let mut s = open(Direction::Output);
    assert_eq!(s.observe_state(13), StreamState::Disconnected);
    assert_eq!(s.check_request(Request::Start), Err(Error::Disconnected));
    assert_eq!(s.check_request(Request::Release), Ok(()));
    s.record_request(Request::Release, 0).unwrap();
    assert!(s.is_released());
    assert_eq!(s.get_state(), StreamState::Closing);
    assert_eq!(s.check_request(Request::Stop), Err(Error::InvalidState));
}

#[test]
fn transfers_move_whole_frames_only() {
    let s = open(Direction::Output);
    // 2 channels of 16-bit samples: 4 bytes per frame.
    assert_eq!(s.properties().bytes_per_frame(), 4);
    assert_eq!(s.check_transfer(400, 100), Ok(()));
    assert_eq!(s.check_transfer(399, 100), Err(Error::IllegalArgument));
    assert_eq!(s.check_transfer(400, -1), Err(Error::IllegalArgument));
    assert_eq!(s.record_transfer(100, 37), Ok(37));
    assert_eq!(s.record_transfer(100, 0), Ok(0));
    assert_eq!(s.record_transfer(100, 101), Err(Error::OutOfRange));
    assert_eq!(s.record_transfer(100, -899), Err(Error::Disconnected));
}

#[test]
fn transfers_refused_on_callback_streams() {
    let s = AAudioStreamBuilder::new()
        .set_callbacks(1u8, 2u8)
        .open_stream(0, props(Direction::Output))
        .unwrap();
    assert!(s.has_callbacks());
    assert_eq!(s.callbacks(), Some(&(1u8, 2u8)));
    assert_eq!(s.check_transfer(400, 100), Err(Error::InvalidState));
}

#[test]
fn timestamps_before_started_fail() {
    let mut s = open(Direction::Output);
    assert_eq!(s.check_timestamp(), Err(Error::InvalidState));
    s.record_request(Request::Start, 0).unwrap();
    assert_eq!(s.check_timestamp(), Err(Error::InvalidState));
    s.observe_state(4);
    assert_eq!(s.check_timestamp(), Ok(()));
}

#[test]
fn timestamps_are_handed_on_as_the_service_wrote_them() {
    let mut s = open(Direction::Output);
    s.observe_state(4);
    let later = Timestamp { frame_position: 200, time_nanos: 3_000 };
    let earlier = Timestamp { frame_position: 100, time_nanos: 1_000 };
    assert_eq!(s.record_timestamp(0, later), Ok(later));
    assert_eq!(s.record_timestamp(0, earlier), Ok(earlier));
    assert_eq!(s.record_timestamp(-889, later), Err(Error::Unavailable));
    assert_eq!(s.record_timestamp(-895, later), Err(Error::InvalidState));
}

#[test]
fn buffer_size_never_exceeds_capacity() {
    let s = open(Direction::Output);
    assert_eq!(s.get_buffer_capacity_in_frames(), 1920);
    assert_eq!(s.record_buffer_size(4000), Err(Error::OutOfRange));
    assert_eq!(s.record_buffer_size(1921), Err(Error::OutOfRange));
    assert_eq!(s.record_buffer_size(960), Ok(960));
    assert_eq!(s.record_buffer_size(1920), Ok(1920));
    assert_eq!(s.record_buffer_size(-898), Err(Error::IllegalArgument));
}

#[test]
fn dropping_stream_frees_callbacks_once() {
    let data = Rc::new(Cell::new(0));
    let error = Rc::new(Cell::new(0));
    let s = AAudioStreamBuilder::new()
        .set_callbacks(Counted(data.clone()), Counted(error.clone()))
        .set_sample_rate(48000)
        .open_stream(0, props(Direction::Output))
        .ok()
        .unwrap();
    assert_eq!((data.get(), error.get()), (0, 0));
    drop(s);
    assert_eq!((data.get(), error.get()), (1, 1));
}

#[test]
fn replacing_callbacks_frees_the_old_pair_once() {
    let first = Rc::new(Cell::new(0));
    let second = Rc::new(Cell::new(0));
    let b = AAudioStreamBuilder::new().set_callbacks(Counted(first.clone()), Counted(first.clone()));
    let b = b.set_callbacks(Counted(second.clone()), Counted(second.clone()));
    assert_eq!(first.get(), 2);
    assert_eq!(second.get(), 0);
    let s = b.open_stream(0, props(Direction::Output)).ok().unwrap();
    assert_eq!(second.get(), 0);
    drop(s);
    assert_eq!(first.get(), 2);
    assert_eq!(second.get(), 2);
}

#[test]
fn failed_open_frees_callbacks_once() {
    let count = Rc::new(Cell::new(0));
    let r = AAudioStreamBuilder::new()
        .set_callbacks(Counted(count.clone()), Counted(count.clone()))
        .open_stream(-881, props(Direction::Output));
    assert!(matches!(r, Err(Error::NoService)));
    assert_eq!(count.get(), 2);
}
