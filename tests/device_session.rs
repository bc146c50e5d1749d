use depth_sensor::cloud::{HEIGHT, WIDTH};
use depth_sensor::frame::new;
use depth_sensor::reader::{FrameReader, ReadAttempt, ReadProgress};
use depth_sensor::session::{
    command_frame, command_payload, event_of_read, Action, Command, Event, Phase, Session, DEVICE_INFO_PAYLOAD_SIZE,
    FRAME_DELAY_MS, SENSOR_PAYLOAD_SIZE, STREAM_START_DELAY_MS,
};

fn streaming_session() -> Session {
    let mut s = Session::new();
    assert_eq!(s.phase(), Phase::Closed);
    assert_eq!(s.handle(Event::Opened), Action::Send(Command::SetBaud));
    assert_eq!(s.phase(), Phase::Opened);
    assert_eq!(s.handle(Event::Sent(Command::SetBaud)), Action::Send(Command::QueryDeviceInfo));
    assert_eq!(s.handle(Event::Sent(Command::QueryDeviceInfo)), Action::ReadFrame(DEVICE_INFO_PAYLOAD_SIZE));
    let info = new(vec![0u8; 7]).unwrap();
    assert_eq!(s.handle(Event::FrameRead(info)), Action::Send(Command::StartStream));
    assert_eq!(s.phase(), Phase::Configured);
    assert_eq!(s.handle(Event::Sent(Command::StartStream)), Action::Pause(STREAM_START_DELAY_MS));
    assert_eq!(s.phase(), Phase::Streaming);
    s
}

#[test]
fn command_payloads() {
    assert_eq!(command_payload(Command::SetBaud), vec![0x12, 0x55]);
    assert_eq!(command_payload(Command::QueryDeviceInfo), vec![0x10, 0x00]);
    assert_eq!(command_payload(Command::StartStream), vec![0x08, 0x00]);
    assert_eq!(command_payload(Command::StopStream), vec![0x02, 0x00, 0x00]);
}

#[test]
fn command_frames_on_the_wire() {
    assert_eq!(command_frame(Command::SetBaud), vec![0x5A, 0x77, 0xFF, 0x02, 0x00, 0x12, 0x55, 0x45]);
    assert_eq!(command_frame(Command::StopStream), vec![0x5A, 0x77, 0xFF, 0x03, 0x00, 0x02, 0x00, 0x00, 0x01]);
}

#[test]
fn sensor_payload_size_matches_resolution() {
    assert_eq!(SENSOR_PAYLOAD_SIZE as u32, (WIDTH * HEIGHT * 12 + 7) / 8 + 1);
    assert_eq!(SENSOR_PAYLOAD_SIZE, 14401);
}

#[test]
fn streams_frames_until_cancelled() {
    let mut s = streaming_session();
    assert_eq!(s.handle(Event::Poll(false)), Action::ReadFrame(SENSOR_PAYLOAD_SIZE));
    let mut payload = vec![0u8; SENSOR_PAYLOAD_SIZE as usize];
    payload[0] = 0x12;
    payload[1] = 0x34;
    payload[2] = 0x56;
    let frame = new(payload).unwrap();
    match s.handle(Event::FrameRead(frame)) {
        Action::Deliver(c) => {
            assert_eq!(c.samples.len(), 9600);
            assert_eq!(&c.samples[..3], &[0x412, 0x563, 0]);
        }
        other => panic!("unexpected {:?}", other),
    }
    assert_eq!(s.handle(Event::Delivered), Action::Pause(FRAME_DELAY_MS));
    assert_eq!(s.handle(Event::Poll(true)), Action::Send(Command::StopStream));
    assert_eq!(s.phase(), Phase::Stopped);
    assert_eq!(s.handle(Event::Sent(Command::StopStream)), Action::Finish);
    assert_eq!(s.phase(), Phase::Stopped);
}

#[test]
fn cancellation_before_first_read() {
    let mut s = streaming_session();
    assert_eq!(s.handle(Event::Poll(true)), Action::Send(Command::StopStream));
    assert_eq!(s.handle(Event::Failed), Action::Finish);
}

#[test]
fn read_failure_stops_the_stream() {
    let mut s = streaming_session();
    assert_eq!(s.handle(Event::Poll(false)), Action::ReadFrame(SENSOR_PAYLOAD_SIZE));
    assert_eq!(s.handle(Event::Failed), Action::Send(Command::StopStream));
    assert_eq!(s.phase(), Phase::Stopped);
    assert_eq!(s.handle(Event::Failed), Action::Finish);
}

#[test]
fn short_sensor_frame_stops_the_stream() {
    let mut s = streaming_session();
    assert_eq!(s.handle(Event::Poll(false)), Action::ReadFrame(SENSOR_PAYLOAD_SIZE));
    let frame = new(vec![0u8; 100]).unwrap();
    assert_eq!(s.handle(Event::FrameRead(frame)), Action::Send(Command::StopStream));
    assert_eq!(s.phase(), Phase::Stopped);
}

#[test]
fn open_failure_finishes_without_stop() {
    let mut s = Session::new();
    assert_eq!(s.handle(Event::Failed), Action::Finish);
    assert_eq!(s.phase(), Phase::Stopped);
}

#[test]
fn configuration_failure_sends_stop() {
    let mut s = Session::new();
    s.handle(Event::Opened);
    assert_eq!(s.handle(Event::Failed), Action::Send(Command::StopStream));
    assert_eq!(s.handle(Event::Sent(Command::StopStream)), Action::Finish);
}

#[test]
fn cancellation_during_silent_read_sends_stop() {
    let mut s = streaming_session();
    let size = match s.handle(Event::Poll(false)) {
        Action::ReadFrame(size) => size,
        other => panic!("unexpected {:?}", other),
    };
    let mut reader = FrameReader::new(size);
    assert_eq!(reader.on_attempt(ReadAttempt::TimedOut(false)), ReadProgress::Retry);
    let result = match reader.on_attempt(ReadAttempt::TimedOut(true)) {
        ReadProgress::Done(r) => r,
        ReadProgress::Retry => panic!("read not ended by cancellation"),
    };
    assert_eq!(s.handle(event_of_read(result)), Action::Send(Command::StopStream));
    assert_eq!(s.phase(), Phase::Stopped);
    assert_eq!(s.handle(Event::Sent(Command::StopStream)), Action::Finish);
}

#[test]
fn read_results_become_events() {
    let f = new(vec![1, 2]).unwrap();
    assert_eq!(event_of_read(Ok(f.clone())), Event::FrameRead(f));
    assert_eq!(event_of_read(Err(depth_sensor::reader::ReadError::Transport)), Event::Failed);
}
