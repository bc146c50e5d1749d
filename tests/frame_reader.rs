use depth_sensor::frame::{new, FrameError};
use depth_sensor::reader::{FrameReader, ReadAttempt, ReadError, ReadProgress, READ_TIMEOUT_MS};

#[test]
fn retries_after_timeouts() {
    let frame = new(vec![1, 2, 3, 4, 5, 6, 7]).unwrap();
    let mut reader = FrameReader::new(7);
    assert_eq!(reader.buffer_len(), 13);
    assert_eq!(reader.on_attempt(ReadAttempt::TimedOut(false)), ReadProgress::Retry);
    assert_eq!(reader.on_attempt(ReadAttempt::TimedOut(false)), ReadProgress::Retry);
    let done = reader.on_attempt(ReadAttempt::Filled(frame.as_bytes()));
    assert_eq!(done, ReadProgress::Done(Ok(frame)));
    assert_eq!(reader.attempts(), 3);
    assert_eq!(reader.expected(), 7);
    assert_eq!(READ_TIMEOUT_MS, 130);
}

#[test]
fn transport_failure_is_fatal() {
    let mut reader = FrameReader::new(7);
    assert_eq!(reader.on_attempt(ReadAttempt::Failed), ReadProgress::Done(Err(ReadError::Transport)));
    assert_eq!(reader.attempts(), 1);
}

#[test]
fn invalid_frame_is_not_retried() {
    let mut bytes = new(vec![9, 9]).unwrap().as_bytes();
    bytes[5] ^= 0x01;
    let mut reader = FrameReader::new(2);
    assert_eq!(
        reader.on_attempt(ReadAttempt::Filled(bytes)),
        ReadProgress::Done(Err(ReadError::Protocol(FrameError::BadChecksum)))
    );
}

#[test]
fn wrong_size_frame_is_bad_size() {
    let bytes = new(vec![9, 9, 9]).unwrap().as_bytes();
    let mut reader = FrameReader::new(2);
    assert_eq!(
        reader.on_attempt(ReadAttempt::Filled(bytes)),
        ReadProgress::Done(Err(ReadError::Protocol(FrameError::BadSize)))
    );
}

#[test]
fn cancellation_ends_a_timing_out_read() {
    let mut reader = FrameReader::new(14401);
    assert_eq!(reader.on_attempt(ReadAttempt::TimedOut(false)), ReadProgress::Retry);
    assert_eq!(reader.on_attempt(ReadAttempt::TimedOut(false)), ReadProgress::Retry);
    assert_eq!(
        reader.on_attempt(ReadAttempt::TimedOut(true)),
        ReadProgress::Done(Err(ReadError::Cancelled))
    );
    assert_eq!(reader.attempts(), 3);
}
