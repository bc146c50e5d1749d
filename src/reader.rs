//! The decisions of the frame-reading loop.
//!
//! The caller owns the transport: it reads exactly `buffer_len()` bytes with a
//! timeout of `READ_TIMEOUT_MS` per attempt, reports each attempt's outcome to
//! `FrameReader::on_attempt`, and reads again while the answer is `Retry`.
//! After a timeout it also reports whether cancellation has been requested,
//! so that a silent device delays cancellation by one attempt at most.
use vstd::prelude::*;
use crate::frame::{decode, decode_spec, Frame, FrameError};

verus! {

/// Time bound of one read attempt, in milliseconds.
pub const READ_TIMEOUT_MS: u64 = 130;

/// Outcome of one exact-length read attempt on the transport.
#[derive(Debug, Clone, PartialEq, Eq)]
pub enum ReadAttempt {
    /// The buffer was filled with these bytes.
    Filled(Vec<u8>),
    /// The attempt ran into its time bound; `true` when cancellation has
    /// been requested meanwhile.
    TimedOut(bool),
    /// The transport failed in another way.
    Failed,
}

/// Why reading a frame failed.
#[derive(Debug, Clone, Copy, PartialEq, Eq, Structural)]
pub enum ReadError {
    /// The transport failed for a reason other than a timeout.
    Transport,
    /// Cancellation was requested while the read kept timing out.
    Cancelled,
    /// A complete frame arrived but did not validate.
    Protocol(FrameError),
}

/// What the caller does after an attempt.
#[derive(Debug, PartialEq, Eq)]
pub enum ReadProgress {
    /// Read again into a buffer of the same length.
    Retry,
    /// Reading is over, with this result.
    Done(Result<Frame, ReadError>),
}

/// State of reading one frame of a known payload size.
#[derive(Debug, Clone, Copy, PartialEq, Eq, Structural)]
pub struct FrameReader {
    expected: u16,
    attempts: u64,
}

impl FrameReader {
    /// Payload size the frame must carry.
    pub closed spec fn expected_spec(&self) -> u16 {
        self.expected
    }

    /// Read attempts reported so far.
    pub closed spec fn attempts_spec(&self) -> u64 {
        self.attempts
    }

    /// Starts reading a frame whose payload is `expected` bytes long.
    pub fn new(expected: u16) -> (r: FrameReader)
        ensures
            r.expected_spec() == expected,
            r.attempts_spec() == 0,
    {
        FrameReader { expected, attempts: 0 }
    }

    /// Payload size the frame must carry.
    pub fn expected(&self) -> (r: u16)
        ensures
            r == self.expected_spec(),
    {
        self.expected
    }

    /// Read attempts reported so far.
    pub fn attempts(&self) -> (r: u64)
        ensures
            r == self.attempts_spec(),
    {
        self.attempts
    }

    /// Length of the buffer each attempt must fill: the whole frame.
    pub fn buffer_len(&self) -> (r: usize)
        ensures
            r == self.expected_spec() as int + 6,
    {
        self.expected as usize + 6
    }

    /// Takes the outcome of one read attempt. A timeout asks for another
    /// attempt, unless cancellation has been requested, which ends the read; any other transport failure ends the read at once; a filled
    /// buffer is validated against the expected payload size and its verdict
    /// ends the read, with no further attempt.
    pub fn on_attempt(&mut self, attempt: ReadAttempt) -> (r: ReadProgress)
        ensures
            final(self).expected_spec() == old(self).expected_spec(),
            final(self).attempts_spec() as int == if old(self).attempts_spec() < u64::MAX {
                old(self).attempts_spec() + 1
            } else {
                old(self).attempts_spec() as int
            },
            match attempt {
                ReadAttempt::TimedOut(cancelled) => r == if cancelled {
                    ReadProgress::Done(Err::<Frame, ReadError>(ReadError::Cancelled))
                } else {
                    ReadProgress::Retry
                },
                ReadAttempt::Failed => r == ReadProgress::Done(
                    Err::<Frame, ReadError>(ReadError::Transport),
                ),
                ReadAttempt::Filled(bytes) => match r {
                    ReadProgress::Done(Ok(f)) => decode_spec(
                        bytes@,
                        old(self).expected_spec(),
                    ) == Ok::<Seq<u8>, FrameError>(f.payload@) && f.wf() && f.size
                        == old(self).expected_spec(),
                    ReadProgress::Done(Err(ReadError::Protocol(e))) => decode_spec(
                        bytes@,
                        old(self).expected_spec(),
                    ) == Err::<Seq<u8>, FrameError>(e),
                    _ => false,
                },
            },
    {
        if self.attempts < u64::MAX {
            self.attempts = self.attempts + 1;
        }
        match attempt {
            ReadAttempt::TimedOut(cancelled) => if cancelled {
                ReadProgress::Done(Err(ReadError::Cancelled))
            } else {
                ReadProgress::Retry
            },
            ReadAttempt::Failed => ReadProgress::Done(Err(ReadError::Transport)),
            ReadAttempt::Filled(bytes) => match decode(bytes.as_slice(), self.expected) {
                Ok(f) => ReadProgress::Done(Ok(f)),
                Err(e) => ReadProgress::Done(Err(ReadError::Protocol(e))),
            },
        }
    }
}

} // verus!
