//! The device session as a state machine.
//!
//! The session moves `Closed -> Opened -> Configured -> Streaming -> Stopped`
//! and never goes back. The caller performs each `Action` that `handle`
//! returns on the transport and reports how it went as the next `Event`.
use vstd::prelude::*;
use crate::cloud::{
    decode_point_cloud, packed_len, sample_at, PointCloud, HEIGHT, WIDTH,
};
use crate::frame::{lemma_round_trip, new, wire_for, Frame};
use crate::reader::ReadError;

verus! {

/// Payload size of the device-information reply.
pub const DEVICE_INFO_PAYLOAD_SIZE: u16 = 7;

/// Payload size of a streamed sensor frame: the packed samples of one
/// `WIDTH * HEIGHT` image plus one trailing byte.
pub const SENSOR_PAYLOAD_SIZE: u16 = 14401;

/// Pause after starting the stream, in milliseconds.
pub const STREAM_START_DELAY_MS: u64 = 1000;

/// Pause between two streamed frames, in milliseconds.
pub const FRAME_DELAY_MS: u64 = 20;

/// Stage of a session.
#[derive(Debug, Clone, Copy, PartialEq, Eq, Structural)]
pub enum Phase {
    Closed,
    Opened,
    Configured,
    Streaming,
    Stopped,
}

/// Commands the device understands.
#[derive(Debug, Clone, Copy, PartialEq, Eq, Structural)]
pub enum Command {
    /// The device adopts the reporting baud rate.
    SetBaud,
    /// The device replies with its information frame.
    QueryDeviceInfo,
    /// The device starts emitting sensor frames.
    StartStream,
    /// The device stops emitting sensor frames.
    StopStream,
}

/// What the caller reports after carrying out an action.
#[derive(Debug, PartialEq, Eq)]
pub enum Event {
    /// The transport was opened.
    Opened,
    /// The frame of this command was written.
    Sent(Command),
    /// The requested frame arrived and validated.
    FrameRead(Frame),
    /// The point cloud was handed on.
    Delivered,
    /// The pause is over; `true` when cancellation has been requested.
    Poll(bool),
    /// The last action failed: opening, writing or reading.
    Failed,
}

/// What the caller does next.
#[derive(Debug, PartialEq, Eq)]
pub enum Action {
    /// Write the frame of this command (see `command_frame`).
    Send(Command),
    /// Read one frame with this payload size (see `FrameReader`).
    ReadFrame(u16),
    /// Hand this point cloud on, then report `Delivered`.
    Deliver(PointCloud),
    /// Wait this many milliseconds, then report `Poll` with the cancellation flag.
    Pause(u64),
    /// The session is over.
    Finish,
}

/// The payload bytes of a command.
pub open spec fn command_bytes(c: Command) -> Seq<u8> {
    match c {
        Command::SetBaud => seq![0x12u8, 0x55u8],
        Command::QueryDeviceInfo => seq![0x10u8, 0x00u8],
        Command::StartStream => seq![0x08u8, 0x00u8],
        Command::StopStream => seq![0x02u8, 0x00u8, 0x00u8],
    }
}

/// The phase after handling `e` in phase `p`.
pub open spec fn next_phase(p: Phase, e: Event) -> Phase {
    match p {
        Phase::Closed => match e {
            Event::Opened => Phase::Opened,
            _ => Phase::Stopped,
        },
        Phase::Opened => match e {
            Event::Sent(Command::SetBaud) => Phase::Opened,
            Event::Sent(Command::QueryDeviceInfo) => Phase::Opened,
            Event::FrameRead(_) => Phase::Configured,
            _ => Phase::Stopped,
        },
        Phase::Configured => match e {
            Event::Sent(Command::StartStream) => Phase::Streaming,
            _ => Phase::Stopped,
        },
        Phase::Streaming => match e {
            Event::Poll(false) => Phase::Streaming,
            Event::Delivered => Phase::Streaming,
            Event::FrameRead(f) => if f.payload@.len() >= packed_len(
                WIDTH as int * HEIGHT as int,
            ) {
                Phase::Streaming
            } else {
                Phase::Stopped
            },
            _ => Phase::Stopped,
        },
        Phase::Stopped => Phase::Stopped,
    }
}

/// `c` is the point cloud that `payload` packs for the sensor's resolution.
pub open spec fn cloud_of(payload: Seq<u8>, c: PointCloud) -> bool {
    &&& c.wf()
    &&& c.width == WIDTH
    &&& c.height == HEIGHT
    &&& forall|i: int| 0 <= i < c.samples@.len() ==> c.samples@[i] == sample_at(payload, i)
}

/// `a` is the action that handling `e` in phase `p` calls for. Leaving a phase
/// in which the transport is open, for whatever reason, sends `StopStream`
/// once; in `Stopped` every event finishes the session.
pub open spec fn action_for(p: Phase, e: Event, a: Action) -> bool {
    let stop = Action::Send(Command::StopStream);
    match p {
        Phase::Closed => match e {
            Event::Opened => a == Action::Send(Command::SetBaud),
            _ => a == Action::Finish,
        },
        Phase::Opened => match e {
            Event::Sent(Command::SetBaud) => a == Action::Send(Command::QueryDeviceInfo),
            Event::Sent(Command::QueryDeviceInfo) => a == Action::ReadFrame(
                DEVICE_INFO_PAYLOAD_SIZE,
            ),
            Event::FrameRead(_) => a == Action::Send(Command::StartStream),
            _ => a == stop,
        },
        Phase::Configured => match e {
            Event::Sent(Command::StartStream) => a == Action::Pause(STREAM_START_DELAY_MS),
            _ => a == stop,
        },
        Phase::Streaming => match e {
            Event::Poll(false) => a == Action::ReadFrame(SENSOR_PAYLOAD_SIZE),
            Event::Delivered => a == Action::Pause(FRAME_DELAY_MS),
            Event::FrameRead(f) => if f.payload@.len() >= packed_len(
                WIDTH as int * HEIGHT as int,
            ) {
                a matches Action::Deliver(c) && cloud_of(f.payload@, c)
            } else {
                a == stop
            },
            _ => a == stop,
        },
        Phase::Stopped => a == Action::Finish,
    }
}

/// The event that reports the result of reading a frame: the frame, or a
/// failure whatever the reason (transport, validation or cancellation).
pub open spec fn read_event(r: Result<Frame, ReadError>) -> Event {
    match r {
        Ok(f) => Event::FrameRead(f),
        Err(_) => Event::Failed,
    }
}

/// The event that reports the result of reading a frame.
pub fn event_of_read(r: Result<Frame, ReadError>) -> (e: Event)
    ensures
        e == read_event(r),
{
    match r {
        Ok(f) => Event::FrameRead(f),
        Err(_) => Event::Failed,
    }
}

/// The payload bytes of a command.
pub fn command_payload(c: Command) -> (r: Vec<u8>)
    ensures
        r@ == command_bytes(c),
{
    let v: Vec<u8> = match c {
        Command::SetBaud => vec![0x12u8, 0x55u8],
        Command::QueryDeviceInfo => vec![0x10u8, 0x00u8],
        Command::StartStream => vec![0x08u8, 0x00u8],
        Command::StopStream => vec![0x02u8, 0x00u8, 0x00u8],
    };
    assert(v@ =~= command_bytes(c));
    v
}

/// The wire bytes of a command's frame.
pub fn command_frame(c: Command) -> (r: Vec<u8>)
    ensures
        r@ == wire_for(command_bytes(c)),
{
    match new(command_payload(c)) {
        Ok(f) => {
            proof {
                lemma_round_trip(f);
            }
            f.as_bytes()
        },
        Err(_) => Vec::new(),
    }
}

/// A device session.
#[derive(Debug, Clone, Copy, PartialEq, Eq, Structural)]
pub struct Session {
    phase: Phase,
}

impl Session {
    /// The session's current phase.
    pub closed spec fn phase_spec(&self) -> Phase {
        self.phase
    }

    /// A session whose transport is not open yet.
    pub fn new() -> (r: Session)
        ensures
            r.phase_spec() == Phase::Closed,
    {
        Session { phase: Phase::Closed }
    }

    /// The session's current phase.
    pub fn phase(&self) -> (r: Phase)
        ensures
            r == self.phase_spec(),
    {
        self.phase
    }

    /// Takes the outcome of the last action and decides the next one.
    pub fn handle(&mut self, event: Event) -> (r: Action)
        ensures
            final(self).phase_spec() == next_phase(old(self).phase_spec(), event),
            action_for(old(self).phase_spec(), event, r),
    {
        let stop = Action::Send(Command::StopStream);
        match self.phase {
            Phase::Closed => match event {
                Event::Opened => {
                    self.phase = Phase::Opened;
                    Action::Send(Command::SetBaud)
                },
                _ => {
                    self.phase = Phase::Stopped;
                    Action::Finish
                },
            },
            Phase::Opened => match event {
                Event::Sent(Command::SetBaud) => Action::Send(Command::QueryDeviceInfo),
                Event::Sent(Command::QueryDeviceInfo) => Action::ReadFrame(
                    DEVICE_INFO_PAYLOAD_SIZE,
                ),
                Event::FrameRead(_) => {
                    self.phase = Phase::Configured;
                    Action::Send(Command::StartStream)
                },
                _ => {
                    self.phase = Phase::Stopped;
                    stop
                },
            },
            Phase::Configured => match event {
                Event::Sent(Command::StartStream) => {
                    self.phase = Phase::Streaming;
                    Action::Pause(STREAM_START_DELAY_MS)
                },
                _ => {
                    self.phase = Phase::Stopped;
                    stop
                },
            },
            Phase::Streaming => match event {
                Event::Poll(false) => Action::ReadFrame(SENSOR_PAYLOAD_SIZE),
                Event::Delivered => Action::Pause(FRAME_DELAY_MS),
                Event::FrameRead(f) => match decode_point_cloud(
                    f.payload.as_slice(),
                    WIDTH,
                    HEIGHT,
                ) {
                    Ok(c) => Action::Deliver(c),
                    Err(_) => {
                        self.phase = Phase::Stopped;
                        stop
                    },
                },
                _ => {
                    self.phase = Phase::Stopped;
                    stop
                },
            },
            Phase::Stopped => Action::Finish,
        }
    }
}

/// Cancellation: once the cancellation flag is seen, either at the poll
/// before a read or after a timed-out read attempt (which ends the read with
/// `ReadError::Cancelled`), the streaming session stops, asks for `StopStream`
/// as its one next action, and every event after that finishes it.
pub proof fn lemma_cancel_stops(a: Action, c: Action, later: Event, b: Action)
    requires
        action_for(Phase::Streaming, Event::Poll(true), a),
        action_for(
            Phase::Streaming,
            read_event(Err::<Frame, ReadError>(ReadError::Cancelled)),
            c,
        ),
        action_for(Phase::Stopped, later, b),
    ensures
        next_phase(Phase::Streaming, Event::Poll(true)) == Phase::Stopped,
        next_phase(Phase::Streaming, read_event(Err::<Frame, ReadError>(ReadError::Cancelled)))
            == Phase::Stopped,
        a == Action::Send(Command::StopStream),
        c == Action::Send(Command::StopStream),
        b == Action::Finish,
        next_phase(Phase::Stopped, later) == Phase::Stopped,
{
}

/// The sensor payload size packs one full image plus a trailing byte, so a
/// well-formed frame of that size always unpacks and keeps the stream going.
pub proof fn lemma_sensor_frame_unpacks(f: Frame)
    requires
        f.wf(),
        f.size == SENSOR_PAYLOAD_SIZE,
    ensures
        SENSOR_PAYLOAD_SIZE as int == packed_len(WIDTH as int * HEIGHT as int) + 1,
        next_phase(Phase::Streaming, Event::FrameRead(f)) == Phase::Streaming,
{
}

} // verus!
