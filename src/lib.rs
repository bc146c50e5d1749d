//! Driver logic for a serial-linked depth sensor: the wire framing of its
//! command/response protocol, the frame-reading retry logic, the unpacking of
//! 12-bit depth samples, and the session state machine.
pub mod cloud;
pub mod frame;
pub mod reader;
pub mod session;
