//! # High-Speed SECS Message Services (HSMS)
//!
//! HSMS carries SECS-II messages between a piece of semiconductor equipment
//! and its host over TCP/IP. The functionality is divided by layer:
//!
//! - [`primitive`]: the wire format, a length prefix, a ten-byte header and
//!   the message text.
//! - [`generic`]: the control messages, the selection state, the table of
//!   open transactions and the timers that bound them.
//! - [`single`]: the restriction of the protocol to a single selected session
//!   between one host and one piece of equipment.
//! - [`semi_e5`]: the SECS-II items and messages that data messages carry.
//!
//! The layers are state machines over plain values. Whoever owns the socket
//! and the clock hands them what was read and the current time, and performs
//! the actions that they return.
use vstd::prelude::*;

pub mod generic;
pub mod primitive;
pub mod semi_e5;
pub mod single;

verus! {

/// Makes `std::io::Error` known as a type of which nothing is known: an
/// error of the operating system is carried from where it arose to who
/// waits for the outcome, and is never looked into on the way.
#[verifier::external_type_specification]
#[verifier::external_body]
pub struct ExIoError(std::io::Error);

/// ## HSMS ERROR
///
/// The reasons for which a procedure of this library may fail.
#[derive(Debug)]
pub enum Error {
    /// An error of the operating system met while reading from or writing to
    /// the connection.
    IoError(std::io::Error),
    /// A response was received which does not fit the message it answers.
    InvalidResponse,
    /// No response arrived within the time that the protocol allows.
    TimedOut,
    /// The procedure needs a connection and there is none.
    NotConnected,
    /// The procedure would form a connection where one already exists.
    AlreadyConnected,
    /// The connection was broken while the procedure was under way.
    Disconnected,
    /// The procedure is valid only in the selected state.
    NotSelected,
    /// The other end could not understand the message and rejected it. Holds
    /// the session or presentation type that it objected to, and its reason.
    MessageRejected(u8, u8),
    /// The other end understood the message and refused what it asked for.
    /// Holds the code that it gave as its reason.
    ProcedureRejected(u8),
    /// An open transaction conflicts with the message that was to be sent.
    TransactionOpen,
}

/// ## PRESENTATION TYPE
///
/// The encoding of the text of a message. Values 1 to 127 are reserved for
/// subsidiary standards, values 128 to 255 may not be used.
#[derive(Clone, Copy, Debug, PartialEq, Eq, Structural)]
pub enum PresentationType {
    /// The text is a SECS-II message.
    SecsII,
}

impl PresentationType {
    /// The byte that stands for this presentation type in a header.
    pub open spec fn spec_code(self) -> u8 {
        0
    }

    /// The byte that stands for this presentation type in a header.
    #[verifier::when_used_as_spec(spec_code)]
    pub fn code(self) -> (r: u8)
        ensures
            r == self.spec_code(),
    {
        0
    }

    /// The presentation type that a header byte stands for, if there is one.
    pub open spec fn spec_from_code(code: u8) -> Option<PresentationType> {
        if code == 0 {
            Some(PresentationType::SecsII)
        } else {
            None
        }
    }

    /// The presentation type that a header byte stands for, if there is one.
    #[verifier::when_used_as_spec(spec_from_code)]
    pub fn from_code(code: u8) -> (r: Option<PresentationType>)
        ensures
            r == Self::spec_from_code(code),
    {
        if code == 0 {
            Some(PresentationType::SecsII)
        } else {
            None
        }
    }
}

} // verus!
