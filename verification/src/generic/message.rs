//! # MESSAGES
//!
//! The kinds of message that HSMS knows, and how each is laid out in the
//! header of a primitive message.
//!
//! | Session type | Message      | Header byte 2          | Header byte 3 |
//! |--------------|--------------|------------------------|---------------|
//! | 0            | Data         | W-bit and stream       | function      |
//! | 1            | Select.req   | 0                      | 0             |
//! | 2            | Select.rsp   | 0                      | status        |
//! | 3            | Deselect.req | 0                      | 0             |
//! | 4            | Deselect.rsp | 0                      | status        |
//! | 5            | Linktest.req | 0                      | 0             |
//! | 6            | Linktest.rsp | 0                      | 0             |
//! | 7            | Reject.req   | type that is rejected  | reason        |
//! | 9            | Separate.req | 0                      | 0             |
use crate::primitive;
use crate::primitive::MessageHeader;
use vstd::prelude::*;

verus! {

/// ## MESSAGE ID
///
/// The session that a message belongs to and the system bytes that tell its
/// transaction from all others that are open.
#[derive(Clone, Copy, Debug, PartialEq, Eq, Structural)]
pub struct MessageID {
    /// Names the session.
    pub session: u16,
    /// Identifies the transaction; a reply repeats it.
    pub system: u32,
}

/// ## SESSION TYPE
///
/// Tells data messages and the several control messages apart.
#[derive(Clone, Copy, Debug, PartialEq, Eq, Structural)]
pub enum SessionType {
    DataMessage,
    SelectRequest,
    SelectResponse,
    DeselectRequest,
    DeselectResponse,
    LinktestRequest,
    LinktestResponse,
    RejectRequest,
    SeparateRequest,
}

impl SessionType {
    /// The byte that stands for the session type in a header.
    pub open spec fn spec_code(self) -> u8 {
        match self {
            SessionType::DataMessage => 0,
            SessionType::SelectRequest => 1,
            SessionType::SelectResponse => 2,
            SessionType::DeselectRequest => 3,
            SessionType::DeselectResponse => 4,
            SessionType::LinktestRequest => 5,
            SessionType::LinktestResponse => 6,
            SessionType::RejectRequest => 7,
            SessionType::SeparateRequest => 9,
        }
    }

    /// The byte that stands for the session type in a header.
    #[verifier::when_used_as_spec(spec_code)]
    pub fn code(self) -> (r: u8)
        ensures
            r == self.spec_code(),
    {
        match self {
            SessionType::DataMessage => 0,
            SessionType::SelectRequest => 1,
            SessionType::SelectResponse => 2,
            SessionType::DeselectRequest => 3,
            SessionType::DeselectResponse => 4,
            SessionType::LinktestRequest => 5,
            SessionType::LinktestResponse => 6,
            SessionType::RejectRequest => 7,
            SessionType::SeparateRequest => 9,
        }
    }

    /// The session type that a header byte stands for, if there is one.
    pub open spec fn spec_from_code(code: u8) -> Option<SessionType> {
        if code == 0 {
            Some(SessionType::DataMessage)
        } else if code == 1 {
            Some(SessionType::SelectRequest)
        } else if code == 2 {
            Some(SessionType::SelectResponse)
        } else if code == 3 {
            Some(SessionType::DeselectRequest)
        } else if code == 4 {
            Some(SessionType::DeselectResponse)
        } else if code == 5 {
            Some(SessionType::LinktestRequest)
        } else if code == 6 {
            Some(SessionType::LinktestResponse)
        } else if code == 7 {
            Some(SessionType::RejectRequest)
        } else if code == 9 {
            Some(SessionType::SeparateRequest)
        } else {
            None
        }
    }

    /// The session type that a header byte stands for, if there is one.
    #[verifier::when_used_as_spec(spec_from_code)]
    pub fn from_code(code: u8) -> (r: Option<SessionType>)
        ensures
            r == Self::spec_from_code(code),
    {
        match code {
            0 => Some(SessionType::DataMessage),
            1 => Some(SessionType::SelectRequest),
            2 => Some(SessionType::SelectResponse),
            3 => Some(SessionType::DeselectRequest),
            4 => Some(SessionType::DeselectResponse),
            5 => Some(SessionType::LinktestRequest),
            6 => Some(SessionType::LinktestResponse),
            7 => Some(SessionType::RejectRequest),
            9 => Some(SessionType::SeparateRequest),
            _ => None,
        }
    }
}

/// ## SELECT STATUS
///
/// The answer to a request to select.
#[derive(Clone, Copy, Debug, PartialEq, Eq, Structural)]
pub enum SelectStatus {
    /// The session is established.
    Okay,
    /// A session is established already.
    AlreadyActive,
    /// The entity is not ready to communicate.
    NotReady,
    /// The entity serves as many sessions as it can.
    ExhaustedConnections,
    /// The request failed for a reason that has no name of its own.
    Failed,
}

impl SelectStatus {
    /// The byte that stands for the status in a header.
    pub open spec fn spec_code(self) -> u8 {
        match self {
            SelectStatus::Okay => 0,
            SelectStatus::AlreadyActive => 1,
            SelectStatus::NotReady => 2,
            SelectStatus::ExhaustedConnections => 3,
            SelectStatus::Failed => 255,
        }
    }

    /// The byte that stands for the status in a header.
    #[verifier::when_used_as_spec(spec_code)]
    pub fn code(self) -> (r: u8)
        ensures
            r == self.spec_code(),
    {
        match self {
            SelectStatus::Okay => 0,
            SelectStatus::AlreadyActive => 1,
            SelectStatus::NotReady => 2,
            SelectStatus::ExhaustedConnections => 3,
            SelectStatus::Failed => 255,
        }
    }

    /// The status that a header byte stands for. Every byte without a name
    /// of its own says that the request failed.
    pub open spec fn spec_from_code(code: u8) -> SelectStatus {
        if code == 0 {
            SelectStatus::Okay
        } else if code == 1 {
            SelectStatus::AlreadyActive
        } else if code == 2 {
            SelectStatus::NotReady
        } else if code == 3 {
            SelectStatus::ExhaustedConnections
        } else {
            SelectStatus::Failed
        }
    }

    /// The status that a header byte stands for.
    #[verifier::when_used_as_spec(spec_from_code)]
    pub fn from_code(code: u8) -> (r: SelectStatus)
        ensures
            r == Self::spec_from_code(code),
            r.spec_code() == code <==> (code <= 3 || code == 255),
    {
        match code {
            0 => SelectStatus::Okay,
            1 => SelectStatus::AlreadyActive,
            2 => SelectStatus::NotReady,
            3 => SelectStatus::ExhaustedConnections,
            _ => SelectStatus::Failed,
        }
    }
}

/// ## DESELECT STATUS
///
/// The answer to a request to deselect.
#[derive(Clone, Copy, Debug, PartialEq, Eq, Structural)]
pub enum DeselectStatus {
    /// The session is ended.
    Okay,
    /// There is no session to end.
    NotEstablished,
    /// The session is in use and is not ended.
    Busy,
}

impl DeselectStatus {
    /// The byte that stands for the status in a header.
    pub open spec fn spec_code(self) -> u8 {
        match self {
            DeselectStatus::Okay => 0,
            DeselectStatus::NotEstablished => 1,
            DeselectStatus::Busy => 2,
        }
    }

    /// The byte that stands for the status in a header.
    #[verifier::when_used_as_spec(spec_code)]
    pub fn code(self) -> (r: u8)
        ensures
            r == self.spec_code(),
    {
        match self {
            DeselectStatus::Okay => 0,
            DeselectStatus::NotEstablished => 1,
            DeselectStatus::Busy => 2,
        }
    }

    /// The status that a header byte stands for, if there is one.
    pub open spec fn spec_from_code(code: u8) -> Option<DeselectStatus> {
        if code == 0 {
            Some(DeselectStatus::Okay)
        } else if code == 1 {
            Some(DeselectStatus::NotEstablished)
        } else if code == 2 {
            Some(DeselectStatus::Busy)
        } else {
            None
        }
    }

    /// The status that a header byte stands for, if there is one.
    #[verifier::when_used_as_spec(spec_from_code)]
    pub fn from_code(code: u8) -> (r: Option<DeselectStatus>)
        ensures
            r == Self::spec_from_code(code),
    {
        match code {
            0 => Some(DeselectStatus::Okay),
            1 => Some(DeselectStatus::NotEstablished),
            2 => Some(DeselectStatus::Busy),
            _ => None,
        }
    }
}

/// ## REJECT REASON
///
/// Why an entity rejects a message that it has received.
#[derive(Clone, Copy, Debug, PartialEq, Eq, Structural)]
pub enum RejectReason {
    /// The session type of the message is not known.
    SessionTypeUnsupported,
    /// The presentation type of the message is not known.
    PresentationTypeUnsupported,
    /// The message is a reply and no transaction waits for it.
    TransactionNotOpen,
    /// The message is data and no session is selected.
    EntityNotSelected,
}

impl RejectReason {
    /// The byte that stands for the reason in a header.
    pub open spec fn spec_code(self) -> u8 {
        match self {
            RejectReason::SessionTypeUnsupported => 1,
            RejectReason::PresentationTypeUnsupported => 2,
            RejectReason::TransactionNotOpen => 3,
            RejectReason::EntityNotSelected => 4,
        }
    }

    /// The byte that stands for the reason in a header.
    #[verifier::when_used_as_spec(spec_code)]
    pub fn code(self) -> (r: u8)
        ensures
            r == self.spec_code(),
    {
        match self {
            RejectReason::SessionTypeUnsupported => 1,
            RejectReason::PresentationTypeUnsupported => 2,
            RejectReason::TransactionNotOpen => 3,
            RejectReason::EntityNotSelected => 4,
        }
    }

    /// The reason that a header byte stands for, if there is one.
    pub open spec fn spec_from_code(code: u8) -> Option<RejectReason> {
        if code == 1 {
            Some(RejectReason::SessionTypeUnsupported)
        } else if code == 2 {
            Some(RejectReason::PresentationTypeUnsupported)
        } else if code == 3 {
            Some(RejectReason::TransactionNotOpen)
        } else if code == 4 {
            Some(RejectReason::EntityNotSelected)
        } else {
            None
        }
    }

    /// The reason that a header byte stands for, if there is one.
    #[verifier::when_used_as_spec(spec_from_code)]
    pub fn from_code(code: u8) -> (r: Option<RejectReason>)
        ensures
            r == Self::spec_from_code(code),
    {
        match code {
            1 => Some(RejectReason::SessionTypeUnsupported),
            2 => Some(RejectReason::PresentationTypeUnsupported),
            3 => Some(RejectReason::TransactionNotOpen),
            4 => Some(RejectReason::EntityNotSelected),
            _ => None,
        }
    }
}

/// ## DATA MESSAGE
///
/// What a data message carries: the stream and function of a SECS-II
/// message, whether a reply is expected, and the encoded text, which is
/// opaque at this layer.
#[derive(Clone, Debug, PartialEq, Eq)]
pub struct DataMessage {
    /// The stream, below 128.
    pub stream: u8,
    /// The function. Zero aborts the transaction.
    pub function: u8,
    /// The W-bit: whether the sender expects a reply.
    pub w: bool,
    /// The encoded text.
    pub text: Vec<u8>,
}

impl DataMessage {
    /// Whether the message opens a transaction rather than answers one: it
    /// expects a reply, or its function is odd.
    pub open spec fn spec_is_primary(&self) -> bool {
        self.w || self.function % 2 == 1
    }

    /// Whether the message opens a transaction rather than answers one.
    #[verifier::when_used_as_spec(spec_is_primary)]
    pub fn is_primary(&self) -> (r: bool)
        ensures
            r == self.spec_is_primary(),
    {
        self.w || self.function % 2 == 1
    }

    /// Header byte 2 of the message: the W-bit above the seven bits of the
    /// stream.
    pub open spec fn spec_byte_2(self) -> u8 {
        if self.w {
            (self.stream % 128 + 128) as u8
        } else {
            self.stream % 128
        }
    }
}

/// ## MESSAGE CONTENTS
///
/// What a message is, with what it holds beside its id.
#[derive(Clone, Debug, PartialEq, Eq)]
pub enum MessageContents {
    /// Data, for the application.
    DataMessage(DataMessage),
    /// Asks to establish the session.
    SelectRequest,
    /// Answers a request to select, with the status as a byte.
    SelectResponse(u8),
    /// Asks to end the session.
    DeselectRequest,
    /// Answers a request to deselect, with the status as a byte.
    DeselectResponse(u8),
    /// Asks for a sign of life.
    LinktestRequest,
    /// Gives a sign of life.
    LinktestResponse,
    /// Rejects a message. Holds the session type of that message, or its
    /// presentation type where that is what was objected to, and the reason
    /// as a byte.
    RejectRequest(u8, u8),
    /// Ends the session at once, without an answer.
    SeparateRequest,
}

impl MessageContents {
    /// The session type of the message.
    pub open spec fn spec_session_type(&self) -> SessionType {
        match self {
            MessageContents::DataMessage(_) => SessionType::DataMessage,
            MessageContents::SelectRequest => SessionType::SelectRequest,
            MessageContents::SelectResponse(_) => SessionType::SelectResponse,
            MessageContents::DeselectRequest => SessionType::DeselectRequest,
            MessageContents::DeselectResponse(_) => SessionType::DeselectResponse,
            MessageContents::LinktestRequest => SessionType::LinktestRequest,
            MessageContents::LinktestResponse => SessionType::LinktestResponse,
            MessageContents::RejectRequest(_, _) => SessionType::RejectRequest,
            MessageContents::SeparateRequest => SessionType::SeparateRequest,
        }
    }

    /// The session type of the message.
    #[verifier::when_used_as_spec(spec_session_type)]
    pub fn session_type(&self) -> (r: SessionType)
        ensures
            r == self.spec_session_type(),
    {
        match self {
            MessageContents::DataMessage(_) => SessionType::DataMessage,
            MessageContents::SelectRequest => SessionType::SelectRequest,
            MessageContents::SelectResponse(_) => SessionType::SelectResponse,
            MessageContents::DeselectRequest => SessionType::DeselectRequest,
            MessageContents::DeselectResponse(_) => SessionType::DeselectResponse,
            MessageContents::LinktestRequest => SessionType::LinktestRequest,
            MessageContents::LinktestResponse => SessionType::LinktestResponse,
            MessageContents::RejectRequest(_, _) => SessionType::RejectRequest,
            MessageContents::SeparateRequest => SessionType::SeparateRequest,
        }
    }
}

/// ## MESSAGE
///
/// A message of HSMS: its id and its contents.
#[derive(Clone, Debug, PartialEq, Eq)]
pub struct Message {
    /// The session and the transaction that the message belongs to.
    pub id: MessageID,
    /// What the message is and holds.
    pub contents: MessageContents,
}

/// Why a primitive message is no message of HSMS; none where it is one. The
/// presentation type is looked at first.
pub open spec fn decode_fault(header: MessageHeader) -> Option<RejectReason> {
    if header.presentation_type != 0 {
        Some(RejectReason::PresentationTypeUnsupported)
    } else if SessionType::spec_from_code(header.session_type) is None {
        Some(RejectReason::SessionTypeUnsupported)
    } else {
        None
    }
}

/// The contents that a header and a text stand for, where the session type
/// is known. The text of a control message holds nothing and is dropped.
pub open spec fn decoded_contents(header: MessageHeader, text: Vec<u8>) -> MessageContents {
    match SessionType::spec_from_code(header.session_type) {
        Some(SessionType::DataMessage) => MessageContents::DataMessage(
            DataMessage {
                stream: header.byte_2 % 128,
                function: header.byte_3,
                w: header.byte_2 >= 128,
                text,
            },
        ),
        Some(SessionType::SelectRequest) => MessageContents::SelectRequest,
        Some(SessionType::SelectResponse) => MessageContents::SelectResponse(header.byte_3),
        Some(SessionType::DeselectRequest) => MessageContents::DeselectRequest,
        Some(SessionType::DeselectResponse) => MessageContents::DeselectResponse(header.byte_3),
        Some(SessionType::LinktestRequest) => MessageContents::LinktestRequest,
        Some(SessionType::LinktestResponse) => MessageContents::LinktestResponse,
        Some(SessionType::RejectRequest) => MessageContents::RejectRequest(
            header.byte_2,
            header.byte_3,
        ),
        Some(SessionType::SeparateRequest) => MessageContents::SeparateRequest,
        None => MessageContents::SeparateRequest,
    }
}

/// The id that a header holds.
pub open spec fn decoded_id(header: MessageHeader) -> MessageID {
    MessageID { session: header.session_id, system: header.system }
}

impl Message {
    /// The header of the message on the wire.
    pub open spec fn header(self) -> MessageHeader {
        let (byte_2, byte_3) = match self.contents {
            MessageContents::DataMessage(data) => (data.spec_byte_2(), data.function),
            MessageContents::SelectResponse(status) => (0u8, status),
            MessageContents::DeselectResponse(status) => (0u8, status),
            MessageContents::RejectRequest(rejected, reason) => (rejected, reason),
            _ => (0u8, 0u8),
        };
        MessageHeader {
            session_id: self.id.session,
            byte_2,
            byte_3,
            presentation_type: 0,
            session_type: self.contents.spec_session_type().spec_code(),
            system: self.id.system,
        }
    }

    /// Whether the message is written without loss: a stream has seven bits.
    pub open spec fn well_formed(self) -> bool {
        self.contents matches MessageContents::DataMessage(data) ==> data.stream < 128
    }

    /// Lays the message out as header and text. Of the stream of a data
    /// message the low seven bits are written; a control message has no text.
    pub fn into_primitive(self) -> (r: primitive::Message)
        ensures
            r.header == self.header(),
            match self.contents {
                MessageContents::DataMessage(data) => r.text == data.text,
                _ => r.text@ == Seq::<u8>::empty(),
            },
    {
        let session_type = self.contents.session_type().code();
        let (byte_2, byte_3, text): (u8, u8, Vec<u8>) = match self.contents {
            MessageContents::DataMessage(data) => {
                let stream: u8 = data.stream % 128;
                let byte_2: u8 = if data.w {
                    stream + 128
                } else {
                    stream
                };
                (byte_2, data.function, data.text)
            },
            MessageContents::SelectResponse(status) => (0, status, Vec::new()),
            MessageContents::DeselectResponse(status) => (0, status, Vec::new()),
            MessageContents::RejectRequest(rejected, reason) => (rejected, reason, Vec::new()),
            _ => (0, 0, Vec::new()),
        };
        primitive::Message {
            header: MessageHeader {
                session_id: self.id.session,
                byte_2,
                byte_3,
                presentation_type: 0,
                session_type,
                system: self.id.system,
            },
            text,
        }
    }

    /// Reads a primitive message as a message of HSMS. Fails, with the reason
    /// for which the message is to be rejected, where the presentation type
    /// is not SECS-II or the session type is not known.
    pub fn try_from_primitive(message: primitive::Message) -> (r: Result<Message, RejectReason>)
        ensures
            match r {
                Ok(read) => decode_fault(message.header) is None && read.id == decoded_id(
                    message.header,
                ) && read.contents == decoded_contents(message.header, message.text),
                Err(reason) => decode_fault(message.header) == Some(reason),
            },
    {
        let header = message.header;
        if header.presentation_type != 0 {
            return Err(RejectReason::PresentationTypeUnsupported);
        }
        let contents = match SessionType::from_code(header.session_type) {
            Some(SessionType::DataMessage) => MessageContents::DataMessage(
                DataMessage {
                    stream: header.byte_2 % 128,
                    function: header.byte_3,
                    w: header.byte_2 >= 128,
                    text: message.text,
                },
            ),
            Some(SessionType::SelectRequest) => MessageContents::SelectRequest,
            Some(SessionType::SelectResponse) => MessageContents::SelectResponse(header.byte_3),
            Some(SessionType::DeselectRequest) => MessageContents::DeselectRequest,
            Some(SessionType::DeselectResponse) => MessageContents::DeselectResponse(
                header.byte_3,
            ),
            Some(SessionType::LinktestRequest) => MessageContents::LinktestRequest,
            Some(SessionType::LinktestResponse) => MessageContents::LinktestResponse,
            Some(SessionType::RejectRequest) => MessageContents::RejectRequest(
                header.byte_2,
                header.byte_3,
            ),
            Some(SessionType::SeparateRequest) => MessageContents::SeparateRequest,
            None => {
                return Err(RejectReason::SessionTypeUnsupported);
            },
        };
        Ok(
            Message {
                id: MessageID { session: header.session_id, system: header.system },
                contents,
            },
        )
    }
}

/// A well-formed message that is laid out as header and text reads back as
/// itself.
pub proof fn lemma_message_round_trip(message: Message, text: Vec<u8>)
    requires
        message.well_formed(),
        message.contents matches MessageContents::DataMessage(data) ==> text == data.text,
    ensures
        decode_fault(message.header()) is None,
        decoded_id(message.header()) == message.id,
        decoded_contents(message.header(), text) == message.contents,
{
}

/// System bytes echo at the level of headers: the system bytes of a message
/// are those of its header, and the reverse.
pub proof fn lemma_header_keeps_system(message: Message, header: MessageHeader)
    ensures
        message.header().system == message.id.system,
        message.header().session_id == message.id.session,
        decoded_id(header).system == header.system,
{
}

} // verus!
