//! # PRIMITIVE SERVICES
//!
//! The wire format of HSMS. A message travels as a frame: four bytes that
//! give the length of what follows, a header of ten bytes, and the text.
//! All integers are big-endian.
//!
//! | Offset | Size | Field             |
//! |--------|------|-------------------|
//! | 0      | 2    | session id        |
//! | 2      | 1    | header byte 2     |
//! | 3      | 1    | header byte 3     |
//! | 4      | 1    | presentation type |
//! | 5      | 1    | session type      |
//! | 6      | 4    | system bytes      |
use vstd::prelude::*;

verus! {

/// The number of bytes in a message header.
pub const HEADER_LENGTH: u32 = 10;

/// The number of bytes in the length prefix of a frame.
pub const PREFIX_LENGTH: u32 = 4;

/// The longest message, header and text together, that is accepted where
/// nothing else is configured.
pub const DEFAULT_MAX_LENGTH: u32 = 16777216;

/// ## CONNECTION MODE
///
/// How an entity comes by its connection.
#[derive(Clone, Copy, Debug, PartialEq, Eq, Structural)]
pub enum ConnectionMode {
    /// The entity listens and accepts the connection that the other end opens.
    Passive,
    /// The entity opens the connection.
    Active,
}

/// ## CONNECTION STATE
///
/// Whether a TCP/IP connection stands.
#[derive(Clone, Copy, Debug, PartialEq, Eq, Structural)]
pub enum ConnectionState {
    /// No connection stands.
    NotConnected,
    /// A connection stands and messages may be exchanged.
    Connected,
}

/// ## FRAME ERROR
///
/// Why a sequence of bytes is not a frame, or a message is not sent as one.
#[derive(Clone, Copy, Debug, PartialEq, Eq, Structural)]
pub enum FrameError {
    /// Fewer bytes are present than the format asks for.
    Truncated,
    /// The length is not zero and too small to hold a header.
    TooShort,
    /// The length is over the configured maximum.
    TooLong,
    /// More bytes are present than the length prefix announces.
    TrailingBytes,
}

/// The two bytes of a 16-bit integer, most significant first.
pub open spec fn u16_be(x: u16) -> Seq<u8> {
    seq![(x / 256) as u8, (x % 256) as u8]
}

/// The four bytes of a 32-bit integer, most significant first.
pub open spec fn u32_be(x: u32) -> Seq<u8> {
    seq![
        (x / 16777216) as u8,
        ((x / 65536) % 256) as u8,
        ((x / 256) % 256) as u8,
        (x % 256) as u8,
    ]
}

/// The 16-bit integer that two bytes stand for, most significant first.
pub open spec fn u16_from_be(b0: u8, b1: u8) -> u16 {
    (b0 * 256 + b1) as u16
}

/// The 32-bit integer that four bytes stand for, most significant first.
pub open spec fn u32_from_be(b0: u8, b1: u8, b2: u8, b3: u8) -> u32 {
    (b0 * 16777216 + b1 * 65536 + b2 * 256 + b3) as u32
}

/// ## MESSAGE HEADER
///
/// The ten bytes that precede the text of every message.
#[derive(Clone, Copy, Debug, PartialEq, Eq, Structural)]
pub struct MessageHeader {
    /// Names the session that the message belongs to.
    pub session_id: u16,
    /// Meaning depends on the session type.
    pub byte_2: u8,
    /// Meaning depends on the session type.
    pub byte_3: u8,
    /// The encoding of the text.
    pub presentation_type: u8,
    /// Tells data messages and the several control messages apart.
    pub session_type: u8,
    /// Identifies the transaction; a reply repeats it.
    pub system: u32,
}

impl MessageHeader {
    /// The bytes of the header on the wire.
    pub open spec fn bytes(self) -> Seq<u8> {
        u16_be(self.session_id) + seq![
            self.byte_2,
            self.byte_3,
            self.presentation_type,
            self.session_type,
        ] + u32_be(self.system)
    }

    /// The header that ten bytes stand for; none where there are more or fewer.
    pub open spec fn parse(bytes: Seq<u8>) -> Option<MessageHeader> {
        if bytes.len() == 10 {
            Some(
                MessageHeader {
                    session_id: u16_from_be(bytes[0], bytes[1]),
                    byte_2: bytes[2],
                    byte_3: bytes[3],
                    presentation_type: bytes[4],
                    session_type: bytes[5],
                    system: u32_from_be(bytes[6], bytes[7], bytes[8], bytes[9]),
                },
            )
        } else {
            None
        }
    }

    /// Writes the header as it goes over the wire.
    pub fn encode(&self) -> (r: Vec<u8>)
        ensures
            r@ == self.bytes(),
    {
        let mut out: Vec<u8> = Vec::new();
        push_u16_be(&mut out, self.session_id);
        out.push(self.byte_2);
        out.push(self.byte_3);
        out.push(self.presentation_type);
        out.push(self.session_type);
        push_u32_be(&mut out, self.system);
        assert(out@ =~= self.bytes());
        out
    }

    /// Reads a header from exactly ten bytes.
    pub fn decode(bytes: &[u8]) -> (r: Option<MessageHeader>)
        ensures
            r == MessageHeader::parse(bytes@),
    {
        if bytes.len() == 10 {
            Some(
                MessageHeader {
                    session_id: read_u16_be(bytes[0], bytes[1]),
                    byte_2: bytes[2],
                    byte_3: bytes[3],
                    presentation_type: bytes[4],
                    session_type: bytes[5],
                    system: read_u32_be(bytes[6], bytes[7], bytes[8], bytes[9]),
                },
            )
        } else {
            None
        }
    }
}

/// ## MESSAGE
///
/// A header and the text that follows it. The text is opaque at this layer.
#[derive(Clone, Debug)]
pub struct Message {
    /// The ten bytes that say what the message is.
    pub header: MessageHeader,
    /// What the message carries; empty in control messages.
    pub text: Vec<u8>,
}

/// The length that the prefix of a frame announces, read as a decision on how
/// to go on.
#[derive(Clone, Copy, Debug, PartialEq, Eq, Structural)]
pub enum FrameLength {
    /// The prefix announces nothing; the next prefix follows at once.
    Empty,
    /// The prefix announces a header and text of this many bytes together.
    Message(u32),
}

/// What a length prefix of four bytes says under a given maximum length.
pub open spec fn spec_frame_length(prefix: Seq<u8>, max_length: u32) -> Result<
    FrameLength,
    FrameError,
> {
    if prefix.len() != 4 {
        Err(FrameError::Truncated)
    } else {
        let length = u32_from_be(prefix[0], prefix[1], prefix[2], prefix[3]);
        if length == 0 {
            Ok(FrameLength::Empty)
        } else if length < 10 {
            Err(FrameError::TooShort)
        } else if length > max_length {
            Err(FrameError::TooLong)
        } else {
            Ok(FrameLength::Message(length))
        }
    }
}

/// Reads the length prefix of a frame and decides how reading goes on: with
/// the next prefix where the length is zero, with that many bytes of header
/// and text where the length can hold a header and is within the maximum, and
/// with the end of the connection otherwise.
pub fn frame_length(prefix: &[u8], max_length: u32) -> (r: Result<FrameLength, FrameError>)
    ensures
        r == spec_frame_length(prefix@, max_length),
{
    if prefix.len() != 4 {
        return Err(FrameError::Truncated);
    }
    let length = read_u32_be(prefix[0], prefix[1], prefix[2], prefix[3]);
    if length == 0 {
        Ok(FrameLength::Empty)
    } else if length < 10 {
        Err(FrameError::TooShort)
    } else if length > max_length {
        Err(FrameError::TooLong)
    } else {
        Ok(FrameLength::Message(length))
    }
}

/// Whether a message reads as given bytes of header and text.
pub open spec fn is_body_of(body: Seq<u8>, message: Message) -> bool {
    &&& body.len() >= 10
    &&& MessageHeader::parse(body.subrange(0, 10)) == Some(message.header)
    &&& message.text@ == body.subrange(10, body.len() as int)
}

/// Whether a message reads as a given frame under a maximum length.
pub open spec fn is_frame_of(frame: Seq<u8>, max_length: u32, message: Message) -> bool {
    &&& frame.len() >= 14
    &&& spec_frame_length(frame.subrange(0, 4), max_length) == Ok::<FrameLength, FrameError>(
        FrameLength::Message((frame.len() - 4) as u32),
    )
    &&& is_body_of(frame.subrange(4, frame.len() as int), message)
}

/// Why given bytes are not the frame of one message under a maximum length;
/// none where they are.
pub open spec fn frame_fault(frame: Seq<u8>, max_length: u32) -> Option<FrameError> {
    if frame.len() < 4 {
        Some(FrameError::Truncated)
    } else {
        match spec_frame_length(frame.subrange(0, 4), max_length) {
            Err(e) => Some(e),
            Ok(FrameLength::Empty) => if frame.len() == 4 {
                Some(FrameError::TooShort)
            } else {
                Some(FrameError::TrailingBytes)
            },
            Ok(FrameLength::Message(length)) => if frame.len() - 4 < length {
                Some(FrameError::Truncated)
            } else if frame.len() - 4 > length {
                Some(FrameError::TrailingBytes)
            } else {
                None
            },
        }
    }
}

impl Message {
    /// The bytes of header and text, as they follow the length prefix.
    pub open spec fn body(self) -> Seq<u8> {
        self.header.bytes() + self.text@
    }

    /// The whole frame: length prefix, header and text.
    pub open spec fn frame(self) -> Seq<u8> {
        u32_be((10 + self.text@.len()) as u32) + self.body()
    }

    /// Whether header and text together are within a maximum length.
    pub open spec fn fits(self, max_length: u32) -> bool {
        10 + self.text@.len() <= max_length
    }

    /// Writes the message as a frame. A message whose header and text
    /// together are over the maximum length is not written.
    pub fn encode(&self, max_length: u32) -> (r: Result<Vec<u8>, FrameError>)
        ensures
            self.fits(max_length) ==> (r matches Ok(bytes) && bytes@ == self.frame()),
            !self.fits(max_length) ==> r == Err::<Vec<u8>, FrameError>(FrameError::TooLong),
    {
        if max_length < 10 || self.text.len() > (max_length - 10) as usize {
            return Err(FrameError::TooLong);
        }
        let length: u32 = 10 + self.text.len() as u32;
        let mut out: Vec<u8> = Vec::new();
        push_u32_be(&mut out, length);
        push_u16_be(&mut out, self.header.session_id);
        out.push(self.header.byte_2);
        out.push(self.header.byte_3);
        out.push(self.header.presentation_type);
        out.push(self.header.session_type);
        push_u32_be(&mut out, self.header.system);
        assert(out@ =~= u32_be(length) + self.header.bytes());
        let mut i: usize = 0;
        while i < self.text.len()
            invariant
                i <= self.text.len(),
                out@ == u32_be(length) + self.header.bytes() + self.text@.subrange(0, i as int),
            decreases self.text.len() - i,
        {
            out.push(self.text[i]);
            assert(self.text@.subrange(0, i + 1) =~= self.text@.subrange(0, i as int).push(
                self.text@[i as int],
            ));
            i = i + 1;
        }
        assert(self.text@.subrange(0, i as int) =~= self.text@);
        assert(out@ =~= self.frame());
        Ok(out)
    }

    /// Reads a message from the bytes that follow a length prefix: the header
    /// and the text. Fewer than ten bytes hold no header.
    pub fn decode_body(body: &[u8]) -> (r: Result<Message, FrameError>)
        ensures
            body@.len() >= 10 ==> (r matches Ok(message) && is_body_of(body@, message)),
            body@.len() < 10 ==> r == Err::<Message, FrameError>(FrameError::Truncated),
    {
        if body.len() < 10 {
            return Err(FrameError::Truncated);
        }
        let header = MessageHeader {
            session_id: read_u16_be(body[0], body[1]),
            byte_2: body[2],
            byte_3: body[3],
            presentation_type: body[4],
            session_type: body[5],
            system: read_u32_be(body[6], body[7], body[8], body[9]),
        };
        let mut text: Vec<u8> = Vec::new();
        let mut i: usize = 10;
        while i < body.len()
            invariant
                10 <= i <= body.len(),
                text@ == body@.subrange(10, i as int),
            decreases body.len() - i,
        {
            text.push(body[i]);
            assert(body@.subrange(10, i + 1) =~= body@.subrange(10, i as int).push(
                body@[i as int],
            ));
            i = i + 1;
        }
        Ok(Message { header, text })
    }

    /// Reads a message from a whole frame: the length prefix and as many
    /// bytes as it announces, no fewer and no more.
    pub fn decode(frame: &[u8], max_length: u32) -> (r: Result<Message, FrameError>)
        ensures
            match frame_fault(frame@, max_length) {
                None => r matches Ok(message) && is_frame_of(frame@, max_length, message),
                Some(e) => r == Err::<Message, FrameError>(e),
            },
    {
        if frame.len() < 4 {
            return Err(FrameError::Truncated);
        }
        let ghost prefix = frame@.subrange(0, 4);
        let length = read_u32_be(frame[0], frame[1], frame[2], frame[3]);
        let rest = frame.len() - 4;
        if length == 0 {
            if rest == 0 {
                return Err(FrameError::TooShort);
            } else {
                return Err(FrameError::TrailingBytes);
            }
        }
        if length < 10 {
            return Err(FrameError::TooShort);
        }
        if length > max_length {
            return Err(FrameError::TooLong);
        }
        if rest < length as usize {
            return Err(FrameError::Truncated);
        }
        if rest > length as usize {
            return Err(FrameError::TrailingBytes);
        }
        let header = MessageHeader {
            session_id: read_u16_be(frame[4], frame[5]),
            byte_2: frame[6],
            byte_3: frame[7],
            presentation_type: frame[8],
            session_type: frame[9],
            system: read_u32_be(frame[10], frame[11], frame[12], frame[13]),
        };
        let mut text: Vec<u8> = Vec::new();
        let mut i: usize = 14;
        while i < frame.len()
            invariant
                14 <= i <= frame.len(),
                text@ == frame@.subrange(14, i as int),
            decreases frame.len() - i,
        {
            text.push(frame[i]);
            assert(frame@.subrange(14, i + 1) =~= frame@.subrange(14, i as int).push(
                frame@[i as int],
            ));
            i = i + 1;
        }
        let message = Message { header, text };
        proof {
            let body = frame@.subrange(4, frame@.len() as int);
            assert(body.subrange(10, body.len() as int) =~= frame@.subrange(
                14,
                frame@.len() as int,
            ));
            assert(body.subrange(0, 10).len() == 10);
        }
        Ok(message)
    }
}

/// Frame round trip: under a maximum length that a message fits, its frame is
/// no faulty frame, and whatever reads as that frame has the header and the
/// text of the message.
pub proof fn lemma_frame_round_trip(message: Message, max_length: u32, read: Message)
    requires
        message.fits(max_length),
    ensures
        frame_fault(message.frame(), max_length) is None,
        is_frame_of(message.frame(), max_length, message),
        is_frame_of(message.frame(), max_length, read) ==> read.header == message.header
            && read.text@ == message.text@,
{
    let frame = message.frame();
    let length = (10 + message.text@.len()) as u32;
    lemma_header_round_trip(message.header);
    lemma_u32_be_round_trip(length);
    assert(frame.subrange(0, 4) =~= u32_be(length));
    let body = frame.subrange(4, frame.len() as int);
    assert(body =~= message.body());
    assert(body.subrange(0, 10) =~= message.header.bytes());
    assert(body.subrange(10, body.len() as int) =~= message.text@);
}

/// The bytes of header and text that a message is written as read back as
/// that header and that text.
pub proof fn lemma_body_round_trip(message: Message, read: Message)
    ensures
        is_body_of(message.body(), message),
        is_body_of(message.body(), read) ==> read.header == message.header && read.text@
            == message.text@,
{
    let body = message.body();
    lemma_header_round_trip(message.header);
    assert(body.subrange(0, 10) =~= message.header.bytes());
    assert(body.subrange(10, body.len() as int) =~= message.text@);
}

fn push_u16_be(out: &mut Vec<u8>, x: u16)
    ensures
        final(out)@ == old(out)@ + u16_be(x),
{
    out.push((x / 256) as u8);
    out.push((x % 256) as u8);
    assert(out@ =~= old(out)@ + u16_be(x));
}

fn push_u32_be(out: &mut Vec<u8>, x: u32)
    ensures
        final(out)@ == old(out)@ + u32_be(x),
{
    out.push((x / 16777216) as u8);
    out.push(((x / 65536) % 256) as u8);
    out.push(((x / 256) % 256) as u8);
    out.push((x % 256) as u8);
    assert(out@ =~= old(out)@ + u32_be(x));
}

fn read_u16_be(b0: u8, b1: u8) -> (r: u16)
    ensures
        r == u16_from_be(b0, b1),
{
    (b0 as u16) * 256 + (b1 as u16)
}

fn read_u32_be(b0: u8, b1: u8, b2: u8, b3: u8) -> (r: u32)
    ensures
        r == u32_from_be(b0, b1, b2, b3),
{
    (b0 as u32) * 16777216 + (b1 as u32) * 65536 + (b2 as u32) * 256 + (b3 as u32)
}

/// The four bytes of a 32-bit integer, as integers of 32 bits, add up to it.
proof fn lemma_split_u32(x: u32, a: u32, b: u32, c: u32, d: u32)
    by (bit_vector)
    requires
        a == x / 16777216,
        b == (x / 65536) % 256,
        c == (x / 256) % 256,
        d == x % 256,
    ensures
        a < 256,
        x == a * 16777216 + b * 65536 + c * 256 + d,
{
}

/// Four bytes, as integers of 32 bits, are the bytes of their sum.
proof fn lemma_join_u32(x: u32, a: u32, b: u32, c: u32, d: u32)
    by (bit_vector)
    requires
        a < 256,
        b < 256,
        c < 256,
        d < 256,
        x == a * 16777216 + b * 65536 + c * 256 + d,
    ensures
        a == x / 16777216,
        b == (x / 65536) % 256,
        c == (x / 256) % 256,
        d == x % 256,
{
}

/// The two bytes of a 16-bit integer, as integers of 16 bits, add up to it.
proof fn lemma_split_u16(x: u16, a: u16, b: u16)
    by (bit_vector)
    requires
        a == x / 256,
        b == x % 256,
    ensures
        a < 256,
        x == a * 256 + b,
{
}

/// Two bytes, as integers of 32 bits, are the bytes of their sum.
proof fn lemma_join_u16(x: u32, a: u32, b: u32)
    by (bit_vector)
    requires
        a < 256,
        b < 256,
        x == a * 256 + b,
    ensures
        a == x / 256,
        b == x % 256,
        x < 65536,
{
}

/// Reading the bytes of a 16-bit integer gives the integer back.
pub proof fn lemma_u16_be_round_trip(x: u16)
    ensures
        u16_be(x).len() == 2,
        u16_from_be(u16_be(x)[0], u16_be(x)[1]) == x,
{
    let a: u16 = x / 256;
    let b: u16 = x % 256;
    lemma_split_u16(x, a, b);
}

/// Reading the bytes of a 32-bit integer gives the integer back.
pub proof fn lemma_u32_be_round_trip(x: u32)
    ensures
        u32_be(x).len() == 4,
        u32_from_be(u32_be(x)[0], u32_be(x)[1], u32_be(x)[2], u32_be(x)[3]) == x,
{
    let a: u32 = x / 16777216;
    let b: u32 = (x / 65536) % 256;
    let c: u32 = (x / 256) % 256;
    let d: u32 = x % 256;
    lemma_split_u32(x, a, b, c, d);
}

/// Writing the integer that four bytes stand for gives the bytes back.
pub proof fn lemma_u32_from_be_round_trip(b0: u8, b1: u8, b2: u8, b3: u8)
    ensures
        u32_be(u32_from_be(b0, b1, b2, b3)) == seq![b0, b1, b2, b3],
{
    let x = u32_from_be(b0, b1, b2, b3);
    lemma_join_u32(x, b0 as u32, b1 as u32, b2 as u32, b3 as u32);
    assert(u32_be(x) =~= seq![b0, b1, b2, b3]);
}

/// Writing the integer that two bytes stand for gives the bytes back.
pub proof fn lemma_u16_from_be_round_trip(b0: u8, b1: u8)
    ensures
        u16_be(u16_from_be(b0, b1)) == seq![b0, b1],
{
    let x = u16_from_be(b0, b1);
    lemma_join_u16(x as u32, b0 as u32, b1 as u32);
    assert(u16_be(x) =~= seq![b0, b1]);
}

/// Header round trip: a header that is written and read again is unchanged.
pub proof fn lemma_header_round_trip(header: MessageHeader)
    ensures
        header.bytes().len() == 10,
        MessageHeader::parse(header.bytes()) == Some(header),
{
    lemma_u16_be_round_trip(header.session_id);
    lemma_u32_be_round_trip(header.system);
}

/// Ten bytes that are read as a header and written again are unchanged.
pub proof fn lemma_header_bytes_round_trip(bytes: Seq<u8>)
    requires
        bytes.len() == 10,
    ensures
        MessageHeader::parse(bytes) matches Some(header) && header.bytes() == bytes,
{
    let header = MessageHeader::parse(bytes)->0;
    lemma_u16_from_be_round_trip(bytes[0], bytes[1]);
    lemma_u32_from_be_round_trip(bytes[6], bytes[7], bytes[8], bytes[9]);
    assert(header.bytes() =~= bytes);
}

} // verus!
