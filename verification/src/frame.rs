//! Frame demultiplexer.
//!
//! A protocol message arrives as two frames (an 8-byte binary header frame,
//! then a body frame) or three (header, a length frame when the header's
//! info byte is non-zero, then the body). The demultiplexer is a state
//! machine fed one frame at a time; the transport loop around it lives
//! outside the crate.

use vstd::prelude::*;
use vstd::bytes::{spec_u32_from_le_bytes, u32_from_le_bytes};
use vstd::slice::slice_subrange;
use crate::err::FrameError;
use crate::events::{EventTable, EventTableV};
use crate::codec::{spec_value_events, spec_text_events, spec_daytimer_events, spec_weather_events,
    decode_value_events, decode_text_events, decode_daytimer_events, decode_weather_events};

verus! {

/// The eight message-type codes of the header's second byte.
#[derive(Debug, Clone, Copy, PartialEq, Eq, Structural)]
pub enum MessageType {
    Text,
    BinaryFile,
    ValueEventTable,
    TextEventTable,
    DaytimerEventTable,
    OutOfServiceIndicator,
    KeepAlive,
    WeatherEventTable,
}

/// A complete inbound protocol message.
#[derive(Debug, Clone)]
pub enum Message {
    Text(String),
    BinaryText(String),
    BinaryFile(Vec<u8>),
    EventTable(EventTable),
    OutOfServiceIndicator,
    KeepAlive,
}

/// Mathematical image of a `Message`.
pub ghost enum MessageV {
    Text(Seq<char>),
    BinaryText(Seq<char>),
    BinaryFile(Seq<u8>),
    EventTable(EventTableV),
    OutOfServiceIndicator,
    KeepAlive,
}

impl View for Message {
    type V = MessageV;

    open spec fn view(&self) -> MessageV {
        match self {
            Message::Text(s) => MessageV::Text(s@),
            Message::BinaryText(s) => MessageV::BinaryText(s@),
            Message::BinaryFile(b) => MessageV::BinaryFile(b@),
            Message::EventTable(t) => MessageV::EventTable(t@),
            Message::OutOfServiceIndicator => MessageV::OutOfServiceIndicator,
            Message::KeepAlive => MessageV::KeepAlive,
        }
    }
}

/// One raw transport frame, as handed in by the socket loop.
#[derive(Debug, Clone)]
pub enum FrameIn {
    Text(String),
    Binary(Vec<u8>),
}

/// Mathematical image of a `FrameIn`.
pub ghost enum FrameInV {
    Text(Seq<char>),
    Binary(Seq<u8>),
}

impl View for FrameIn {
    type V = FrameInV;

    open spec fn view(&self) -> FrameInV {
        match self {
            FrameIn::Text(s) => FrameInV::Text(s@),
            FrameIn::Binary(b) => FrameInV::Binary(b@),
        }
    }
}

/// Where the demultiplexer stands between frames.
#[derive(Debug, Clone, Copy, PartialEq, Eq, Structural)]
pub enum DemuxState {
    /// The next frame is a header frame.
    AwaitHeader,
    /// The header's info byte was non-zero: the next frame carries the true
    /// body length.
    AwaitLength(MessageType),
    /// The next frame is the body of a message of this type and length.
    AwaitBody(MessageType, u32),
}

/// The message type encoded by a header code byte; `None` above 7.
pub open spec fn spec_type_of_code(c: u8) -> Option<MessageType> {
    if c == 0 { Some(MessageType::Text) }
    else if c == 1 { Some(MessageType::BinaryFile) }
    else if c == 2 { Some(MessageType::ValueEventTable) }
    else if c == 3 { Some(MessageType::TextEventTable) }
    else if c == 4 { Some(MessageType::DaytimerEventTable) }
    else if c == 5 { Some(MessageType::OutOfServiceIndicator) }
    else if c == 6 { Some(MessageType::KeepAlive) }
    else if c == 7 { Some(MessageType::WeatherEventTable) }
    else { None }
}

impl MessageType {
    /// Decodes a header code byte; `None` for an unknown code.
    pub fn from_code(c: u8) -> (r: Option<MessageType>)
        ensures
            r == spec_type_of_code(c),
    {
        match c {
            0 => Some(MessageType::Text),
            1 => Some(MessageType::BinaryFile),
            2 => Some(MessageType::ValueEventTable),
            3 => Some(MessageType::TextEventTable),
            4 => Some(MessageType::DaytimerEventTable),
            5 => Some(MessageType::OutOfServiceIndicator),
            6 => Some(MessageType::KeepAlive),
            7 => Some(MessageType::WeatherEventTable),
            _ => None,
        }
    }
}

/// The state reached once a message type and its body length are known:
/// bodyless types complete at once, everything else awaits its body.
pub open spec fn spec_after_header(t: MessageType, len: u32) -> (DemuxState, Option<MessageV>) {
    if t == MessageType::OutOfServiceIndicator {
        (DemuxState::AwaitHeader, Some(MessageV::OutOfServiceIndicator))
    } else if t == MessageType::KeepAlive {
        (DemuxState::AwaitHeader, Some(MessageV::KeepAlive))
    } else {
        (DemuxState::AwaitBody(t, len), None)
    }
}

/// The decoded body of a table message, lifted to views; `None` when the
/// body does not decode.
pub open spec fn spec_body_step(t: MessageType, len: u32, f: FrameInV) -> Option<(DemuxState, Option<MessageV>)> {
    match f {
        FrameInV::Text(s) => {
            if t == MessageType::Text {
                Some((DemuxState::AwaitHeader, Some(MessageV::Text(s))))
            } else if t == MessageType::BinaryFile {
                Some((DemuxState::AwaitHeader, Some(MessageV::BinaryText(s))))
            } else {
                None
            }
        },
        FrameInV::Binary(b) => {
            if t == MessageType::Text {
                None
            } else if t == MessageType::BinaryFile {
                Some((DemuxState::AwaitHeader, Some(MessageV::BinaryFile(b))))
            } else if t == MessageType::ValueEventTable {
                match spec_value_events(b, len as int) {
                    Some(evs) => Some((DemuxState::AwaitHeader,
                        Some(MessageV::EventTable(EventTableV::ValueEvents(evs))))),
                    None => None,
                }
            } else if t == MessageType::TextEventTable {
                match spec_text_events(b, len as int) {
                    Some(evs) => Some((DemuxState::AwaitHeader,
                        Some(MessageV::EventTable(EventTableV::TextEvents(evs))))),
                    None => None,
                }
            } else if t == MessageType::DaytimerEventTable {
                match spec_daytimer_events(b, len as int) {
                    Some(evs) => Some((DemuxState::AwaitHeader,
                        Some(MessageV::EventTable(EventTableV::DaytimerEvents(evs))))),
                    None => None,
                }
            } else if t == MessageType::WeatherEventTable {
                match spec_weather_events(b, len as int) {
                    Some(evs) => Some((DemuxState::AwaitHeader,
                        Some(MessageV::EventTable(EventTableV::WeatherEvents(evs))))),
                    None => None,
                }
            } else {
                None
            }
        },
    }
}

/// One step of the demultiplexer on one frame; `None` is a fatal framing or
/// decode failure.
pub open spec fn spec_demux_step(st: DemuxState, f: FrameInV) -> Option<(DemuxState, Option<MessageV>)> {
    match st {
        DemuxState::AwaitHeader => match f {
            FrameInV::Binary(b) => {
                if b.len() < 8 {
                    None
                } else if b[0] != 3 {
                    None
                } else {
                    match spec_type_of_code(b[1]) {
                        None => None,
                        Some(t) => {
                            if b[2] != 0 {
                                Some((DemuxState::AwaitLength(t), None))
                            } else {
                                Some(spec_after_header(t, spec_u32_from_le_bytes(b.subrange(4, 8))))
                            }
                        },
                    }
                }
            },
            FrameInV::Text(_) => None,
        },
        DemuxState::AwaitLength(t) => match f {
            FrameInV::Binary(b) => {
                if b.len() < 4 {
                    None
                } else {
                    Some(spec_after_header(t, spec_u32_from_le_bytes(b.subrange(0, 4))))
                }
            },
            FrameInV::Text(_) => None,
        },
        DemuxState::AwaitBody(t, len) => spec_body_step(t, len, f),
    }
}

/// View of the optional message an exec step yields.
pub open spec fn opt_message_view(m: Option<Message>) -> Option<MessageV> {
    match m {
        Some(msg) => Some(msg@),
        None => None,
    }
}

/// Feeds one transport frame to the demultiplexer. On success the new state
/// and, when a message completed, the message; on failure the fatal framing
/// error.
pub fn demux_step(st: DemuxState, frame: FrameIn) -> (r: Result<(DemuxState, Option<Message>), FrameError>)
    ensures
        r is Ok <==> spec_demux_step(st, frame@) is Some,
        r matches Ok((st2, m)) ==> Some((st2, opt_message_view(m))) == spec_demux_step(st, frame@),
        st is AwaitHeader && frame is Text ==> r == Err::<(DemuxState, Option<Message>), FrameError>(FrameError::HeaderNotBinary),
        frame matches FrameIn::Binary(b) && st is AwaitHeader && b@.len() < 8
            ==> r == Err::<(DemuxState, Option<Message>), FrameError>(FrameError::TruncatedHeader),
        frame matches FrameIn::Binary(b)
            ==> (st is AwaitHeader && b@.len() >= 8 && b@[0] != 3
                ==> r == Err::<(DemuxState, Option<Message>), FrameError>(FrameError::BadMagic(b@[0]))),
        frame matches FrameIn::Binary(b)
            ==> (st is AwaitHeader && b@.len() >= 8 && b@[0] == 3 && spec_type_of_code(b@[1]) is None
                ==> r == Err::<(DemuxState, Option<Message>), FrameError>(FrameError::UnknownType(b@[1]))),
        st is AwaitLength && frame is Text ==> r == Err::<(DemuxState, Option<Message>), FrameError>(FrameError::LengthNotBinary),
        frame matches FrameIn::Binary(b) && st is AwaitLength && b@.len() < 4
            ==> r == Err::<(DemuxState, Option<Message>), FrameError>(FrameError::TruncatedLength),
        r matches Err(e) ==> (st is AwaitBody ==> e is WrongBodyKind || e is Decode),
{
    match st {
        DemuxState::AwaitHeader => {
            match frame {
                FrameIn::Text(_) => Err(FrameError::HeaderNotBinary),
                FrameIn::Binary(b) => {
                    if b.len() < 8 {
                        return Err(FrameError::TruncatedHeader);
                    }
                    let magic = b[0];
                    if magic != 3 {
                        return Err(FrameError::BadMagic(magic));
                    }
                    let code = b[1];
                    let t = match MessageType::from_code(code) {
                        Some(t) => t,
                        None => {
                            return Err(FrameError::UnknownType(code));
                        },
                    };
                    let info = b[2];
                    if info != 0 {
                        Ok((DemuxState::AwaitLength(t), None))
                    } else {
                        let len = u32_from_le_bytes(slice_subrange(b.as_slice(), 4, 8));
                        Ok(after_header(t, len))
                    }
                },
            }
        },
        DemuxState::AwaitLength(t) => {
            match frame {
                FrameIn::Text(_) => Err(FrameError::LengthNotBinary),
                FrameIn::Binary(b) => {
                    if b.len() < 4 {
                        return Err(FrameError::TruncatedLength);
                    }
                    let len = u32_from_le_bytes(slice_subrange(b.as_slice(), 0, 4));
                    Ok(after_header(t, len))
                },
            }
        },
        DemuxState::AwaitBody(t, len) => body_step(t, len, frame),
    }
}

/// Completes a header once the body length is known.
fn after_header(t: MessageType, len: u32) -> (r: (DemuxState, Option<Message>))
    ensures
        (r.0, opt_message_view(r.1)) == spec_after_header(t, len),
{
    match t {
        MessageType::OutOfServiceIndicator => (DemuxState::AwaitHeader, Some(Message::OutOfServiceIndicator)),
        MessageType::KeepAlive => (DemuxState::AwaitHeader, Some(Message::KeepAlive)),
        _ => (DemuxState::AwaitBody(t, len), None),
    }
}

/// Decodes a body frame for a message of type `t` and declared length `len`.
fn body_step(t: MessageType, len: u32, frame: FrameIn) -> (r: Result<(DemuxState, Option<Message>), FrameError>)
    ensures
        r is Ok <==> spec_body_step(t, len, frame@) is Some,
        r matches Ok((st2, m)) ==> Some((st2, opt_message_view(m))) == spec_body_step(t, len, frame@),
        r matches Err(e) ==> e is WrongBodyKind || e is Decode,
{
    match frame {
        FrameIn::Text(s) => {
            match t {
                MessageType::Text => Ok((DemuxState::AwaitHeader, Some(Message::Text(s)))),
                MessageType::BinaryFile => Ok((DemuxState::AwaitHeader, Some(Message::BinaryText(s)))),
                _ => Err(FrameError::WrongBodyKind),
            }
        },
        FrameIn::Binary(b) => {
            match t {
                MessageType::Text => Err(FrameError::WrongBodyKind),
                MessageType::BinaryFile => Ok((DemuxState::AwaitHeader, Some(Message::BinaryFile(b)))),
                MessageType::ValueEventTable => {
                    match decode_value_events(b.as_slice(), len as usize) {
                        Ok(evs) => Ok((DemuxState::AwaitHeader,
                            Some(Message::EventTable(EventTable::ValueEvents(evs))))),
                        Err(e) => Err(FrameError::Decode(e)),
                    }
                },
                MessageType::TextEventTable => {
                    match decode_text_events(b.as_slice(), len as usize) {
                        Ok(evs) => Ok((DemuxState::AwaitHeader,
                            Some(Message::EventTable(EventTable::TextEvents(evs))))),
                        Err(e) => Err(FrameError::Decode(e)),
                    }
                },
                MessageType::DaytimerEventTable => {
                    match decode_daytimer_events(b.as_slice(), len as usize) {
                        Ok(evs) => Ok((DemuxState::AwaitHeader,
                            Some(Message::EventTable(EventTable::DaytimerEvents(evs))))),
                        Err(e) => Err(FrameError::Decode(e)),
                    }
                },
                MessageType::WeatherEventTable => {
                    match decode_weather_events(b.as_slice(), len as usize) {
                        Ok(evs) => Ok((DemuxState::AwaitHeader,
                            Some(Message::EventTable(EventTable::WeatherEvents(evs))))),
                        Err(e) => Err(FrameError::Decode(e)),
                    }
                },
                MessageType::OutOfServiceIndicator => Err(FrameError::WrongBodyKind),
                MessageType::KeepAlive => Err(FrameError::WrongBodyKind),
            }
        },
    }
}

} // verus!
