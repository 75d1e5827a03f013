//! Event-table codec, UUID and frame demultiplexer tests.

use loxws::codec::{
    decode_daytimer_events, decode_text_event_at, decode_text_events, decode_value_events,
    decode_weather_events,
};
use loxws::err::{DecodeError, FrameError};
use loxws::events::EventTable;
use loxws::frame::{demux_step, DemuxState, FrameIn, Message, MessageType};
use loxws::uuid::{uuid_parse, uuid_render};

const UUID_BYTES: [u8; 16] = [
    0x0a, 0x0b, 0x0c, 0x0d, 0x0e, 0x0f, 0x10, 0x11, 0x12, 0x13, 0x14, 0x15, 0x16, 0x17, 0x18,
    0x19,
];
const UUID_TEXT: &str = "0d0c0b0a-0f0e-1110-1213141516171819";

#[test]
fn uuid_render_canonical() {
    let s = uuid_render(&UUID_BYTES);
    assert_eq!(s, UUID_TEXT);
    assert_eq!(s.len(), 35);
}

#[test]
fn uuid_round_trip_all_byte_patterns() {
    let mut bytes = [0u8; 16];
    for i in 0..16 {
        bytes[i] = (i as u8) * 17 + 3;
    }
    let s = uuid_render(&bytes);
    let back = uuid_parse(&s).unwrap();
    assert_eq!(back.as_slice(), &bytes);
}

#[test]
fn uuid_parse_rejects_bad_forms() {
    assert!(uuid_parse("").is_none());
    assert!(uuid_parse("0d0c0b0a-0f0e-1110-121314151617181").is_none());
    assert!(uuid_parse("0d0c0b0a-0f0e-1110-12131415161718190").is_none());
    assert!(uuid_parse("0d0c0b0a+0f0e-1110-1213141516171819").is_none());
    assert!(uuid_parse("0d0c0b0a-0f0e-1110-121314151617181g").is_none());
}

fn value_body() -> Vec<u8> {
    let mut body = UUID_BYTES.to_vec();
    body.extend_from_slice(&42.5f64.to_le_bytes());
    body
}

#[test]
fn value_table_single_record() {
    let body = value_body();
    let evs = decode_value_events(&body, 24).unwrap();
    assert_eq!(evs.len(), 1);
    assert_eq!(evs[0].uuid, UUID_TEXT);
    assert_eq!(f64::from_bits(evs[0].value), 42.5);
}

#[test]
fn value_table_consumes_exactly_msg_len() {
    let mut body = value_body();
    body.extend_from_slice(&value_body());
    let evs = decode_value_events(&body, 48).unwrap();
    assert_eq!(evs.len(), 2);
    // A record may not straddle the declared length.
    assert_eq!(decode_value_events(&body, 23).unwrap_err(), DecodeError::TruncatedRecord);
    assert_eq!(decode_value_events(&body, 49).unwrap_err(), DecodeError::TruncatedRecord);
    // Trailing bytes past msg_len are ignored.
    let evs = decode_value_events(&body, 24).unwrap();
    assert_eq!(evs.len(), 1);
}

fn text_body(text: &str) -> Vec<u8> {
    let mut body = UUID_BYTES.to_vec();
    body.extend_from_slice(&UUID_BYTES);
    body.extend_from_slice(&(text.len() as u32).to_le_bytes());
    body.extend_from_slice(text.as_bytes());
    let pad = (4 - text.len() % 4) % 4;
    body.extend_from_slice(&vec![0u8; pad]);
    body
}

#[test]
fn text_event_with_padding() {
    let body = text_body("hi");
    assert_eq!(body.len(), 40);
    let evs = decode_text_events(&body, 40).unwrap();
    assert_eq!(evs.len(), 1);
    assert_eq!(evs[0].text, "hi");
    assert_eq!(evs[0].uuid, UUID_TEXT);
    assert_eq!(evs[0].icon, UUID_TEXT);
}

#[test]
fn text_event_cursor_advance() {
    // After the 36-byte record head the cursor moves by L plus the pad to a
    // multiple of four: 2 + 2 here.
    let body = text_body("hi");
    let (ev, next) = decode_text_event_at(&body, 0, 40).unwrap();
    assert_eq!(ev.text, "hi");
    assert_eq!(next, 36 + 2 + 2);
    // A four-character text needs no padding.
    let body = text_body("abcd");
    let (_, next) = decode_text_event_at(&body, 0, 40).unwrap();
    assert_eq!(next, 36 + 4);
}

#[test]
fn text_event_truncated_is_refused() {
    let body = text_body("hi");
    assert_eq!(decode_text_events(&body, 39).unwrap_err(), DecodeError::TruncatedRecord);
    assert_eq!(decode_text_events(&body, 41).unwrap_err(), DecodeError::TruncatedRecord);
}

#[test]
fn text_event_bad_utf8_is_refused() {
    let mut body = UUID_BYTES.to_vec();
    body.extend_from_slice(&UUID_BYTES);
    body.extend_from_slice(&4u32.to_le_bytes());
    body.extend_from_slice(&[0xff, 0xfe, 0xfd, 0xfc]);
    assert_eq!(decode_text_events(&body, 40).unwrap_err(), DecodeError::BadUtf8);
}

fn daytimer_body(entries: i32) -> Vec<u8> {
    let mut body = UUID_BYTES.to_vec();
    body.extend_from_slice(&1.5f64.to_le_bytes());
    body.extend_from_slice(&entries.to_le_bytes());
    for k in 0..entries.max(0) {
        body.extend_from_slice(&(k + 1).to_le_bytes());
        body.extend_from_slice(&(-2i32).to_le_bytes());
        body.extend_from_slice(&3i32.to_le_bytes());
        body.extend_from_slice(&0i32.to_le_bytes());
        body.extend_from_slice(&9.25f64.to_le_bytes());
    }
    body
}

#[test]
fn daytimer_table_single_event() {
    let body = daytimer_body(2);
    let evs = decode_daytimer_events(&body, body.len()).unwrap();
    assert_eq!(evs.len(), 1);
    assert_eq!(evs[0].uuid, UUID_TEXT);
    assert_eq!(f64::from_bits(evs[0].default_value), 1.5);
    assert_eq!(evs[0].entries.len(), 2);
    assert_eq!(evs[0].entries[0].mode, 1);
    assert_eq!(evs[0].entries[1].mode, 2);
    assert_eq!(evs[0].entries[0].from, -2);
    assert_eq!(f64::from_bits(evs[0].entries[0].value), 9.25);
}

#[test]
fn daytimer_negative_count_is_refused() {
    let body = daytimer_body(-1);
    assert_eq!(decode_daytimer_events(&body, body.len()).unwrap_err(), DecodeError::NegativeCount);
}

fn weather_body() -> Vec<u8> {
    let mut body = UUID_BYTES.to_vec();
    body.extend_from_slice(&77u32.to_le_bytes());
    body.extend_from_slice(&1i32.to_le_bytes());
    body.extend_from_slice(&100i32.to_le_bytes());
    body.extend_from_slice(&2i32.to_le_bytes());
    body.extend_from_slice(&180i32.to_le_bytes());
    body.extend_from_slice(&500i32.to_le_bytes());
    body.extend_from_slice(&55i32.to_le_bytes());
    body.extend_from_slice(&21.5f64.to_le_bytes());
    body.extend_from_slice(&20.0f64.to_le_bytes());
    body.extend_from_slice(&12.5f64.to_le_bytes());
    body.extend_from_slice(&0.25f64.to_le_bytes());
    body.extend_from_slice(&3.5f64.to_le_bytes());
    body.extend_from_slice(&1013.25f64.to_le_bytes());
    body
}

#[test]
fn weather_table_single_event() {
    let body = weather_body();
    assert_eq!(body.len(), 24 + 68);
    let evs = decode_weather_events(&body, body.len()).unwrap();
    assert_eq!(evs.len(), 1);
    assert_eq!(evs[0].uuid, UUID_TEXT);
    assert_eq!(evs[0].last_update, 77);
    assert_eq!(evs[0].entries.len(), 1);
    assert_eq!(evs[0].entries[0].timestamp, 100);
    assert_eq!(evs[0].entries[0].relative_humidity, 55);
    assert_eq!(f64::from_bits(evs[0].entries[0].temperature), 21.5);
    assert_eq!(f64::from_bits(evs[0].entries[0].barometric_pressure), 1013.25);
}

fn header(code: u8, info: u8, len: u32) -> Vec<u8> {
    let mut h = vec![3u8, code, info, 0];
    h.extend_from_slice(&len.to_le_bytes());
    h
}

#[test]
fn keep_alive_has_no_body() {
    let (st, msg) = demux_step(DemuxState::AwaitHeader, FrameIn::Binary(header(6, 0, 0))).unwrap();
    assert!(matches!(st, DemuxState::AwaitHeader));
    assert!(matches!(msg, Some(Message::KeepAlive)));
}

#[test]
fn out_of_service_has_no_body() {
    let (st, msg) = demux_step(DemuxState::AwaitHeader, FrameIn::Binary(header(5, 0, 0))).unwrap();
    assert!(matches!(st, DemuxState::AwaitHeader));
    assert!(matches!(msg, Some(Message::OutOfServiceIndicator)));
}

#[test]
fn value_table_through_demux() {
    let (st, msg) = demux_step(DemuxState::AwaitHeader, FrameIn::Binary(header(2, 0, 24))).unwrap();
    assert!(msg.is_none());
    assert!(matches!(st, DemuxState::AwaitBody(MessageType::ValueEventTable, 24)));
    let (st, msg) = demux_step(st, FrameIn::Binary(value_body())).unwrap();
    assert!(matches!(st, DemuxState::AwaitHeader));
    match msg {
        Some(Message::EventTable(EventTable::ValueEvents(evs))) => {
            assert_eq!(evs.len(), 1);
            assert_eq!(evs[0].uuid, UUID_TEXT);
            assert_eq!(f64::from_bits(evs[0].value), 42.5);
        }
        other => panic!("unexpected message {:?}", other),
    }
}

#[test]
fn length_frame_overrides_header_length() {
    let (st, msg) = demux_step(DemuxState::AwaitHeader, FrameIn::Binary(header(2, 1, 999))).unwrap();
    assert!(msg.is_none());
    assert!(matches!(st, DemuxState::AwaitLength(MessageType::ValueEventTable)));
    let (st, msg) = demux_step(st, FrameIn::Binary(24u32.to_le_bytes().to_vec())).unwrap();
    assert!(msg.is_none());
    assert!(matches!(st, DemuxState::AwaitBody(MessageType::ValueEventTable, 24)));
}

#[test]
fn header_errors() {
    let r = demux_step(DemuxState::AwaitHeader, FrameIn::Binary(vec![3, 2, 0]));
    assert_eq!(r.unwrap_err(), FrameError::TruncatedHeader);
    let r = demux_step(DemuxState::AwaitHeader, FrameIn::Binary(header(2, 0, 24).split_at(7).0.to_vec()));
    assert_eq!(r.unwrap_err(), FrameError::TruncatedHeader);
    let mut bad_magic = header(2, 0, 24);
    bad_magic[0] = 4;
    let r = demux_step(DemuxState::AwaitHeader, FrameIn::Binary(bad_magic));
    assert_eq!(r.unwrap_err(), FrameError::BadMagic(4));
    let r = demux_step(DemuxState::AwaitHeader, FrameIn::Binary(header(8, 0, 24)));
    assert_eq!(r.unwrap_err(), FrameError::UnknownType(8));
    let r = demux_step(DemuxState::AwaitHeader, FrameIn::Text("hello".to_string()));
    assert_eq!(r.unwrap_err(), FrameError::HeaderNotBinary);
}

#[test]
fn wrong_body_kind_is_fatal() {
    let st = DemuxState::AwaitBody(MessageType::Text, 2);
    let r = demux_step(st, FrameIn::Binary(vec![1, 2]));
    assert_eq!(r.unwrap_err(), FrameError::WrongBodyKind);
    let st = DemuxState::AwaitBody(MessageType::ValueEventTable, 24);
    let r = demux_step(st, FrameIn::Text("nope".to_string()));
    assert_eq!(r.unwrap_err(), FrameError::WrongBodyKind);
}

#[test]
fn binary_file_slot_accepts_both_kinds() {
    let st = DemuxState::AwaitBody(MessageType::BinaryFile, 3);
    let (_, msg) = demux_step(st, FrameIn::Text("doc".to_string())).unwrap();
    assert!(matches!(msg, Some(Message::BinaryText(t)) if t == "doc"));
    let st = DemuxState::AwaitBody(MessageType::BinaryFile, 3);
    let (_, msg) = demux_step(st, FrameIn::Binary(vec![9, 8, 7])).unwrap();
    assert!(matches!(msg, Some(Message::BinaryFile(b)) if b == vec![9, 8, 7]));
}

#[test]
fn truncated_table_body_is_a_decode_error() {
    let st = DemuxState::AwaitBody(MessageType::ValueEventTable, 24);
    let r = demux_step(st, FrameIn::Binary(vec![0u8; 10]));
    assert_eq!(r.unwrap_err(), FrameError::Decode(DecodeError::TruncatedRecord));
}
