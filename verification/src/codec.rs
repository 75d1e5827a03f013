//! Binary event-table codecs.
//!
//! An event-table body is a packed little-endian record stream. Records are
//! parsed until the cursor stands exactly at `msg_len`; a record that would
//! read past `msg_len` is refused. The only padding is the text field's
//! alignment to a multiple of four bytes.

use vstd::prelude::*;
use vstd::bytes::{spec_u32_from_le_bytes, spec_u64_from_le_bytes, u32_from_le_bytes, u64_from_le_bytes};
use vstd::slice::{slice_subrange, slice_to_vec};
use vstd::utf8::{valid_utf8, decode_utf8, encode_utf8, decode_utf8_encode_utf8};
use crate::err::DecodeError;
use crate::events::{
    ValueEvent, TextEvent, DaytimerEntry, DaytimerEvent, WeatherEntry, WeatherEvent,
    ValueEventV, TextEventV, DaytimerEventV, WeatherEventV,
    value_events_view, text_events_view, daytimer_events_view, weather_events_view,
};
use crate::uuid::{spec_uuid_chars, uuid_render};
use crate::strutil::utf8_to_string;

verus! {

/// Bytes needed to advance a length-`l` text field to the next multiple of
/// four.
pub open spec fn pad4(l: int) -> int {
    (4 - l % 4) % 4
}

/// Prepends `pre` to the content of `o`, staying `None` when `o` is.
pub open spec fn opt_prepend<T>(pre: Seq<T>, o: Option<Seq<T>>) -> Option<Seq<T>> {
    match o {
        Some(s) => Some(pre + s),
        None => None,
    }
}

/// The signed little-endian 32-bit integer at `pos`.
pub open spec fn spec_i32_at(b: Seq<u8>, pos: int) -> i32 {
    spec_u32_from_le_bytes(b.subrange(pos, pos + 4)) as i32
}

// ---------------------------------------------------------------------------
// Value events: fixed 24-byte records (UUID, f64 bits).
// ---------------------------------------------------------------------------

/// The value record that starts at byte `pos`.
pub open spec fn spec_value_event_at(b: Seq<u8>, pos: int) -> ValueEventV {
    ValueEventV {
        uuid: spec_uuid_chars(b.subrange(pos, pos + 16)),
        value: spec_u64_from_le_bytes(b.subrange(pos + 16, pos + 24)),
    }
}

/// Decoding of a value-event body of declared length `end`: defined exactly
/// when `end` lies within the buffer and is a whole number of records.
pub open spec fn spec_value_events(b: Seq<u8>, end: int) -> Option<Seq<ValueEventV>> {
    if 0 <= end <= b.len() && end % 24 == 0 {
        Some(Seq::new((end / 24) as nat, |i: int| spec_value_event_at(b, 24 * i)))
    } else {
        None
    }
}

/// A decoded value-event body consumes exactly `end` bytes: 24 per record.
pub proof fn lemma_value_events_consume(b: Seq<u8>, end: int)
    requires
        spec_value_events(b, end) is Some,
    ensures
        24 * spec_value_events(b, end)->Some_0.len() == end,
{
}

/// Decodes a value-event body. Succeeds exactly when `msg_len` lies within
/// the body and is a whole number of 24-byte records.
pub fn decode_value_events(body: &[u8], msg_len: usize) -> (r: Result<Vec<ValueEvent>, DecodeError>)
    ensures
        r is Ok <==> spec_value_events(body@, msg_len as int) is Some,
        r matches Ok(evs) ==> Some(value_events_view(evs@)) == spec_value_events(body@, msg_len as int),
{
    if msg_len > body.len() || msg_len % 24 != 0 {
        return Err(DecodeError::TruncatedRecord);
    }
    let n = msg_len / 24;
    let mut evs: Vec<ValueEvent> = Vec::new();
    let mut i: usize = 0;
    while i < n
        invariant
            msg_len <= body@.len(),
            msg_len % 24 == 0,
            n == msg_len / 24,
            i <= n,
            evs@.len() == i,
            forall|j: int| 0 <= j < i ==> (#[trigger] evs@[j])@ == spec_value_event_at(body@, 24 * j),
        decreases n - i,
    {
        let pos = 24 * i;
        let uuid = uuid_render(slice_subrange(body, pos, pos + 16));
        let value = u64_from_le_bytes(slice_subrange(body, pos + 16, pos + 24));
        evs.push(ValueEvent { uuid, value });
        i = i + 1;
    }
    proof {
        assert(value_events_view(evs@) =~= spec_value_events(body@, msg_len as int)->Some_0);
    }
    Ok(evs)
}

// ---------------------------------------------------------------------------
// Text events: variable-size records with padding to four bytes.
// ---------------------------------------------------------------------------

/// The text-length field of the text record that starts at byte `pos`.
pub open spec fn spec_text_len_at(b: Seq<u8>, pos: int) -> int {
    spec_u32_from_le_bytes(b.subrange(pos + 32, pos + 36)) as int
}

/// The text record that starts at byte `pos`.
pub open spec fn spec_text_event_at(b: Seq<u8>, pos: int) -> TextEventV {
    let l = spec_text_len_at(b, pos);
    TextEventV {
        uuid: spec_uuid_chars(b.subrange(pos, pos + 16)),
        icon: spec_uuid_chars(b.subrange(pos + 16, pos + 32)),
        text: decode_utf8(b.subrange(pos + 36, pos + 36 + l)),
    }
}

/// Decoding of the text records between `pos` and `end`.
pub open spec fn spec_text_events_from(b: Seq<u8>, pos: int, end: int) -> Option<Seq<TextEventV>>
    decreases end - pos,
{
    if pos == end {
        Some(Seq::empty())
    } else if pos + 36 > end {
        None
    } else {
        let l = spec_text_len_at(b, pos);
        let next = pos + 36 + l + pad4(l);
        if next > end {
            None
        } else if !valid_utf8(b.subrange(pos + 36, pos + 36 + l)) {
            None
        } else {
            opt_prepend(seq![spec_text_event_at(b, pos)], spec_text_events_from(b, next, end))
        }
    }
}

/// Decoding of a text-event body of declared length `end`.
pub open spec fn spec_text_events(b: Seq<u8>, end: int) -> Option<Seq<TextEventV>> {
    if 0 <= end <= b.len() {
        spec_text_events_from(b, 0, end)
    } else {
        None
    }
}

/// The bytes a text record occupies on the wire: fixed header, the UTF-8
/// text, and the padding to the next multiple of four.
pub open spec fn text_event_wire_size(e: TextEventV) -> int {
    36 + encode_utf8(e.text).len() + pad4(encode_utf8(e.text).len() as int)
}

pub open spec fn text_events_wire_size(s: Seq<TextEventV>) -> int
    decreases s.len(),
{
    if s.len() == 0 {
        0
    } else {
        text_event_wire_size(s[0]) + text_events_wire_size(s.drop_first())
    }
}

/// A decoded text-event body consumes exactly the bytes between `pos` and
/// `end`: each record advances the cursor by its full padded size.
pub proof fn lemma_text_events_consume(b: Seq<u8>, pos: int, end: int)
    requires
        0 <= pos,
        end <= b.len(),
        spec_text_events_from(b, pos, end) is Some,
    ensures
        text_events_wire_size(spec_text_events_from(b, pos, end)->Some_0) == end - pos,
    decreases end - pos,
{
    if pos == end {
    } else {
        let l = spec_text_len_at(b, pos);
        let next = pos + 36 + l + pad4(l);
        let text_bytes = b.subrange(pos + 36, pos + 36 + l);
        decode_utf8_encode_utf8(text_bytes);
        lemma_text_events_consume(b, next, end);
        let s = spec_text_events_from(b, pos, end)->Some_0;
        let rest = spec_text_events_from(b, next, end)->Some_0;
        assert(s.drop_first() =~= rest);
        assert(s[0] == spec_text_event_at(b, pos));
        assert(encode_utf8(s[0].text).len() == l);
    }
}

/// Decodes one text record at `pos`, returning the record and the cursor
/// position after the record, text padding included.
pub fn decode_text_event_at(body: &[u8], pos: usize, end: usize) -> (r: Result<(TextEvent, usize), DecodeError>)
    requires
        pos < end <= body@.len(),
    ensures
        r matches Ok((ev, next)) ==> {
            &&& pos + 36 <= end
            &&& next == pos + 36 + spec_text_len_at(body@, pos as int) + pad4(spec_text_len_at(body@, pos as int))
            &&& next <= end
            &&& valid_utf8(body@.subrange(pos as int + 36, pos as int + 36 + spec_text_len_at(body@, pos as int)))
            &&& ev@ == spec_text_event_at(body@, pos as int)
        },
        r is Err <==> {
            ||| pos + 36 > end
            ||| pos + 36 + spec_text_len_at(body@, pos as int) + pad4(spec_text_len_at(body@, pos as int)) > end
            ||| !valid_utf8(body@.subrange(pos as int + 36, pos as int + 36 + spec_text_len_at(body@, pos as int)))
        },
{
    if end - pos < 36 {
        return Err(DecodeError::TruncatedRecord);
    }
    let uuid = uuid_render(slice_subrange(body, pos, pos + 16));
    let icon = uuid_render(slice_subrange(body, pos + 16, pos + 32));
    let l32 = u32_from_le_bytes(slice_subrange(body, pos + 32, pos + 36));
    let l = l32 as u64;
    let pad = (4 - l % 4) % 4;
    if ((end - pos) as u64) < 36 + l + pad {
        return Err(DecodeError::TruncatedRecord);
    }
    let l_us = l32 as usize;
    let pad_us = pad as usize;
    let text_bytes = slice_to_vec(slice_subrange(body, pos + 36, pos + 36 + l_us));
    let text = match utf8_to_string(text_bytes) {
        Ok(t) => t,
        Err(e) => {
            return Err(e);
        },
    };
    Ok((TextEvent { uuid, icon, text }, pos + 36 + l_us + pad_us))
}

/// Decodes a text-event body. Succeeds exactly when the records tile the
/// first `msg_len` bytes and every text field is valid UTF-8.
pub fn decode_text_events(body: &[u8], msg_len: usize) -> (r: Result<Vec<TextEvent>, DecodeError>)
    ensures
        r is Ok <==> spec_text_events(body@, msg_len as int) is Some,
        r matches Ok(evs) ==> Some(text_events_view(evs@)) == spec_text_events(body@, msg_len as int),
{
    if msg_len > body.len() {
        return Err(DecodeError::TruncatedRecord);
    }
    let end = msg_len;
    let mut evs: Vec<TextEvent> = Vec::new();
    let mut pos: usize = 0;
    while pos < end
        invariant
            end == msg_len <= body@.len(),
            pos <= end,
            opt_prepend(text_events_view(evs@), spec_text_events_from(body@, pos as int, end as int))
                == spec_text_events_from(body@, 0, end as int),
        decreases end - pos,
    {
        let ghost old_evs = evs@;
        let ghost old_pos = pos as int;
        let (ev, next) = match decode_text_event_at(body, pos, end) {
            Ok(x) => x,
            Err(e) => {
                return Err(e);
            },
        };
        evs.push(ev);
        pos = next;
        proof {
            assert(text_events_view(evs@) =~= text_events_view(old_evs).push(ev@));
            let rest_o = spec_text_events_from(body@, pos as int, end as int);
            if rest_o is Some {
                assert(text_events_view(old_evs) + (seq![ev@] + rest_o->Some_0)
                    =~= text_events_view(evs@) + rest_o->Some_0);
            }
        }
    }
    proof {
        assert(text_events_view(evs@) + Seq::<TextEventV>::empty() =~= text_events_view(evs@));
    }
    Ok(evs)
}

// ---------------------------------------------------------------------------
// Daytimer events: 28-byte header plus 24-byte entries.
// ---------------------------------------------------------------------------

/// The daytimer entry that starts at byte `pos`.
pub open spec fn spec_daytimer_entry_at(b: Seq<u8>, pos: int) -> DaytimerEntry {
    DaytimerEntry {
        mode: spec_i32_at(b, pos),
        from: spec_i32_at(b, pos + 4),
        to: spec_i32_at(b, pos + 8),
        need_activate: spec_i32_at(b, pos + 12),
        value: spec_u64_from_le_bytes(b.subrange(pos + 16, pos + 24)),
    }
}

/// The daytimer record that starts at byte `pos`.
pub open spec fn spec_daytimer_event_at(b: Seq<u8>, pos: int) -> DaytimerEventV {
    let n = spec_i32_at(b, pos + 24) as int;
    DaytimerEventV {
        uuid: spec_uuid_chars(b.subrange(pos, pos + 16)),
        default_value: spec_u64_from_le_bytes(b.subrange(pos + 16, pos + 24)),
        entries: Seq::new(n as nat, |k: int| spec_daytimer_entry_at(b, pos + 28 + 24 * k)),
    }
}

/// Decoding of the daytimer records between `pos` and `end`.
pub open spec fn spec_daytimer_events_from(b: Seq<u8>, pos: int, end: int) -> Option<Seq<DaytimerEventV>>
    decreases end - pos,
{
    if pos == end {
        Some(Seq::empty())
    } else if pos + 28 > end {
        None
    } else {
        let n = spec_i32_at(b, pos + 24) as int;
        if n < 0 {
            None
        } else if pos + 28 + 24 * n > end {
            None
        } else {
            opt_prepend(
                seq![spec_daytimer_event_at(b, pos)],
                spec_daytimer_events_from(b, pos + 28 + 24 * n, end),
            )
        }
    }
}

/// Decoding of a daytimer-event body of declared length `end`.
pub open spec fn spec_daytimer_events(b: Seq<u8>, end: int) -> Option<Seq<DaytimerEventV>> {
    if 0 <= end <= b.len() {
        spec_daytimer_events_from(b, 0, end)
    } else {
        None
    }
}

/// The bytes a daytimer record occupies on the wire.
pub open spec fn daytimer_event_wire_size(e: DaytimerEventV) -> int {
    28 + 24 * (e.entries.len() as int)
}

pub open spec fn daytimer_events_wire_size(s: Seq<DaytimerEventV>) -> int
    decreases s.len(),
{
    if s.len() == 0 {
        0
    } else {
        daytimer_event_wire_size(s[0]) + daytimer_events_wire_size(s.drop_first())
    }
}

/// A decoded daytimer-event body consumes exactly the bytes between `pos`
/// and `end`.
pub proof fn lemma_daytimer_events_consume(b: Seq<u8>, pos: int, end: int)
    requires
        spec_daytimer_events_from(b, pos, end) is Some,
    ensures
        daytimer_events_wire_size(spec_daytimer_events_from(b, pos, end)->Some_0) == end - pos,
    decreases end - pos,
{
    if pos == end {
    } else {
        let n = spec_i32_at(b, pos + 24) as int;
        lemma_daytimer_events_consume(b, pos + 28 + 24 * n, end);
        let s = spec_daytimer_events_from(b, pos, end)->Some_0;
        let rest = spec_daytimer_events_from(b, pos + 28 + 24 * n, end)->Some_0;
        assert(s.drop_first() =~= rest);
        assert(s[0] == spec_daytimer_event_at(b, pos));
    }
}

/// Decodes one daytimer record at `pos`, returning the record and the cursor
/// position after its last entry.
pub fn decode_daytimer_event_at(body: &[u8], pos: usize, end: usize) -> (r: Result<(DaytimerEvent, usize), DecodeError>)
    requires
        pos < end <= body@.len(),
    ensures
        r matches Ok((ev, next)) ==> {
            &&& pos + 28 <= end
            &&& spec_i32_at(body@, pos as int + 24) >= 0
            &&& next == pos + 28 + 24 * (spec_i32_at(body@, pos as int + 24) as int)
            &&& next <= end
            &&& ev@ == spec_daytimer_event_at(body@, pos as int)
        },
        r is Err <==> {
            ||| pos + 28 > end
            ||| spec_i32_at(body@, pos as int + 24) < 0
            ||| pos + 28 + 24 * (spec_i32_at(body@, pos as int + 24) as int) > end
        },
        r == Err::<(DaytimerEvent, usize), DecodeError>(DecodeError::NegativeCount)
            <==> pos + 28 <= end && spec_i32_at(body@, pos as int + 24) < 0,
{
    if end - pos < 28 {
        return Err(DecodeError::TruncatedRecord);
    }
    let uuid = uuid_render(slice_subrange(body, pos, pos + 16));
    let default_value = u64_from_le_bytes(slice_subrange(body, pos + 16, pos + 24));
    let raw = u32_from_le_bytes(slice_subrange(body, pos + 24, pos + 28));
    let n = #[verifier::truncate] (raw as i32);
    if n < 0 {
        return Err(DecodeError::NegativeCount);
    }
    let n64 = n as u64;
    if ((end - pos) as u64) < 28 + 24 * n64 {
        return Err(DecodeError::TruncatedRecord);
    }
    let n_us = n as usize;
    let mut entries: Vec<DaytimerEntry> = Vec::new();
    let mut k: usize = 0;
    while k < n_us
        invariant
            pos + 28 + 24 * n_us <= end <= body@.len(),
            k <= n_us,
            entries@.len() == k,
            forall|j: int| 0 <= j < k ==> #[trigger] entries@[j] == spec_daytimer_entry_at(body@, pos + 28 + 24 * j),
        decreases n_us - k,
    {
        let ep = pos + 28 + 24 * k;
        let mode = read_i32(body, ep);
        let from = read_i32(body, ep + 4);
        let to = read_i32(body, ep + 8);
        let need_activate = read_i32(body, ep + 12);
        let value = u64_from_le_bytes(slice_subrange(body, ep + 16, ep + 24));
        entries.push(DaytimerEntry { mode, from, to, need_activate, value });
        k = k + 1;
    }
    proof {
        assert(entries@ =~= spec_daytimer_event_at(body@, pos as int).entries);
    }
    Ok((DaytimerEvent { uuid, default_value, entries }, pos + 28 + 24 * n_us))
}

/// Decodes a daytimer-event body. Succeeds exactly when the records tile the
/// first `msg_len` bytes and no entries count is negative.
pub fn decode_daytimer_events(body: &[u8], msg_len: usize) -> (r: Result<Vec<DaytimerEvent>, DecodeError>)
    ensures
        r is Ok <==> spec_daytimer_events(body@, msg_len as int) is Some,
        r matches Ok(evs) ==> Some(daytimer_events_view(evs@)) == spec_daytimer_events(body@, msg_len as int),
{
    if msg_len > body.len() {
        return Err(DecodeError::TruncatedRecord);
    }
    let end = msg_len;
    let mut evs: Vec<DaytimerEvent> = Vec::new();
    let mut pos: usize = 0;
    while pos < end
        invariant
            end == msg_len <= body@.len(),
            pos <= end,
            opt_prepend(daytimer_events_view(evs@), spec_daytimer_events_from(body@, pos as int, end as int))
                == spec_daytimer_events_from(body@, 0, end as int),
        decreases end - pos,
    {
        let ghost old_evs = evs@;
        let (ev, next) = match decode_daytimer_event_at(body, pos, end) {
            Ok(x) => x,
            Err(e) => {
                return Err(e);
            },
        };
        evs.push(ev);
        pos = next;
        proof {
            assert(daytimer_events_view(evs@) =~= daytimer_events_view(old_evs).push(ev@));
            let rest_o = spec_daytimer_events_from(body@, pos as int, end as int);
            if rest_o is Some {
                assert(daytimer_events_view(old_evs) + (seq![ev@] + rest_o->Some_0)
                    =~= daytimer_events_view(evs@) + rest_o->Some_0);
            }
        }
    }
    proof {
        assert(daytimer_events_view(evs@) + Seq::<DaytimerEventV>::empty() =~= daytimer_events_view(evs@));
    }
    Ok(evs)
}

// ---------------------------------------------------------------------------
// Weather events: 24-byte header plus 68-byte entries.
// ---------------------------------------------------------------------------

/// The weather entry that starts at byte `pos`.
pub open spec fn spec_weather_entry_at(b: Seq<u8>, pos: int) -> WeatherEntry {
    WeatherEntry {
        timestamp: spec_i32_at(b, pos),
        weather_type: spec_i32_at(b, pos + 4),
        wind_direction: spec_i32_at(b, pos + 8),
        solar_radiation: spec_i32_at(b, pos + 12),
        relative_humidity: spec_i32_at(b, pos + 16),
        temperature: spec_u64_from_le_bytes(b.subrange(pos + 20, pos + 28)),
        perceived_temperature: spec_u64_from_le_bytes(b.subrange(pos + 28, pos + 36)),
        dew_point: spec_u64_from_le_bytes(b.subrange(pos + 36, pos + 44)),
        precipitation: spec_u64_from_le_bytes(b.subrange(pos + 44, pos + 52)),
        wind_speed: spec_u64_from_le_bytes(b.subrange(pos + 52, pos + 60)),
        barometric_pressure: spec_u64_from_le_bytes(b.subrange(pos + 60, pos + 68)),
    }
}

/// The weather record that starts at byte `pos`.
pub open spec fn spec_weather_event_at(b: Seq<u8>, pos: int) -> WeatherEventV {
    let n = spec_i32_at(b, pos + 20) as int;
    WeatherEventV {
        uuid: spec_uuid_chars(b.subrange(pos, pos + 16)),
        last_update: spec_u32_from_le_bytes(b.subrange(pos + 16, pos + 20)),
        entries: Seq::new(n as nat, |k: int| spec_weather_entry_at(b, pos + 24 + 68 * k)),
    }
}

/// Decoding of the weather records between `pos` and `end`.
pub open spec fn spec_weather_events_from(b: Seq<u8>, pos: int, end: int) -> Option<Seq<WeatherEventV>>
    decreases end - pos,
{
    if pos == end {
        Some(Seq::empty())
    } else if pos + 24 > end {
        None
    } else {
        let n = spec_i32_at(b, pos + 20) as int;
        if n < 0 {
            None
        } else if pos + 24 + 68 * n > end {
            None
        } else {
            opt_prepend(
                seq![spec_weather_event_at(b, pos)],
                spec_weather_events_from(b, pos + 24 + 68 * n, end),
            )
        }
    }
}

/// Decoding of a weather-event body of declared length `end`.
pub open spec fn spec_weather_events(b: Seq<u8>, end: int) -> Option<Seq<WeatherEventV>> {
    if 0 <= end <= b.len() {
        spec_weather_events_from(b, 0, end)
    } else {
        None
    }
}

/// The bytes a weather record occupies on the wire.
pub open spec fn weather_event_wire_size(e: WeatherEventV) -> int {
    24 + 68 * (e.entries.len() as int)
}

pub open spec fn weather_events_wire_size(s: Seq<WeatherEventV>) -> int
    decreases s.len(),
{
    if s.len() == 0 {
        0
    } else {
        weather_event_wire_size(s[0]) + weather_events_wire_size(s.drop_first())
    }
}

/// A decoded weather-event body consumes exactly the bytes between `pos`
/// and `end`.
pub proof fn lemma_weather_events_consume(b: Seq<u8>, pos: int, end: int)
    requires
        spec_weather_events_from(b, pos, end) is Some,
    ensures
        weather_events_wire_size(spec_weather_events_from(b, pos, end)->Some_0) == end - pos,
    decreases end - pos,
{
    if pos == end {
    } else {
        let n = spec_i32_at(b, pos + 20) as int;
        lemma_weather_events_consume(b, pos + 24 + 68 * n, end);
        let s = spec_weather_events_from(b, pos, end)->Some_0;
        let rest = spec_weather_events_from(b, pos + 24 + 68 * n, end)->Some_0;
        assert(s.drop_first() =~= rest);
        assert(s[0] == spec_weather_event_at(b, pos));
    }
}

/// Reads the signed little-endian 32-bit integer at `pos`.
fn read_i32(body: &[u8], pos: usize) -> (v: i32)
    requires
        pos + 4 <= body@.len(),
    ensures
        v == spec_i32_at(body@, pos as int),
{
    let total = body.len();
    proof {
        assert(pos + 4 <= total);
    }
    let raw = u32_from_le_bytes(slice_subrange(body, pos, pos + 4));
    #[verifier::truncate] (raw as i32)
}

/// Decodes one weather record at `pos`, returning the record and the cursor
/// position after its last entry.
pub fn decode_weather_event_at(body: &[u8], pos: usize, end: usize) -> (r: Result<(WeatherEvent, usize), DecodeError>)
    requires
        pos < end <= body@.len(),
    ensures
        r matches Ok((ev, next)) ==> {
            &&& pos + 24 <= end
            &&& spec_i32_at(body@, pos as int + 20) >= 0
            &&& next == pos + 24 + 68 * (spec_i32_at(body@, pos as int + 20) as int)
            &&& next <= end
            &&& ev@ == spec_weather_event_at(body@, pos as int)
        },
        r is Err <==> {
            ||| pos + 24 > end
            ||| spec_i32_at(body@, pos as int + 20) < 0
            ||| pos + 24 + 68 * (spec_i32_at(body@, pos as int + 20) as int) > end
        },
        r == Err::<(WeatherEvent, usize), DecodeError>(DecodeError::NegativeCount)
            <==> pos + 24 <= end && spec_i32_at(body@, pos as int + 20) < 0,
{
    if end - pos < 24 {
        return Err(DecodeError::TruncatedRecord);
    }
    let uuid = uuid_render(slice_subrange(body, pos, pos + 16));
    let last_update = u32_from_le_bytes(slice_subrange(body, pos + 16, pos + 20));
    let raw = u32_from_le_bytes(slice_subrange(body, pos + 20, pos + 24));
    let n = #[verifier::truncate] (raw as i32);
    if n < 0 {
        return Err(DecodeError::NegativeCount);
    }
    let n64 = n as u64;
    if ((end - pos) as u64) < 24 + 68 * n64 {
        return Err(DecodeError::TruncatedRecord);
    }
    let n_us = n as usize;
    let mut entries: Vec<WeatherEntry> = Vec::new();
    let mut k: usize = 0;
    while k < n_us
        invariant
            pos + 24 + 68 * n_us <= end <= body@.len(),
            k <= n_us,
            entries@.len() == k,
            forall|j: int| 0 <= j < k ==> #[trigger] entries@[j] == spec_weather_entry_at(body@, pos + 24 + 68 * j),
        decreases n_us - k,
    {
        let ep = pos + 24 + 68 * k;
        let timestamp = read_i32(body, ep);
        let weather_type = read_i32(body, ep + 4);
        let wind_direction = read_i32(body, ep + 8);
        let solar_radiation = read_i32(body, ep + 12);
        let relative_humidity = read_i32(body, ep + 16);
        let temperature = u64_from_le_bytes(slice_subrange(body, ep + 20, ep + 28));
        let perceived_temperature = u64_from_le_bytes(slice_subrange(body, ep + 28, ep + 36));
        let dew_point = u64_from_le_bytes(slice_subrange(body, ep + 36, ep + 44));
        let precipitation = u64_from_le_bytes(slice_subrange(body, ep + 44, ep + 52));
        let wind_speed = u64_from_le_bytes(slice_subrange(body, ep + 52, ep + 60));
        let barometric_pressure = u64_from_le_bytes(slice_subrange(body, ep + 60, ep + 68));
        entries.push(WeatherEntry {
            timestamp, weather_type, wind_direction, solar_radiation, relative_humidity,
            temperature, perceived_temperature, dew_point, precipitation, wind_speed,
            barometric_pressure,
        });
        k = k + 1;
    }
    proof {
        assert(entries@ =~= spec_weather_event_at(body@, pos as int).entries);
    }
    Ok((WeatherEvent { uuid, last_update, entries }, pos + 24 + 68 * n_us))
}

/// Decodes a weather-event body. Succeeds exactly when the records tile the
/// first `msg_len` bytes and no entries count is negative.
pub fn decode_weather_events(body: &[u8], msg_len: usize) -> (r: Result<Vec<WeatherEvent>, DecodeError>)
    ensures
        r is Ok <==> spec_weather_events(body@, msg_len as int) is Some,
        r matches Ok(evs) ==> Some(weather_events_view(evs@)) == spec_weather_events(body@, msg_len as int),
{
    if msg_len > body.len() {
        return Err(DecodeError::TruncatedRecord);
    }
    let end = msg_len;
    let mut evs: Vec<WeatherEvent> = Vec::new();
    let mut pos: usize = 0;
    while pos < end
        invariant
            end == msg_len <= body@.len(),
            pos <= end,
            opt_prepend(weather_events_view(evs@), spec_weather_events_from(body@, pos as int, end as int))
                == spec_weather_events_from(body@, 0, end as int),
        decreases end - pos,
    {
        let ghost old_evs = evs@;
        let (ev, next) = match decode_weather_event_at(body, pos, end) {
            Ok(x) => x,
            Err(e) => {
                return Err(e);
            },
        };
        evs.push(ev);
        pos = next;
        proof {
            assert(weather_events_view(evs@) =~= weather_events_view(old_evs).push(ev@));
            let rest_o = spec_weather_events_from(body@, pos as int, end as int);
            if rest_o is Some {
                assert(weather_events_view(old_evs) + (seq![ev@] + rest_o->Some_0)
                    =~= weather_events_view(evs@) + rest_o->Some_0);
            }
        }
    }
    proof {
        assert(weather_events_view(evs@) + Seq::<WeatherEventV>::empty() =~= weather_events_view(evs@));
    }
    Ok(evs)
}

} // verus!
