//! Decoding of the samples delivered by the tracing backend.

use crate::text::{lossy_text, utf8_lossy};
use vstd::prelude::*;

verus! {

/// Number of payload bytes that a queue sample occupies.
pub const EVENT_SIZE: usize = 16;

/// The channel that carries text.
pub const TEXT_CHANNEL: i32 = 0;

/// The channel that carries queue records.
pub const QUEUE_CHANNEL: i32 = 1;

/// Byte order in which the producer of a sample wrote its integers.
#[derive(Clone, Copy, Debug, PartialEq, Eq, Structural)]
pub enum Endian {
    Little,
    Big,
}

/// The fixed-layout record carried on the queue channel.
#[derive(Clone, Copy, Debug, PartialEq, Eq, Structural)]
pub struct Event {
    pub event_head: u64,
    pub queue_len: u64,
}

/// A payload that is too short for the layout of its channel.
#[derive(Clone, Copy, Debug, PartialEq, Eq, Structural)]
pub struct DecodeFault {
    pub channel: i32,
    pub expected: usize,
    pub actual: usize,
}

/// Value of the first eight bytes of `b`, least significant byte first.
pub open spec fn le_u64(b: Seq<u8>) -> int
    recommends
        b.len() >= 8,
{
    b[0] as int + b[1] as int * 0x100 + b[2] as int * 0x1_0000 + b[3] as int * 0x100_0000
        + b[4] as int * 0x1_0000_0000 + b[5] as int * 0x100_0000_0000 + b[6] as int
        * 0x1_0000_0000_0000 + b[7] as int * 0x100_0000_0000_0000
}

/// Value of the first eight bytes of `b`, most significant byte first.
pub open spec fn be_u64(b: Seq<u8>) -> int
    recommends
        b.len() >= 8,
{
    b[7] as int + b[6] as int * 0x100 + b[5] as int * 0x1_0000 + b[4] as int * 0x100_0000
        + b[3] as int * 0x1_0000_0000 + b[2] as int * 0x100_0000_0000 + b[1] as int
        * 0x1_0000_0000_0000 + b[0] as int * 0x100_0000_0000_0000
}

/// Value of the first eight bytes of `b` in the given byte order.
pub open spec fn word_of(b: Seq<u8>, endian: Endian) -> int {
    match endian {
        Endian::Little => le_u64(b),
        Endian::Big => be_u64(b),
    }
}

/// `byteorder::LittleEndian::read_u64`: the unsigned integer held in the first
/// eight bytes of `buf`, least significant byte first. The call panics on a
/// shorter buffer, which the precondition excludes.
#[verifier::external_body]
fn read_u64_le(buf: &[u8]) -> (word: u64)
    requires
        buf@.len() >= 8,
    ensures
        word as int == le_u64(buf@),
{
    <byteorder::LittleEndian as byteorder::ByteOrder>::read_u64(buf)
}

/// `byteorder::BigEndian::read_u64`: the unsigned integer held in the first
/// eight bytes of `buf`, most significant byte first. The call panics on a
/// shorter buffer, which the precondition excludes.
#[verifier::external_body]
fn read_u64_be(buf: &[u8]) -> (word: u64)
    requires
        buf@.len() >= 8,
    ensures
        word as int == be_u64(buf@),
{
    <byteorder::BigEndian as byteorder::ByteOrder>::read_u64(buf)
}

/// Reads one 64-bit word from the front of `buf` in the given byte order.
pub fn read_word(buf: &[u8], endian: Endian) -> (word: u64)
    requires
        buf@.len() >= 8,
    ensures
        word as int == word_of(buf@, endian),
{
    match endian {
        Endian::Little => read_u64_le(buf),
        Endian::Big => read_u64_be(buf),
    }
}

/// The record that a payload of at least sixteen bytes holds: `event_head` in
/// bytes 0 to 7 and `queue_len` in bytes 8 to 15. Later bytes do not count.
pub open spec fn event_of(data: Seq<u8>, endian: Endian) -> Event {
    Event {
        event_head: word_of(data.subrange(0, 8), endian) as u64,
        queue_len: word_of(data.subrange(8, 16), endian) as u64,
    }
}

/// Decodes the queue record at the front of `data`.
///
/// Succeeds exactly when `data` holds at least sixteen bytes.
pub fn decode_event(data: &[u8], endian: Endian) -> (res: Result<Event, DecodeFault>)
    ensures
        data@.len() >= 16 ==> res == Ok::<Event, DecodeFault>(event_of(data@, endian)),
        data@.len() < 16 ==> res == Err::<Event, DecodeFault>(
            (DecodeFault { channel: 1, expected: 16, actual: data@.len() as usize }),
        ),
{
    if data.len() < EVENT_SIZE {
        return Err(DecodeFault { channel: 1, expected: EVENT_SIZE, actual: data.len() });
    }
    let head = vstd::slice::slice_subrange(data, 0, 8);
    let tail = vstd::slice::slice_subrange(data, 8, 16);
    let event_head = read_word(head, endian);
    let queue_len = read_word(tail, endian);
    Ok(Event { event_head, queue_len })
}

/// `bytemuck::pod_read_unaligned` at `[u64; 2]`: the two words that sixteen
/// bytes hold in the byte order of the machine. Which order that is the
/// contract cannot say; it claims that both words are read in the same one,
/// the first from bytes 0 to 7 and the second from bytes 8 to 15. The call
/// panics on any other length, which the precondition excludes.
#[verifier::external_body]
fn native_words(bytes: &[u8]) -> (words: (u64, u64))
    requires
        bytes@.len() == 16,
    ensures
        (words.0 as int == le_u64(bytes@.subrange(0, 8)) && words.1 as int == le_u64(
            bytes@.subrange(8, 16),
        )) || (words.0 as int == be_u64(bytes@.subrange(0, 8)) && words.1 as int == be_u64(
            bytes@.subrange(8, 16),
        )),
{
    let words: [u64; 2] = bytemuck::pod_read_unaligned(bytes);
    (words[0], words[1])
}

/// The record that two words stand for.
pub fn event_from_words(words: (u64, u64)) -> (event: Event)
    ensures
        event == (Event { event_head: words.0, queue_len: words.1 }),
{
    Event { event_head: words.0, queue_len: words.1 }
}

/// Decodes the queue record at the front of `data` in the byte order of the
/// machine, which is that of the samples its kernel delivers.
///
/// Succeeds exactly when `data` holds at least sixteen bytes, and then with
/// the record of one of the two byte orders.
pub fn decode_native(data: &[u8]) -> (res: Result<Event, DecodeFault>)
    ensures
        data@.len() >= 16 ==> res == Ok::<Event, DecodeFault>(event_of(data@, Endian::Little))
            || res == Ok::<Event, DecodeFault>(event_of(data@, Endian::Big)),
        data@.len() < 16 ==> res == Err::<Event, DecodeFault>(
            (DecodeFault { channel: 1, expected: 16, actual: data@.len() as usize }),
        ),
{
    if data.len() < EVENT_SIZE {
        return Err(DecodeFault { channel: 1, expected: EVENT_SIZE, actual: data.len() });
    }
    let record = vstd::slice::slice_subrange(data, 0, 16);
    assert(record@.subrange(0, 8) =~= data@.subrange(0, 8));
    assert(record@.subrange(8, 16) =~= data@.subrange(8, 16));
    Ok(event_from_words(native_words(record)))
}

/// What the backend delivers to the consumer.
#[derive(Clone, Debug, PartialEq, Eq)]
pub enum Delivery {
    /// A sample that arrived on a channel.
    Sample { channel: i32, data: Vec<u8> },
    /// Notice that a channel dropped samples before they were consumed.
    Lost { channel: i32, count: u64 },
}

/// What the consumer makes of one delivery.
#[derive(Clone, Debug, PartialEq, Eq)]
pub enum Notice {
    /// Text from the text channel, with invalid sequences replaced.
    Text(String),
    /// A record from the queue channel.
    Queue(Event),
    /// A sample that does not have the layout of its channel.
    Malformed(DecodeFault),
    /// A sample on a channel that nothing is decoded from.
    Ignored { channel: i32 },
    /// A warning that samples were dropped.
    Lost { channel: i32, count: u64 },
}

/// A notice as mathematics.
pub enum NoticeModel {
    Text(Seq<char>),
    Queue(Event),
    Malformed(DecodeFault),
    Ignored { channel: i32 },
    Lost { channel: i32, count: u64 },
}

impl View for Notice {
    type V = NoticeModel;

    open spec fn view(&self) -> NoticeModel {
        match *self {
            Notice::Text(text) => NoticeModel::Text(text@),
            Notice::Queue(event) => NoticeModel::Queue(event),
            Notice::Malformed(fault) => NoticeModel::Malformed(fault),
            Notice::Ignored { channel } => NoticeModel::Ignored { channel },
            Notice::Lost { channel, count } => NoticeModel::Lost { channel, count },
        }
    }
}

/// What a sample on a channel means.
pub open spec fn sample_notice(channel: i32, data: Seq<u8>, endian: Endian) -> NoticeModel {
    if channel == TEXT_CHANNEL {
        NoticeModel::Text(utf8_lossy(data))
    } else if channel == QUEUE_CHANNEL {
        if data.len() >= 16 {
            NoticeModel::Queue(event_of(data, endian))
        } else {
            NoticeModel::Malformed(
                DecodeFault { channel: 1, expected: 16, actual: data.len() as usize },
            )
        }
    } else {
        NoticeModel::Ignored { channel }
    }
}

/// What a delivery means.
pub open spec fn delivery_notice(delivery: Delivery, endian: Endian) -> NoticeModel {
    match delivery {
        Delivery::Sample { channel, data } => sample_notice(channel, data@, endian),
        Delivery::Lost { channel, count } => NoticeModel::Lost { channel, count },
    }
}

/// The notice of a queue sample whose decoding gave `decoded`.
pub fn queue_notice(decoded: Result<Event, DecodeFault>) -> (notice: Notice)
    ensures
        notice@ == match decoded {
            Ok(event) => NoticeModel::Queue(event),
            Err(fault) => NoticeModel::Malformed(fault),
        },
{
    match decoded {
        Ok(event) => Notice::Queue(event),
        Err(fault) => Notice::Malformed(fault),
    }
}

/// Handles a sample that arrived on channel `cpu`, written in the given byte
/// order.
///
/// The text channel yields its payload as text, whatever the bytes. The queue
/// channel yields the record at the front of the payload, or a fault where
/// the payload is shorter than a record. Other channels are ignored.
pub fn handle_event_in(cpu: i32, data: &[u8], endian: Endian) -> (notice: Notice)
    ensures
        notice@ == sample_notice(cpu, data@, endian),
{
    if cpu == TEXT_CHANNEL {
        Notice::Text(lossy_text(data))
    } else if cpu == QUEUE_CHANNEL {
        queue_notice(decode_event(data, endian))
    } else {
        Notice::Ignored { channel: cpu }
    }
}

/// Handles a sample that arrived on channel `cpu` of this machine: as
/// `handle_event_in` does, in the byte order of the machine.
pub fn handle_event(cpu: i32, data: &[u8]) -> (notice: Notice)
    ensures
        notice@ == sample_notice(cpu, data@, Endian::Little) || notice@ == sample_notice(
            cpu,
            data@,
            Endian::Big,
        ),
{
    if cpu == TEXT_CHANNEL {
        Notice::Text(lossy_text(data))
    } else if cpu == QUEUE_CHANNEL {
        queue_notice(decode_native(data))
    } else {
        Notice::Ignored { channel: cpu }
    }
}

/// Handles the notice that channel `cpu` dropped `count` samples: one warning
/// that carries both.
pub fn handle_lost_events(cpu: i32, count: u64) -> (notice: Notice)
    ensures
        notice@ == (NoticeModel::Lost { channel: cpu, count }),
{
    Notice::Lost { channel: cpu, count }
}

/// Handles one delivery.
pub fn handle_delivery(delivery: &Delivery, endian: Endian) -> (notice: Notice)
    ensures
        notice@ == delivery_notice(*delivery, endian),
{
    match delivery {
        Delivery::Sample { channel, data } => handle_event_in(*channel, data.as_slice(), endian),
        Delivery::Lost { channel, count } => handle_lost_events(*channel, *count),
    }
}

/// Handles a run of deliveries in order. Each delivery yields one notice,
/// which depends on that delivery alone: a sample that cannot be decoded, or a
/// loss, changes nothing for the deliveries after it.
pub fn consume(deliveries: &[Delivery], endian: Endian) -> (notices: Vec<Notice>)
    ensures
        notices@.len() == deliveries@.len(),
        forall|i: int|
            0 <= i < deliveries@.len() ==> (#[trigger] notices@[i])@ == delivery_notice(
                deliveries@[i],
                endian,
            ),
{
    let mut notices: Vec<Notice> = Vec::new();
    let mut i: usize = 0;
    while i < deliveries.len()
        invariant
            i <= deliveries@.len(),
            notices@.len() == i,
            forall|j: int|
                0 <= j < i ==> (#[trigger] notices@[j])@ == delivery_notice(deliveries@[j], endian),
        decreases deliveries@.len() - i,
    {
        let notice = handle_delivery(&deliveries[i], endian);
        notices.push(notice);
        i += 1;
    }
    notices
}

} // verus!
