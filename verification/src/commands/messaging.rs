//! Commands that send messages over the mesh.

use bytes::Bytes;
use vstd::prelude::*;

use super::{Command, CMD_SEND_TXT_MSG};
use crate::buffer::{
    bytes_contents, bytes_mut_contents, bytes_mut_with_capacity, extend_from_slice, freeze,
    le_bytes_u32, le_u32, lemma_le_u32_of_le_bytes, put_u32_le, put_u8,
};
use crate::event::{Event, MsgSentPayload};

verus! {

/// The kind of a text message.
enum MessageType {
    Text,
    #[allow(dead_code)]
    Command,
}

impl MessageType {
    fn as_u8(self) -> (b: u8)
        ensures
            b == message_type_code(self),
    {
        match self {
            MessageType::Text => 0,
            MessageType::Command => 1,
        }
    }
}

/// The wire byte of a message kind.
spec fn message_type_code(t: MessageType) -> u8 {
    match t {
        MessageType::Text => 0,
        MessageType::Command => 1,
    }
}

/// The code of a plain text message.
pub open spec fn text_message_code() -> u8 {
    0
}

/// Why a hex string could not be decoded.
#[derive(Debug, Clone, Copy, PartialEq, Eq, Structural)]
pub enum HexError {
    /// The byte at `index` is not a hex digit; `c` is that byte as a char.
    InvalidHexCharacter { c: char, index: usize },
    /// The string has an odd number of bytes.
    OddLength,
    /// The string does not fit the fixed length it was decoded into.
    InvalidStringLength,
}

/// The value of a hex digit (either case), if `c` is one.
pub open spec fn hex_digit_value(c: u8) -> Option<u8> {
    if 0x30 <= c <= 0x39 {
        Some((c - 0x30) as u8)
    } else if 0x61 <= c <= 0x66 {
        Some((c - 0x61 + 10) as u8)
    } else if 0x41 <= c <= 0x46 {
        Some((c - 0x41 + 10) as u8)
    } else {
        None
    }
}

/// Whether every byte of `s` is a hex digit.
pub open spec fn all_hex_digits(s: Seq<u8>) -> bool {
    forall|i: int| 0 <= i < s.len() ==> (#[trigger] hex_digit_value(s[i])) is Some
}

/// The bytes that the pairs of hex digits of `s` stand for, high digit first.
pub open spec fn hex_bytes(s: Seq<u8>) -> Seq<u8> {
    Seq::new(
        s.len() / 2,
        |i: int|
            (hex_digit_value(s[2 * i]).unwrap() * 16 + hex_digit_value(s[2 * i + 1]).unwrap()) as u8,
    )
}

/// What `hex::decode` returns for the bytes `s`: an odd length is refused
/// first; then the first byte that is not a hex digit is reported; otherwise
/// the decoded bytes.
pub open spec fn hex_decode_ok(s: Seq<u8>, r: Result<Seq<u8>, HexError>) -> bool {
    match r {
        Ok(v) => s.len() % 2 == 0 && all_hex_digits(s) && v == hex_bytes(s),
        Err(HexError::OddLength) => s.len() % 2 == 1,
        Err(HexError::InvalidHexCharacter { c, index }) => {
            &&& s.len() % 2 == 0
            &&& index < s.len()
            &&& hex_digit_value(s[index as int]) is None
            &&& c == s[index as int] as char
            &&& forall|j: int| 0 <= j < index ==> (#[trigger] hex_digit_value(s[j])) is Some
        },
        Err(HexError::InvalidStringLength) => false,
    }
}

/// The lower-case hex digit (as a UTF-8 byte) of a value below 16.
pub open spec fn hex_digit_char(v: u8) -> u8 {
    if v < 10 {
        (0x30 + v) as u8
    } else {
        (0x61 + v - 10) as u8
    }
}

/// The lower-case hex text of `b` as UTF-8 bytes: two digits per byte, high
/// digit first.
pub open spec fn hex_text(b: Seq<u8>) -> Seq<u8> {
    Seq::new(
        b.len() * 2,
        |i: int|
            if i % 2 == 0 {
                hex_digit_char(b[i / 2] / 16)
            } else {
                hex_digit_char(b[i / 2] % 16)
            },
    )
}

/// Decoding the hex text of any bytes gives the bytes back, and nothing else:
/// a destination written as the hex text of a key is that key.
pub proof fn lemma_hex_text_decodes(b: Seq<u8>)
    ensures
        hex_decode_ok(hex_text(b), Ok(b)),
        forall|r: Result<Seq<u8>, HexError>| #[trigger] hex_decode_ok(hex_text(b), r) ==> r == Ok::<Seq<u8>, HexError>(b),
{
    let t = hex_text(b);
    assert(t.len() == b.len() * 2);
    assert forall|i: int| 0 <= i < t.len() implies (#[trigger] hex_digit_value(t[i])) is Some by {
        let x = b[i / 2];
        assert(x / 16 < 16 && x % 16 < 16);
    }
    assert forall|k: int| 0 <= k < b.len() implies #[trigger] hex_bytes(t)[k] == b[k] by {
        let x = b[k];
        assert(t[2 * k] == hex_digit_char(x / 16));
        assert(t[2 * k + 1] == hex_digit_char(x % 16));
        assert(hex_digit_value(hex_digit_char(x / 16)) == Some((x / 16) as u8));
        assert(hex_digit_value(hex_digit_char(x % 16)) == Some((x % 16) as u8));
        assert((x / 16) * 16 + x % 16 == x);
    }
    assert(hex_bytes(t) =~= b);
    assert forall|r: Result<Seq<u8>, HexError>| #[trigger] hex_decode_ok(t, r) implies r == Ok::<
        Seq<u8>,
        HexError,
    >(b) by {
        match r {
            Ok(v) => {},
            Err(HexError::InvalidHexCharacter { c, index }) => {
                assert(hex_digit_value(t[index as int]) is Some);
            },
            Err(_) => {},
        }
    }
}

/// The view of a decoding result.
pub open spec fn hex_result_view(r: Result<Vec<u8>, HexError>) -> Result<Seq<u8>, HexError> {
    match r {
        Ok(v) => Ok(v@),
        Err(e) => Err(e),
    }
}

/// `hex::decode` on the UTF-8 bytes of `s`, with its error mapped one for one
/// to [`HexError`]. The contract restates the crate's `val` and `from_hex`:
/// odd length first, then the first invalid byte, else the decoded pairs.
#[verifier::external_body]
fn hex_decode(s: &str) -> (r: Result<Vec<u8>, HexError>)
    ensures
        hex_decode_ok(vstd::utf8::encode_utf8(s@), hex_result_view(r)),
{
    match hex::decode(s) {
        Ok(v) => Ok(v),
        Err(hex::FromHexError::InvalidHexCharacter { c, index }) => Err(
            HexError::InvalidHexCharacter { c, index },
        ),
        Err(hex::FromHexError::OddLength) => Err(HexError::OddLength),
        Err(hex::FromHexError::InvalidStringLength) => Err(HexError::InvalidStringLength),
    }
}

/// The node a message is addressed to: the bytes of its public key, or of a
/// prefix of it.
pub struct Destination(Vec<u8>);

impl View for Destination {
    type V = Seq<u8>;

    closed spec fn view(&self) -> Seq<u8> {
        self.0@
    }
}

impl Destination {
    /// The destination written as a hex string, such as `"deafbeef1234"`.
    pub fn try_from(s: &str) -> (r: Result<Destination, HexError>)
        ensures
            match r {
                Ok(d) => hex_decode_ok(vstd::utf8::encode_utf8(s@), Ok(d@)),
                Err(e) => hex_decode_ok(vstd::utf8::encode_utf8(s@), Err(e)),
            },
    {
        match hex_decode(s) {
            Ok(v) => Ok(Destination(v)),
            Err(e) => Err(e),
        }
    }

    /// The destination's bytes.
    pub fn as_ref(&self) -> (b: &[u8])
        ensures
            b@ == self@,
    {
        self.0.as_slice()
    }
}

/// SEND_TXT_MSG: sends a text message to a node.
pub struct SendTextMessage {
    dst: Destination,
    msg: String,
    timestamp: Option<u32>,
    attempt: u8,
}

/// The mathematical content of a [`SendTextMessage`].
pub struct SendTextMessageView {
    pub dst: Seq<u8>,
    pub msg: Seq<char>,
    pub timestamp: Option<u32>,
    pub attempt: u8,
}

impl View for SendTextMessage {
    type V = SendTextMessageView;

    closed spec fn view(&self) -> SendTextMessageView {
        SendTextMessageView {
            dst: self.dst@,
            msg: self.msg@,
            timestamp: self.timestamp,
            attempt: self.attempt,
        }
    }
}

/// The frame of SEND_TXT_MSG sent at time `timestamp`: the command code, the
/// text kind, the attempt number, the time (seconds since the Unix epoch,
/// little-endian), the destination, then the message in UTF-8.
pub open spec fn text_message_frame(m: SendTextMessageView, timestamp: u32) -> Seq<u8> {
    seq![CMD_SEND_TXT_MSG, text_message_code(), m.attempt] + le_bytes_u32(timestamp) + m.dst
        + vstd::utf8::encode_utf8(m.msg)
}

#[verifier::external_type_specification]
#[verifier::external_body]
pub struct ExSystemTime(std::time::SystemTime);

#[verifier::external_type_specification]
#[verifier::external_body]
pub struct ExSystemTimeError(std::time::SystemTimeError);

/// `SystemTime::now`: the system clock's reading. It depends on the clock, so
/// nothing is stated of it.
#[verifier::external_body]
fn system_time_now() -> std::time::SystemTime {
    std::time::SystemTime::now()
}

/// `SystemTime::duration_since` the Unix epoch: the time since the epoch, or
/// an error when `t` is earlier than the epoch. `SystemTime` is opaque here,
/// so nothing is stated of which it is.
#[verifier::external_body]
fn duration_since_unix_epoch(t: &std::time::SystemTime) -> Result<
    std::time::Duration,
    std::time::SystemTimeError,
> {
    t.duration_since(std::time::UNIX_EPOCH)
}

/// `Duration::as_secs`: the whole seconds of a duration. `Duration` is
/// opaque here, so nothing is stated of the number.
#[verifier::external_body]
fn duration_as_secs(d: &std::time::Duration) -> u64 {
    d.as_secs()
}

/// The time a message is stamped with, given the clock's reading in whole
/// seconds since the Unix epoch (`None` for a clock that reads earlier than
/// the epoch): the message's own time if it has one; else the clock's reading
/// cut to its low 32 bits; else 0.
pub open spec fn message_stamp(m: SendTextMessageView, clock_secs: Option<u64>) -> u32 {
    match m.timestamp {
        Some(t) => t,
        None => match clock_secs {
            Some(s) => s as u32,
            None => 0,
        },
    }
}

impl SendTextMessage {
    /// A text message for `dst`. Without a `timestamp`, the message is stamped
    /// with the time at which it is encoded.
    pub fn new(dst: Destination, msg: String, timestamp: Option<u32>, attempt: u8) -> (m:
        SendTextMessage)
        ensures
            m@ == (SendTextMessageView { dst: dst@, msg: msg@, timestamp, attempt }),
    {
        SendTextMessage { dst, msg, timestamp, attempt }
    }

    /// The frame of this message when the clock reads `clock_secs` whole
    /// seconds since the Unix epoch (`None` when it reads earlier than the
    /// epoch), stamped as [`message_stamp`] says.
    pub fn encode_at(&self, clock_secs: Option<u64>) -> (b: Bytes)
        ensures
            bytes_contents(b) == text_message_frame(self@, message_stamp(self@, clock_secs)),
    {
        let timestamp: u32 = match self.timestamp {
            Some(t) => t,
            None => match clock_secs {
                Some(s) => s as u32,
                None => 0,
            },
        };
        let dst: &[u8] = self.dst.as_ref();
        let msg: &[u8] = self.msg.as_str().as_bytes();
        let cap = msg.len().saturating_add(3 + 4 + 32);
        let mut buf = bytes_mut_with_capacity(cap);
        put_u8(&mut buf, CMD_SEND_TXT_MSG);
        put_u8(&mut buf, MessageType::Text.as_u8());
        put_u8(&mut buf, self.attempt);
        put_u32_le(&mut buf, timestamp);
        extend_from_slice(&mut buf, dst);
        extend_from_slice(&mut buf, msg);
        assert(bytes_mut_contents(buf) =~= text_message_frame(self@, timestamp));
        freeze(buf)
    }
}

impl Command for SendTextMessage {
    type Response = MsgSentPayload;

    open spec fn response_to(&self, event: Event) -> Option<MsgSentPayload> {
        match event {
            Event::MsgSent(p) => Some(p),
            _ => None,
        }
    }

    /// The frame of this message, stamped as [`message_stamp`] says with the
    /// system clock's reading at the time of the call.
    fn encode(&self) -> (b: Bytes)
        ensures
            exists|clock_secs: Option<u64>|
                bytes_contents(b) == text_message_frame(self@, message_stamp(self@, clock_secs)),
    {
        let now = system_time_now();
        let clock_secs = match duration_since_unix_epoch(&now) {
            Ok(d) => Some(duration_as_secs(&d)),
            Err(_) => None,
        };
        self.encode_at(clock_secs)
    }

    fn is_response(&self, event: &Event) -> (b: bool) {
        match event {
            Event::MsgSent(_) => true,
            _ => false,
        }
    }

    fn extract_response(&self, event: Event) -> (r: Option<MsgSentPayload>) {
        match event {
            Event::MsgSent(p) => Some(p),
            _ => None,
        }
    }
}

/// The layout of a text-message frame: the send code 0x02, the text kind 0,
/// the attempt number as it is, the stamp as a little-endian word read back
/// at 3, then the destination's bytes, then the message's UTF-8 bytes.
pub proof fn lemma_text_message_frame_layout(m: SendTextMessageView, t: u32)
    ensures
        text_message_frame(m, t).len() == 7 + m.dst.len() + vstd::utf8::encode_utf8(m.msg).len(),
        text_message_frame(m, t)[0] == 0x02,
        text_message_frame(m, t)[1] == 0,
        text_message_frame(m, t)[2] == m.attempt,
        le_u32(text_message_frame(m, t), 3) == t,
        text_message_frame(m, t).subrange(7, 7 + m.dst.len() as int) == m.dst,
        text_message_frame(m, t).subrange(
            7 + m.dst.len() as int,
            text_message_frame(m, t).len() as int,
        ) == vstd::utf8::encode_utf8(m.msg),
{
    let f = text_message_frame(m, t);
    lemma_le_u32_of_le_bytes(t);
    let lb = le_bytes_u32(t);
    assert(f[3] == lb[0] && f[4] == lb[1] && f[5] == lb[2] && f[6] == lb[3]);
    assert(f.subrange(7, 7 + m.dst.len() as int) =~= m.dst);
    assert(f.subrange(7 + m.dst.len() as int, f.len() as int) =~= vstd::utf8::encode_utf8(m.msg));
}

/// The stamp of a message: its own time whenever it has one; otherwise the
/// clock's reading modulo 2^32; otherwise (a clock before the epoch) 0.
pub proof fn lemma_message_stamp(m: SendTextMessageView, clock_secs: Option<u64>)
    ensures
        m.timestamp matches Some(t) ==> message_stamp(m, clock_secs) == t,
        m.timestamp is None ==> (clock_secs matches Some(s) ==> message_stamp(m, clock_secs)
            == s % 0x1_0000_0000),
        m.timestamp is None && clock_secs is None ==> message_stamp(m, clock_secs) == 0,
{
    if m.timestamp is None {
        if let Some(s) = clock_secs {
            assert(s as u32 == s % 0x1_0000_0000) by (bit_vector);
        }
    }
}

/// A text message is answered by the device's message-sent event, whose
/// acknowledgement is the answer; no other event answers it.
pub proof fn lemma_text_message_answered_by_msg_sent(c: SendTextMessage, e: Event)
    ensures
        (c.response_to(e) is Some) == (e is MsgSent),
        e matches Event::MsgSent(p) ==> c.response_to(e) == Some(p),
{
}

} // verus!
