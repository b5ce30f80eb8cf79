//! Decoding the frames a companion device sends into [`Event`]s.

use vstd::prelude::*;

use super::{packet_type_of, PacketType};
use crate::buffer::{
    copy_array_at, get_i32_le_at, get_i8_at, get_u32_le_at, get_u8_at, le_u32, signed_32,
    signed_8,
};
use crate::event::{
    contact_type_code, contact_type_of, contact_views, ContactPayload, ContactType, ContactView, ContactsPayload,
    ContactsView, Event, EventView, MsgSentPayload, MsgSentView, RxLogDataPayload,
    RxLogDataView, SelfInfoPayload, SelfInfoView,
};
use crate::text::{string_from_utf8_lossy, take_until_nul, until_nul, utf8_lossy};

verus! {

/// Bytes in the payload of a contact frame.
pub const CONTACT_PAYLOAD_LEN: usize = 147;

/// Bytes in the payload of a self-info frame before the device's name.
pub const SELF_INFO_FIXED_LEN: usize = 57;

/// Bytes in the payload of a message-sent frame.
pub const MSG_SENT_PAYLOAD_LEN: usize = 9;

/// Bytes in the payload of a received-packet log frame before the packet.
pub const RX_LOG_FIXED_LEN: usize = 2;

/// Bytes in the payload of an end-of-contacts frame.
pub const CONTACT_END_PAYLOAD_LEN: usize = 4;

/// Why a frame could not be decoded.
#[derive(Debug, Clone, Copy, PartialEq, Eq, Structural)]
pub enum ParseError {
    /// The frame is shorter than `needed` bytes; it has `got`.
    TooShort { needed: usize, got: usize },
    /// The frame's first byte announces no known frame type.
    UnknownPacketType(u8),
}

/// The contact described by the payload `p` of a contact frame.
pub open spec fn contact_view_of(p: Seq<u8>) -> ContactView {
    let plen = p[34];
    ContactView {
        public_key: p.subrange(0, 32),
        contact_type: match contact_type_of(p[32]) {
            Some(t) => t,
            None => ContactType::Unspecified,
        },
        flags: p[33],
        out_path_len: if plen == 255 { -1i8 } else { (plen % 64) as i8 },
        out_path_hash_mode: if plen == 255 { -1i8 } else { (plen / 64) as i8 },
        out_path: until_nul(p.subrange(35, 99)),
        adv_name: utf8_lossy(until_nul(p.subrange(99, 131))),
        last_advert: le_u32(p, 131) as u32,
        adv_lat_e6: signed_32(le_u32(p, 135)) as i32,
        adv_lon_e6: signed_32(le_u32(p, 139)) as i32,
        lastmod: le_u32(p, 143) as u32,
    }
}

/// The device description in the payload `p` of a self-info frame.
pub open spec fn self_info_view_of(p: Seq<u8>) -> SelfInfoView {
    let telemetry = p[45];
    SelfInfoView {
        adv_type: p[0],
        tx_power: p[1],
        max_tx_power: p[2],
        public_key: p.subrange(3, 35),
        adv_lat_e6: signed_32(le_u32(p, 35)) as i32,
        adv_lon_e6: signed_32(le_u32(p, 39)) as i32,
        multi_acks: p[43],
        adv_loc_policy: p[44],
        telemetry_mode_env: (telemetry / 16) % 4,
        telemetry_mode_loc: (telemetry / 4) % 4,
        telemetry_mode_base: telemetry % 4,
        manual_add_contacts: p[46] != 0,
        radio_freq_khz: le_u32(p, 47) as u32,
        radio_bw_hz: le_u32(p, 51) as u32,
        radio_sf: p[55],
        radio_cr: p[56],
        name: utf8_lossy(p.subrange(57, p.len() as int)),
    }
}

/// The heard packet in the payload `p` of a received-packet log frame.
pub open spec fn rx_log_data_view_of(p: Seq<u8>) -> RxLogDataView {
    RxLogDataView {
        snr_quarter_db: signed_8(p[0] as int) as i8,
        rssi: signed_8(p[1] as int) as i8,
        payload: p.subrange(2, p.len() as int),
    }
}

/// The acknowledgement in the payload `p` of a message-sent frame.
pub open spec fn msg_sent_view_of(p: Seq<u8>) -> MsgSentView {
    MsgSentView {
        msg_type: p[0],
        expected_ack: p.subrange(1, 5),
        suggested_timeout: le_u32(p, 5) as u32,
    }
}

/// Whether the parser decodes `data` rather than failing on it: the frames it
/// fails on are those that announce a reply code, and those whose payload is
/// shorter than their type's fixed fields.
pub open spec fn decodable(data: Seq<u8>) -> bool {
    data.len() == 0 || {
        let n = data.len() - 1;
        match packet_type_of(data[0]) {
            None => true,
            Some(PacketType::Success) => false,
            Some(PacketType::Error) => false,
            Some(PacketType::ContactStart) => true,
            Some(PacketType::Contact) => n >= CONTACT_PAYLOAD_LEN,
            Some(PacketType::ContactEnd) => n >= CONTACT_END_PAYLOAD_LEN,
            Some(PacketType::SelfInfo) => n >= SELF_INFO_FIXED_LEN,
            Some(PacketType::Sent) => n >= MSG_SENT_PAYLOAD_LEN,
            Some(PacketType::RxLogData) => n >= RX_LOG_FIXED_LEN,
        }
    }
}

/// One step of the parser: from the contacts gathered so far and a frame, the
/// contacts gathered afterwards and what the frame yields.
pub open spec fn parse_step(pending: Seq<ContactView>, data: Seq<u8>) -> (
    Seq<ContactView>,
    Result<Option<EventView>, ParseError>,
) {
    if data.len() == 0 {
        (pending, Err(ParseError::TooShort { needed: 1, got: 0 }))
    } else {
        let p = data.subrange(1, data.len() as int);
        match packet_type_of(data[0]) {
            None => (pending, Err(ParseError::UnknownPacketType(data[0]))),
            Some(PacketType::SelfInfo) => (
                pending,
                Ok(Some(EventView::SelfInfo(self_info_view_of(p)))),
            ),
            Some(PacketType::RxLogData) => (
                pending,
                Ok(Some(EventView::RxLogData(rx_log_data_view_of(p)))),
            ),
            Some(PacketType::ContactStart) => (Seq::empty(), Ok(None)),
            Some(PacketType::Contact) => (pending.push(contact_view_of(p)), Ok(None)),
            Some(PacketType::ContactEnd) => (
                Seq::empty(),
                Ok(
                    Some(
                        EventView::Contacts(
                            ContactsView { contacts: pending, lastmod: le_u32(p, 0) as u32 },
                        ),
                    ),
                ),
            ),
            Some(PacketType::Sent) => (pending, Ok(Some(EventView::MsgSent(msg_sent_view_of(p))))),
            // Reply codes are not decoded (see `decodable`).
            Some(PacketType::Success) => (pending, Ok(None)),
            Some(PacketType::Error) => (pending, Ok(None)),
        }
    }
}

/// The view of what a call of the parser returns.
pub open spec fn parse_result_view(r: Result<Option<Event>, ParseError>) -> Result<
    Option<EventView>,
    ParseError,
> {
    match r {
        Ok(Some(e)) => Ok(Some(e@)),
        Ok(None) => Ok(None),
        Err(e) => Err(e),
    }
}

/// Decodes the frames of one device connection. Contact lists arrive as a
/// start frame, one frame per contact and an end frame; the parser gathers the
/// contacts until the end frame, which yields them all.
pub struct Parser {
    contact_buf: Vec<ContactPayload>,
}

impl View for Parser {
    type V = Seq<ContactView>;

    /// The contacts gathered since the last start or end of a contact list.
    closed spec fn view(&self) -> Seq<ContactView> {
        contact_views(self.contact_buf@)
    }
}

impl Default for Parser {
    fn default() -> (p: Parser)
        ensures
            p@ == Seq::<ContactView>::empty(),
    {
        Parser::new()
    }
}

impl Parser {
    /// A parser that has gathered no contacts.
    pub fn new() -> (p: Parser)
        ensures
            p@ == Seq::<ContactView>::empty(),
    {
        let p = Parser { contact_buf: Vec::new() };
        assert(p@ =~= Seq::<ContactView>::empty());
        p
    }

    /// Whether [`Parser::parse_packet`] decodes `data` rather than failing on
    /// it; ask this before handing the parser a frame from the device.
    pub fn is_decodable(data: &[u8]) -> (b: bool)
        ensures
            b == decodable(data@),
    {
        if data.len() == 0 {
            return true;
        }
        let n = data.len() - 1;
        match PacketType::from_u8(data[0]) {
            None => true,
            Some(PacketType::Success) => false,
            Some(PacketType::Error) => false,
            Some(PacketType::ContactStart) => true,
            Some(PacketType::Contact) => n >= CONTACT_PAYLOAD_LEN,
            Some(PacketType::ContactEnd) => n >= CONTACT_END_PAYLOAD_LEN,
            Some(PacketType::SelfInfo) => n >= SELF_INFO_FIXED_LEN,
            Some(PacketType::Sent) => n >= MSG_SENT_PAYLOAD_LEN,
            Some(PacketType::RxLogData) => n >= RX_LOG_FIXED_LEN,
        }
    }

    /// Decodes one frame. A frame that completes an event yields it; a frame
    /// that only starts or continues a contact list yields `None`.
    pub fn parse_packet(&mut self, data: &[u8]) -> (r: Result<Option<Event>, ParseError>)
        requires
            decodable(data@),
        ensures
            (final(self)@, parse_result_view(r)) == parse_step(old(self)@, data@),
    {
        if data.len() == 0 {
            return Err(ParseError::TooShort { needed: 1, got: 0 });
        }
        let packet_type = data[0];
        let payload = &data[1..data.len()];
        match PacketType::from_u8(packet_type) {
            Some(PacketType::SelfInfo) => {
                let r = parse_self_info(payload);
                match r {
                    Ok(p) => Ok(Some(Event::SelfInfo(p))),
                    Err(e) => Err(e),
                }
            },
            Some(PacketType::RxLogData) => Ok(Some(Event::RxLogData(parse_rx_log_data(payload)))),
            Some(PacketType::ContactStart) => {
                self.contact_buf.clear();
                assert(self@ =~= Seq::<ContactView>::empty());
                Ok(None)
            },
            Some(PacketType::Contact) => {
                let c = parse_contact(payload);
                self.contact_buf.push(c);
                assert(self@ =~= old(self)@.push(contact_view_of(payload@)));
                Ok(None)
            },
            Some(PacketType::ContactEnd) => {
                let lastmod = get_u32_le_at(payload, 0);
                let mut contacts: Vec<ContactPayload> = Vec::new();
                std::mem::swap(&mut contacts, &mut self.contact_buf);
                assert(self@ =~= Seq::<ContactView>::empty());
                Ok(Some(Event::Contacts(ContactsPayload { contacts, lastmod })))
            },
            Some(PacketType::Sent) => {
                let r = parse_msg_sent(payload);
                match r {
                    Ok(p) => Ok(Some(Event::MsgSent(p))),
                    Err(e) => Err(e),
                }
            },
            Some(PacketType::Success) => Ok(None),
            Some(PacketType::Error) => Ok(None),
            None => Err(ParseError::UnknownPacketType(packet_type)),
        }
    }
}

/// Decodes the payload of a contact frame (also the layout of a new-advert
/// push). Bytes past the fixed fields are ignored.
pub fn parse_contact(data: &[u8]) -> (c: ContactPayload)
    requires
        data@.len() >= CONTACT_PAYLOAD_LEN,
    ensures
        c@ == contact_view_of(data@),
        vstd::utf8::valid_utf8(until_nul(data@.subrange(99, 131))) ==> c.adv_name@
            == vstd::utf8::decode_utf8(until_nul(data@.subrange(99, 131))),
{
    let public_key: [u8; 32] = copy_array_at(data, 0);
    let contact_type = match ContactType::from_u8(get_u8_at(data, 32)) {
        Some(t) => t,
        None => ContactType::Unspecified,
    };
    let flags = get_u8_at(data, 33);
    let plen = get_u8_at(data, 34);
    let (out_path_len, out_path_hash_mode): (i8, i8) = if plen == 255 {
        (-1i8, -1i8)
    } else {
        assert(plen & 0x3f == plen % 64 && plen >> 6 == plen / 64 && plen / 64 < 4) by (bit_vector);
        ((plen & 0x3F) as i8, (plen >> 6) as i8)
    };
    let out_path_raw: [u8; 64] = copy_array_at(data, 35);
    let out_path = take_until_nul(&out_path_raw);
    let adv_name_raw: [u8; 32] = copy_array_at(data, 99);
    let adv_name_bytes = take_until_nul(&adv_name_raw);
    let adv_name = string_from_utf8_lossy(adv_name_bytes.as_slice());
    let last_advert = get_u32_le_at(data, 131);
    let adv_lat_e6 = get_i32_le_at(data, 135);
    let adv_lon_e6 = get_i32_le_at(data, 139);
    let lastmod = get_u32_le_at(data, 143);
    let c = ContactPayload {
        public_key,
        contact_type,
        flags,
        out_path_len,
        out_path_hash_mode,
        out_path,
        adv_name,
        last_advert,
        adv_lat_e6,
        adv_lon_e6,
        lastmod,
    };
    assert(c@ =~= contact_view_of(data@));
    c
}

/// Decodes the payload of a received-packet log frame.
pub fn parse_rx_log_data(data: &[u8]) -> (r: RxLogDataPayload)
    requires
        data@.len() >= RX_LOG_FIXED_LEN,
    ensures
        r@ == rx_log_data_view_of(data@),
{
    let snr_quarter_db = get_i8_at(data, 0);
    let rssi = get_i8_at(data, 1);
    let payload = vstd::slice::slice_to_vec(&data[2..data.len()]);
    let r = RxLogDataPayload { snr_quarter_db, rssi, payload };
    assert(r@ =~= rx_log_data_view_of(data@));
    r
}

/// Decodes the payload of a self-info frame; the bytes past the fixed fields
/// are the device's name.
pub fn parse_self_info(data: &[u8]) -> (r: Result<SelfInfoPayload, ParseError>)
    requires
        data@.len() >= SELF_INFO_FIXED_LEN,
    ensures
        r matches Ok(p) && p@ == self_info_view_of(data@),
        vstd::utf8::valid_utf8(data@.subrange(57, data@.len() as int)) ==> (r matches Ok(p)
            && p.name@ == vstd::utf8::decode_utf8(data@.subrange(57, data@.len() as int))),
{
    let adv_type = get_u8_at(data, 0);
    let tx_power = get_u8_at(data, 1);
    let max_tx_power = get_u8_at(data, 2);
    let public_key: [u8; 32] = copy_array_at(data, 3);
    let adv_lat_e6 = get_i32_le_at(data, 35);
    let adv_lon_e6 = get_i32_le_at(data, 39);
    let multi_acks = get_u8_at(data, 43);
    let adv_loc_policy = get_u8_at(data, 44);
    let telemetry_mode = get_u8_at(data, 45);
    assert((telemetry_mode >> 4) & 0b11 == (telemetry_mode / 16) % 4 && (telemetry_mode >> 2)
        & 0b11 == (telemetry_mode / 4) % 4 && telemetry_mode & 0b11 == telemetry_mode % 4)
        by (bit_vector);
    let telemetry_mode_env = (telemetry_mode >> 4) & 0b11;
    let telemetry_mode_loc = (telemetry_mode >> 2) & 0b11;
    let telemetry_mode_base = telemetry_mode & 0b11;
    let manual_add_contacts = get_u8_at(data, 46) != 0;
    let radio_freq_khz = get_u32_le_at(data, 47);
    let radio_bw_hz = get_u32_le_at(data, 51);
    let radio_sf = get_u8_at(data, 55);
    let radio_cr = get_u8_at(data, 56);
    let name = string_from_utf8_lossy(&data[57..data.len()]);
    let p = SelfInfoPayload {
        adv_type,
        tx_power,
        max_tx_power,
        public_key,
        adv_lat_e6,
        adv_lon_e6,
        multi_acks,
        adv_loc_policy,
        telemetry_mode_env,
        telemetry_mode_loc,
        telemetry_mode_base,
        manual_add_contacts,
        radio_freq_khz,
        radio_bw_hz,
        radio_sf,
        radio_cr,
        name,
    };
    assert(p@ =~= self_info_view_of(data@));
    Ok(p)
}

/// Decodes the payload of a message-sent frame. Bytes past the fixed fields
/// are ignored.
pub fn parse_msg_sent(data: &[u8]) -> (r: Result<MsgSentPayload, ParseError>)
    requires
        data@.len() >= MSG_SENT_PAYLOAD_LEN,
    ensures
        r matches Ok(p) && p@ == msg_sent_view_of(data@),
{
    let msg_type = get_u8_at(data, 0);
    let expected_ack: [u8; 4] = copy_array_at(data, 1);
    let suggested_timeout = get_u32_le_at(data, 5);
    let p = MsgSentPayload { msg_type, expected_ack, suggested_timeout };
    assert(p@ =~= msg_sent_view_of(data@));
    Ok(p)
}

/// Feeding `frames` to a parser that has gathered `pending`, one by one: the
/// contacts gathered at the end, and what each frame yielded.
pub open spec fn parse_run(pending: Seq<ContactView>, frames: Seq<Seq<u8>>) -> (
    Seq<ContactView>,
    Seq<Result<Option<EventView>, ParseError>>,
)
    decreases frames.len(),
{
    if frames.len() == 0 {
        (pending, Seq::empty())
    } else {
        let (next, r) = parse_step(pending, frames[0]);
        let (last, rs) = parse_run(next, frames.drop_first());
        (last, seq![r] + rs)
    }
}

/// Whether `f` is a contact frame with all of its fixed fields.
pub open spec fn is_contact_frame(f: Seq<u8>) -> bool {
    f.len() >= 1 + CONTACT_PAYLOAD_LEN && f[0] == 0x03
}

/// The contact that a contact frame describes.
pub open spec fn contact_of_frame(f: Seq<u8>) -> ContactView {
    contact_view_of(f.subrange(1, f.len() as int))
}

/// Whether `f` takes no part in a contact list: it is empty, or of a type
/// other than the start, the entries and the end of a contact list.
pub open spec fn is_other_frame(f: Seq<u8>) -> bool {
    f.len() == 0 || (f[0] != 0x02 && f[0] != 0x03 && f[0] != 0x04)
}

/// The contacts that the contact frames among `frames` describe, in order.
pub open spec fn contacts_in(frames: Seq<Seq<u8>>) -> Seq<ContactView>
    decreases frames.len(),
{
    if frames.len() == 0 {
        Seq::empty()
    } else if is_contact_frame(frames[0]) {
        seq![contact_of_frame(frames[0])] + contacts_in(frames.drop_first())
    } else {
        contacts_in(frames.drop_first())
    }
}

/// What a contact list whose body is `mid`, closed by the end frame `end`,
/// is reported as.
pub open spec fn listed_contacts(mid: Seq<Seq<u8>>, end: Seq<u8>) -> EventView {
    EventView::Contacts(ContactsView { contacts: contacts_in(mid), lastmod: le_u32(end, 1) as u32 })
}

/// Feeding the frames of `a` and then those of `b` is feeding `a`, then `b`
/// from where `a` left the parser.
proof fn lemma_run_append(pending: Seq<ContactView>, a: Seq<Seq<u8>>, b: Seq<Seq<u8>>)
    ensures
        parse_run(pending, a + b) == (
            parse_run(parse_run(pending, a).0, b).0,
            parse_run(pending, a).1 + parse_run(parse_run(pending, a).0, b).1,
        ),
    decreases a.len(),
{
    if a.len() == 0 {
        assert(a + b =~= b);
        assert(Seq::<Result<Option<EventView>, ParseError>>::empty() + parse_run(pending, b).1
            =~= parse_run(pending, b).1);
    } else {
        let next = parse_step(pending, a[0]).0;
        assert((a + b)[0] == a[0]);
        assert((a + b).drop_first() =~= a.drop_first() + b);
        lemma_run_append(next, a.drop_first(), b);
        let r = parse_step(pending, a[0]).1;
        let ra = parse_run(next, a.drop_first()).1;
        let rb = parse_run(parse_run(next, a.drop_first()).0, b).1;
        assert(seq![r] + (ra + rb) =~= (seq![r] + ra) + rb);
    }
}

/// Feeding the body of a contact list — contact frames and other frames in
/// any order — adds the listed contacts in order; each contact frame yields
/// nothing, and each other frame yields what it yields on its own.
proof fn lemma_run_list_body(pending: Seq<ContactView>, frames: Seq<Seq<u8>>)
    requires
        forall|i: int|
            0 <= i < frames.len() ==> is_contact_frame(#[trigger] frames[i]) || is_other_frame(
                frames[i],
            ),
    ensures
        parse_run(pending, frames).0 == pending + contacts_in(frames),
        parse_run(pending, frames).1.len() == frames.len(),
        forall|i: int|
            0 <= i < frames.len() && is_contact_frame(#[trigger] frames[i]) ==> parse_run(
                pending,
                frames,
            ).1[i] == Ok::<Option<EventView>, ParseError>(None),
        forall|i: int|
            0 <= i < frames.len() && is_other_frame(#[trigger] frames[i]) ==> parse_run(
                pending,
                frames,
            ).1[i] == parse_step(Seq::<ContactView>::empty(), frames[i]).1,
    decreases frames.len(),
{
    if frames.len() == 0 {
        assert(pending + contacts_in(frames) =~= pending);
    } else {
        let first = frames[0];
        let rest = frames.drop_first();
        assert(is_contact_frame(first) || is_other_frame(first));
        let next = parse_step(pending, first).0;
        assert forall|i: int| 0 <= i < rest.len() implies is_contact_frame(#[trigger] rest[i])
            || is_other_frame(rest[i]) by {
            assert(rest[i] == frames[i + 1]);
        }
        lemma_run_list_body(next, rest);
        if is_contact_frame(first) {
            assert(next == pending.push(contact_of_frame(first)));
            assert(next + contacts_in(rest) =~= pending + contacts_in(frames));
        } else {
            assert(next == pending);
        }
        let r = parse_step(pending, first).1;
        let rs = parse_run(next, rest).1;
        assert forall|i: int|
            0 <= i < frames.len() && is_contact_frame(#[trigger] frames[i]) implies (seq![r]
            + rs)[i] == Ok::<Option<EventView>, ParseError>(None) by {
            if i > 0 {
                assert(frames[i] == rest[i - 1]);
            }
        }
        assert forall|i: int|
            0 <= i < frames.len() && is_other_frame(#[trigger] frames[i]) implies (seq![r]
            + rs)[i] == parse_step(Seq::<ContactView>::empty(), frames[i]).1 by {
            if i > 0 {
                assert(frames[i] == rest[i - 1]);
            }
        }
    }
}

/// A contact list is reported whole: a start frame, then contact frames with
/// any other frames among them, then an end frame. Whatever the parser had
/// gathered before, the start and contact frames yield nothing, every other
/// frame yields what it yields on its own, the end frame yields exactly the
/// listed contacts in the order they arrived with the end frame's
/// modification time, and afterwards the parser holds no contacts.
pub proof fn lemma_contact_list_reported_whole(
    pending: Seq<ContactView>,
    start: Seq<u8>,
    mid: Seq<Seq<u8>>,
    end: Seq<u8>,
)
    requires
        start.len() >= 1,
        start[0] == 0x02,
        forall|i: int|
            0 <= i < mid.len() ==> is_contact_frame(#[trigger] mid[i]) || is_other_frame(mid[i]),
        end.len() >= 1 + CONTACT_END_PAYLOAD_LEN,
        end[0] == 0x04,
    ensures
        parse_run(pending, seq![start] + mid.push(end)).0 == Seq::<ContactView>::empty(),
        parse_run(pending, seq![start] + mid.push(end)).1.len() == mid.len() + 2,
        parse_run(pending, seq![start] + mid.push(end)).1[0] == Ok::<
            Option<EventView>,
            ParseError,
        >(None),
        forall|i: int|
            0 <= i < mid.len() && is_contact_frame(#[trigger] mid[i]) ==> parse_run(
                pending,
                seq![start] + mid.push(end),
            ).1[i + 1] == Ok::<Option<EventView>, ParseError>(None),
        forall|i: int|
            0 <= i < mid.len() && is_other_frame(#[trigger] mid[i]) ==> parse_run(
                pending,
                seq![start] + mid.push(end),
            ).1[i + 1] == parse_step(Seq::<ContactView>::empty(), mid[i]).1,
        parse_run(pending, seq![start] + mid.push(end)).1[mid.len() + 1int] == Ok::<
            Option<EventView>,
            ParseError,
        >(Some(listed_contacts(mid, end))),
{
    let frames = seq![start] + mid.push(end);
    assert(frames[0] == start);
    assert(frames.drop_first() =~= mid + seq![end]);
    let empty = Seq::<ContactView>::empty();
    assert(parse_step(pending, start) == (empty, Ok::<Option<EventView>, ParseError>(None)));
    assert(parse_run(pending, frames) == (
        parse_run(empty, frames.drop_first()).0,
        seq![Ok::<Option<EventView>, ParseError>(None)] + parse_run(empty, frames.drop_first()).1,
    ));
    lemma_run_append(empty, mid, seq![end]);
    lemma_run_list_body(empty, mid);
    let q = parse_run(empty, mid).0;
    assert(q =~= contacts_in(mid));
    let ends = seq![end];
    assert(ends[0] == end);
    assert(ends.drop_first() =~= Seq::<Seq<u8>>::empty());
    let p = end.subrange(1, end.len() as int);
    assert(le_u32(p, 0) == le_u32(end, 1));
    let report = Ok::<Option<EventView>, ParseError>(Some(listed_contacts(mid, end)));
    assert(parse_step(q, end) == (empty, report));
    let none_left = Seq::<Seq<u8>>::empty();
    assert(ends.drop_first() == none_left);
    assert(parse_run(empty, none_left) == (empty, Seq::<Result<Option<EventView>, ParseError>>::empty()));
    assert(parse_run(q, ends) == (empty, seq![report] + Seq::<Result<Option<EventView>, ParseError>>::empty()));
    assert(parse_run(q, ends).1 =~= seq![report]);
    let body = parse_run(empty, mid).1;
    let all = seq![Ok::<Option<EventView>, ParseError>(None)] + (body + seq![report]);
    assert(parse_run(pending, frames).1 == all);
    assert forall|i: int|
        0 <= i < mid.len() && is_contact_frame(#[trigger] mid[i]) implies all[i + 1] == Ok::<
        Option<EventView>,
        ParseError,
    >(None) by {
        assert(all[i + 1] == body[i]);
    }
    assert forall|i: int|
        0 <= i < mid.len() && is_other_frame(#[trigger] mid[i]) implies all[i + 1] == parse_step(
        Seq::<ContactView>::empty(),
        mid[i],
    ).1 by {
        assert(all[i + 1] == body[i]);
    }
}

/// Frames that are not part of a contact list leave the gathered contacts
/// alone, so other traffic may arrive in the middle of a contact list.
pub proof fn lemma_other_frames_keep_contacts(pending: Seq<ContactView>, data: Seq<u8>)
    requires
        data.len() == 0 || (data[0] != 0x02 && data[0] != 0x03 && data[0] != 0x04),
    ensures
        parse_step(pending, data).0 == pending,
{
}

/// The path-length byte of a contact: 255 marks a flood-routed contact,
/// whose path length and hash mode both read -1; every other byte packs the
/// hash mode into its top two bits and the length into its low six.
pub proof fn lemma_contact_path_byte(p: Seq<u8>)
    requires
        p.len() >= CONTACT_PAYLOAD_LEN,
    ensures
        p[34] == 255 ==> contact_view_of(p).out_path_len == -1 && contact_view_of(p).out_path_hash_mode
            == -1,
        p[34] != 255 ==> {
            &&& 0 <= contact_view_of(p).out_path_len < 64
            &&& 0 <= contact_view_of(p).out_path_hash_mode < 4
            &&& contact_view_of(p).out_path_hash_mode * 64 + contact_view_of(p).out_path_len == p[34]
        },
{
}

/// Where each field of a contact entry comes from in its payload: the key is
/// its first 32 bytes; a known kind byte gives that kind and an unknown one
/// gives `Unspecified`; the path is the bytes of its 64-byte field before the
/// first zero; the name is the text of its 32-byte field before the first
/// zero; the times and coordinates are the little-endian words that follow.
pub proof fn lemma_contact_fields(p: Seq<u8>)
    requires
        p.len() >= CONTACT_PAYLOAD_LEN,
    ensures
        contact_view_of(p).public_key == p.subrange(0, 32),
        contact_type_of(p[32]) is Some ==> contact_type_code(contact_view_of(p).contact_type)
            == p[32],
        contact_type_of(p[32]) is None ==> contact_view_of(p).contact_type
            == ContactType::Unspecified,
        contact_view_of(p).flags == p[33],
        contact_view_of(p).out_path.len() <= 64,
        contact_view_of(p).out_path == p.subrange(35, 35 + contact_view_of(p).out_path.len() as int),
        forall|i: int| 0 <= i < contact_view_of(p).out_path.len() ==> #[trigger] contact_view_of(
            p,
        ).out_path[i] != 0,
        contact_view_of(p).out_path.len() == 64 || p[35 + contact_view_of(p).out_path.len() as int] == 0,
        contact_view_of(p).adv_name == utf8_lossy(until_nul(p.subrange(99, 131))),
        contact_view_of(p).last_advert == le_u32(p, 131),
        contact_view_of(p).adv_lat_e6 == signed_32(le_u32(p, 135)),
        contact_view_of(p).adv_lon_e6 == signed_32(le_u32(p, 139)),
        contact_view_of(p).lastmod == le_u32(p, 143),
{
    let raw = p.subrange(35, 99);
    crate::text::lemma_until_nul_shape(raw);
    let n: int = until_nul(raw).len() as int;
    assert(until_nul(raw) =~= p.subrange(35, 35 + n));
    assert forall|i: int| 0 <= i < n implies #[trigger] until_nul(raw)[i] != 0 by {}
    if n < 64 {
        assert(raw[n] == p[35 + n]);
    }
    lemma_le_u32_range(p, 131);
    lemma_le_u32_range(p, 135);
    lemma_le_u32_range(p, 139);
    lemma_le_u32_range(p, 143);
}

/// A little-endian word read from bytes fits in 32 bits.
pub proof fn lemma_le_u32_range(s: Seq<u8>, at: int)
    requires
        0 <= at,
        at + 4 <= s.len(),
    ensures
        0 <= le_u32(s, at) < 0x1_0000_0000,
        -0x8000_0000 <= signed_32(le_u32(s, at)) < 0x8000_0000,
{
}

/// What a self-info frame yields, field by field from the bytes of the frame
/// (its type byte at 0): each of the three telemetry modes is a two-bit field
/// of the telemetry byte, from the top down; the latitude is the signed
/// little-endian word at 36 and the longitude the one at 40; the name is the
/// text of all bytes past the fixed fields. The gathered contacts are kept.
pub proof fn lemma_self_info_frame(pending: Seq<ContactView>, data: Seq<u8>)
    requires
        decodable(data),
        data.len() >= 1,
        data[0] == 0x05,
    ensures
        parse_step(pending, data).0 == pending,
        parse_step(pending, data).1 matches Ok(Some(EventView::SelfInfo(v))) && {
            &&& v.adv_type == data[1]
            &&& v.tx_power == data[2]
            &&& v.max_tx_power == data[3]
            &&& v.public_key == data.subrange(4, 36)
            &&& v.adv_lat_e6 == signed_32(le_u32(data, 36))
            &&& v.adv_lon_e6 == signed_32(le_u32(data, 40))
            &&& v.multi_acks == data[44]
            &&& v.adv_loc_policy == data[45]
            &&& v.telemetry_mode_env < 4 && v.telemetry_mode_loc < 4 && v.telemetry_mode_base < 4
            &&& v.telemetry_mode_env * 16 + v.telemetry_mode_loc * 4 + v.telemetry_mode_base
                == data[46] % 64
            &&& v.manual_add_contacts == (data[47] != 0)
            &&& v.radio_freq_khz == le_u32(data, 48)
            &&& v.radio_bw_hz == le_u32(data, 52)
            &&& v.radio_sf == data[56]
            &&& v.radio_cr == data[57]
            &&& v.name == utf8_lossy(data.subrange(58, data.len() as int))
        },
{
    let p = data.subrange(1, data.len() as int);
    assert(p.subrange(3, 35) =~= data.subrange(4, 36));
    assert(p.subrange(57, p.len() as int) =~= data.subrange(58, data.len() as int));
    assert(le_u32(p, 35) == le_u32(data, 36));
    assert(le_u32(p, 39) == le_u32(data, 40));
    assert(le_u32(p, 47) == le_u32(data, 48));
    assert(le_u32(p, 51) == le_u32(data, 52));
    lemma_le_u32_range(data, 36);
    lemma_le_u32_range(data, 40);
    lemma_le_u32_range(data, 48);
    lemma_le_u32_range(data, 52);
    let t = p[45];
    assert(((t / 16) % 4) * 16 + ((t / 4) % 4) * 4 + t % 4 == t % 64) by (nonlinear_arith)
        requires
            0 <= t < 256,
    ;
}

/// What a message-sent frame yields, from the bytes of the frame (its type
/// byte at 0): the message kind at 1, the expected acknowledgement at 2..6 and
/// the suggested timeout as the little-endian word at 6. The gathered contacts
/// are kept.
pub proof fn lemma_msg_sent_frame(pending: Seq<ContactView>, data: Seq<u8>)
    requires
        decodable(data),
        data.len() >= 1,
        data[0] == 0x06,
    ensures
        parse_step(pending, data).0 == pending,
        parse_step(pending, data).1 matches Ok(Some(EventView::MsgSent(v))) && {
            &&& v.msg_type == data[1]
            &&& v.expected_ack == data.subrange(2, 6)
            &&& v.suggested_timeout == le_u32(data, 6)
        },
{
    let p = data.subrange(1, data.len() as int);
    assert(p.subrange(1, 5) =~= data.subrange(2, 6));
    assert(le_u32(p, 5) == le_u32(data, 6));
    lemma_le_u32_range(data, 6);
}

/// What a received-packet log frame yields, from the bytes of the frame (its
/// type byte at 0): the signed signal-to-noise ratio at 1, the signed signal
/// strength at 2, and every byte after them as the heard packet. The gathered
/// contacts are kept.
pub proof fn lemma_rx_log_data_frame(pending: Seq<ContactView>, data: Seq<u8>)
    requires
        decodable(data),
        data.len() >= 1,
        data[0] == 0x88,
    ensures
        parse_step(pending, data).0 == pending,
        parse_step(pending, data).1 matches Ok(Some(EventView::RxLogData(v))) && {
            &&& v.snr_quarter_db == signed_8(data[1] as int)
            &&& v.rssi == signed_8(data[2] as int)
            &&& v.payload == data.subrange(3, data.len() as int)
        },
{
    let p = data.subrange(1, data.len() as int);
    assert(p.subrange(2, p.len() as int) =~= data.subrange(3, data.len() as int));
}

} // verus!
