//! Events decoded from the frames a companion device sends.
//!
//! Where the device sends a fixed-point quantity (a coordinate in millionths of
//! a degree, a frequency in kHz, a signal-to-noise ratio in quarter dB), the
//! payload keeps the integer the device sent; applications scale it.

use vstd::prelude::*;

verus! {

/// The kind of node a contact is.
#[derive(Debug, Clone, Copy, PartialEq, Eq, Structural)]
pub enum ContactType {
    Unspecified,
    Cli,
    Rep,
    Room,
    Sens,
}

/// The contact kind announced by a byte, if any.
pub open spec fn contact_type_of(b: u8) -> Option<ContactType> {
    if b == 0 {
        Some(ContactType::Unspecified)
    } else if b == 1 {
        Some(ContactType::Cli)
    } else if b == 2 {
        Some(ContactType::Rep)
    } else if b == 3 {
        Some(ContactType::Room)
    } else if b == 4 {
        Some(ContactType::Sens)
    } else {
        None
    }
}

/// The wire byte of a contact kind.
pub open spec fn contact_type_code(t: ContactType) -> u8 {
    match t {
        ContactType::Unspecified => 0,
        ContactType::Cli => 1,
        ContactType::Rep => 2,
        ContactType::Room => 3,
        ContactType::Sens => 4,
    }
}

/// The upper-case label under which a contact kind is shown.
pub open spec fn contact_type_label(t: ContactType) -> Seq<char> {
    match t {
        ContactType::Unspecified => seq!['N', 'O', 'N', 'E'],
        ContactType::Cli => seq!['C', 'L', 'I'],
        ContactType::Rep => seq!['R', 'E', 'P'],
        ContactType::Room => seq!['R', 'O', 'O', 'M'],
        ContactType::Sens => seq!['S', 'E', 'N', 'S'],
    }
}

impl ContactType {
    /// The contact kind announced by `b`, or `None` for a byte that announces none.
    pub fn from_u8(b: u8) -> (t: Option<ContactType>)
        ensures
            t == contact_type_of(b),
    {
        match b {
            0 => Some(ContactType::Unspecified),
            1 => Some(ContactType::Cli),
            2 => Some(ContactType::Rep),
            3 => Some(ContactType::Room),
            4 => Some(ContactType::Sens),
            _ => None,
        }
    }

    /// The wire byte of this contact kind.
    pub fn as_u8(self) -> (b: u8)
        ensures
            b == contact_type_code(self),
    {
        match self {
            ContactType::Unspecified => 0,
            ContactType::Cli => 1,
            ContactType::Rep => 2,
            ContactType::Room => 3,
            ContactType::Sens => 4,
        }
    }

    /// The label of this contact kind: `NONE`, `CLI`, `REP`, `ROOM` or `SENS`.
    pub fn to_string(&self) -> (s: String)
        ensures
            s@ == contact_type_label(*self),
    {
        let s: &str = match self {
            ContactType::Unspecified => "NONE",
            ContactType::Cli => "CLI",
            ContactType::Rep => "REP",
            ContactType::Room => "ROOM",
            ContactType::Sens => "SENS",
        };
        proof {
            reveal_strlit("NONE");
            reveal_strlit("CLI");
            reveal_strlit("REP");
            reveal_strlit("ROOM");
            reveal_strlit("SENS");
        }
        s.to_owned()
    }
}

/// Decoding the byte of a contact kind gives the kind back, and a byte decodes
/// to a kind only if it is that kind's byte.
pub proof fn lemma_contact_type_code_roundtrip(t: ContactType, b: u8)
    ensures
        contact_type_of(contact_type_code(t)) == Some(t),
        contact_type_of(b) == Some(t) ==> contact_type_code(t) == b,
{
}

/// A device's description of itself, sent in answer to an app start.
#[derive(Debug, Clone)]
pub struct SelfInfoPayload {
    pub adv_type: u8,
    pub tx_power: u8,
    pub max_tx_power: u8,
    pub public_key: [u8; 32],
    /// Advertised latitude, in millionths of a degree.
    pub adv_lat_e6: i32,
    /// Advertised longitude, in millionths of a degree.
    pub adv_lon_e6: i32,
    pub multi_acks: u8,
    pub adv_loc_policy: u8,
    pub telemetry_mode_env: u8,
    pub telemetry_mode_loc: u8,
    pub telemetry_mode_base: u8,
    pub manual_add_contacts: bool,
    /// Radio frequency, in kHz.
    pub radio_freq_khz: u32,
    /// Radio bandwidth, in Hz.
    pub radio_bw_hz: u32,
    pub radio_sf: u8,
    pub radio_cr: u8,
    pub name: String,
}

/// The mathematical content of a [`SelfInfoPayload`].
#[verifier::ext_equal]
pub struct SelfInfoView {
    pub adv_type: u8,
    pub tx_power: u8,
    pub max_tx_power: u8,
    pub public_key: Seq<u8>,
    pub adv_lat_e6: i32,
    pub adv_lon_e6: i32,
    pub multi_acks: u8,
    pub adv_loc_policy: u8,
    pub telemetry_mode_env: u8,
    pub telemetry_mode_loc: u8,
    pub telemetry_mode_base: u8,
    pub manual_add_contacts: bool,
    pub radio_freq_khz: u32,
    pub radio_bw_hz: u32,
    pub radio_sf: u8,
    pub radio_cr: u8,
    pub name: Seq<char>,
}

impl View for SelfInfoPayload {
    type V = SelfInfoView;

    open spec fn view(&self) -> SelfInfoView {
        SelfInfoView {
            adv_type: self.adv_type,
            tx_power: self.tx_power,
            max_tx_power: self.max_tx_power,
            public_key: self.public_key@,
            adv_lat_e6: self.adv_lat_e6,
            adv_lon_e6: self.adv_lon_e6,
            multi_acks: self.multi_acks,
            adv_loc_policy: self.adv_loc_policy,
            telemetry_mode_env: self.telemetry_mode_env,
            telemetry_mode_loc: self.telemetry_mode_loc,
            telemetry_mode_base: self.telemetry_mode_base,
            manual_add_contacts: self.manual_add_contacts,
            radio_freq_khz: self.radio_freq_khz,
            radio_bw_hz: self.radio_bw_hz,
            radio_sf: self.radio_sf,
            radio_cr: self.radio_cr,
            name: self.name@,
        }
    }
}

/// One entry of the device's contact list.
#[derive(Debug, Clone)]
pub struct ContactPayload {
    pub public_key: [u8; 32],
    pub contact_type: ContactType,
    pub flags: u8,
    /// Length of the outgoing path; -1 for flood routing.
    pub out_path_len: i8,
    /// Hash mode of the outgoing path; -1 for flood routing.
    pub out_path_hash_mode: i8,
    pub out_path: Vec<u8>,
    pub adv_name: String,
    pub last_advert: u32,
    /// Advertised latitude, in millionths of a degree.
    pub adv_lat_e6: i32,
    /// Advertised longitude, in millionths of a degree.
    pub adv_lon_e6: i32,
    pub lastmod: u32,
}

/// The mathematical content of a [`ContactPayload`].
#[verifier::ext_equal]
pub struct ContactView {
    pub public_key: Seq<u8>,
    pub contact_type: ContactType,
    pub flags: u8,
    pub out_path_len: i8,
    pub out_path_hash_mode: i8,
    pub out_path: Seq<u8>,
    pub adv_name: Seq<char>,
    pub last_advert: u32,
    pub adv_lat_e6: i32,
    pub adv_lon_e6: i32,
    pub lastmod: u32,
}

impl View for ContactPayload {
    type V = ContactView;

    open spec fn view(&self) -> ContactView {
        ContactView {
            public_key: self.public_key@,
            contact_type: self.contact_type,
            flags: self.flags,
            out_path_len: self.out_path_len,
            out_path_hash_mode: self.out_path_hash_mode,
            out_path: self.out_path@,
            adv_name: self.adv_name@,
            last_advert: self.last_advert,
            adv_lat_e6: self.adv_lat_e6,
            adv_lon_e6: self.adv_lon_e6,
            lastmod: self.lastmod,
        }
    }
}

/// The views of a list of contacts.
pub open spec fn contact_views(cs: Seq<ContactPayload>) -> Seq<ContactView> {
    cs.map_values(|c: ContactPayload| c@)
}

/// The device's contact list, with the time of its last change.
#[derive(Debug, Clone)]
pub struct ContactsPayload {
    pub contacts: Vec<ContactPayload>,
    pub lastmod: u32,
}

/// The mathematical content of a [`ContactsPayload`].
#[verifier::ext_equal]
pub struct ContactsView {
    pub contacts: Seq<ContactView>,
    pub lastmod: u32,
}

impl View for ContactsPayload {
    type V = ContactsView;

    open spec fn view(&self) -> ContactsView {
        ContactsView { contacts: contact_views(self.contacts@), lastmod: self.lastmod }
    }
}

/// A packet the radio heard, with its signal quality.
#[derive(Debug, Clone)]
pub struct RxLogDataPayload {
    /// Signal-to-noise ratio, in quarter dB.
    pub snr_quarter_db: i8,
    pub rssi: i8,
    pub payload: Vec<u8>,
}

/// The mathematical content of a [`RxLogDataPayload`].
#[verifier::ext_equal]
pub struct RxLogDataView {
    pub snr_quarter_db: i8,
    pub rssi: i8,
    pub payload: Seq<u8>,
}

impl View for RxLogDataPayload {
    type V = RxLogDataView;

    open spec fn view(&self) -> RxLogDataView {
        RxLogDataView { snr_quarter_db: self.snr_quarter_db, rssi: self.rssi, payload: self.payload@ }
    }
}

/// The device's acknowledgement that it sent a message.
#[derive(Debug, Clone, Copy, PartialEq, Eq)]
pub struct MsgSentPayload {
    pub msg_type: u8,
    pub expected_ack: [u8; 4],
    pub suggested_timeout: u32,
}

/// The mathematical content of a [`MsgSentPayload`].
#[verifier::ext_equal]
pub struct MsgSentView {
    pub msg_type: u8,
    pub expected_ack: Seq<u8>,
    pub suggested_timeout: u32,
}

impl View for MsgSentPayload {
    type V = MsgSentView;

    open spec fn view(&self) -> MsgSentView {
        MsgSentView {
            msg_type: self.msg_type,
            expected_ack: self.expected_ack@,
            suggested_timeout: self.suggested_timeout,
        }
    }
}

/// Something the device told the application.
#[derive(Debug, Clone)]
pub enum Event {
    SelfInfo(SelfInfoPayload),
    Contacts(ContactsPayload),
    RxLogData(RxLogDataPayload),
    MsgSent(MsgSentPayload),
    Error(String),
}

/// The mathematical content of an [`Event`].
#[verifier::ext_equal]
pub enum EventView {
    SelfInfo(SelfInfoView),
    Contacts(ContactsView),
    RxLogData(RxLogDataView),
    MsgSent(MsgSentView),
    Error(Seq<char>),
}

impl View for Event {
    type V = EventView;

    open spec fn view(&self) -> EventView {
        match self {
            Event::SelfInfo(p) => EventView::SelfInfo(p@),
            Event::Contacts(p) => EventView::Contacts(p@),
            Event::RxLogData(p) => EventView::RxLogData(p@),
            Event::MsgSent(p) => EventView::MsgSent(p@),
            Event::Error(s) => EventView::Error(s@),
        }
    }
}

} // verus!
