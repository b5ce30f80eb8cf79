//! Commands about the device's contact list.

use bytes::Bytes;
use vstd::prelude::*;

use super::{Command, CMD_GET_CONTACTS};
use crate::buffer::{
    bytes_contents, bytes_copy_from_slice, bytes_from_static, le_bytes_u32, le_u32,
    lemma_le_u32_of_le_bytes,
};
use crate::event::{ContactsPayload, Event};

verus! {

/// GET_CONTACTS: asks the device for its contact list.
pub struct GetContacts {
    /// Only return contacts modified after this timestamp, or 0 for all
    /// contacts (the default).
    pub lastmod: u32,
}

/// The frame of GET_CONTACTS: the command code, then the modification time,
/// little-endian, when it is not 0.
pub open spec fn get_contacts_frame(lastmod: u32) -> Seq<u8> {
    if lastmod > 0 {
        seq![CMD_GET_CONTACTS].add(le_bytes_u32(lastmod))
    } else {
        seq![CMD_GET_CONTACTS]
    }
}

impl Default for GetContacts {
    fn default() -> (g: GetContacts)
        ensures
            g.lastmod == 0,
    {
        GetContacts { lastmod: 0 }
    }
}

impl Command for GetContacts {
    type Response = ContactsPayload;

    open spec fn response_to(&self, event: Event) -> Option<ContactsPayload> {
        match event {
            Event::Contacts(p) => Some(p),
            _ => None,
        }
    }

    fn encode(&self) -> (b: Bytes)
        ensures
            bytes_contents(b) == get_contacts_frame(self.lastmod),
    {
        if self.lastmod > 0 {
            let v = self.lastmod;
            let buf: [u8; 5] = [
                CMD_GET_CONTACTS,
                (v % 0x100) as u8,
                ((v / 0x100) % 0x100) as u8,
                ((v / 0x1_0000) % 0x100) as u8,
                (v / 0x100_0000) as u8,
            ];
            let b = bytes_copy_from_slice(buf.as_slice());
            assert(bytes_contents(b) =~= get_contacts_frame(self.lastmod));
            b
        } else {
            let b = bytes_from_static(&[CMD_GET_CONTACTS]);
            assert(bytes_contents(b) =~= get_contacts_frame(self.lastmod));
            b
        }
    }

    fn is_response(&self, event: &Event) -> (b: bool) {
        match event {
            Event::Contacts(_) => true,
            _ => false,
        }
    }

    fn extract_response(&self, event: Event) -> (r: Option<ContactsPayload>) {
        match event {
            Event::Contacts(p) => Some(p),
            _ => None,
        }
    }
}

/// The layout of a contact-list request: the code 0x04 alone asks for all
/// contacts; a non-zero modification time follows it as a little-endian word.
pub proof fn lemma_get_contacts_frame_layout(lastmod: u32)
    ensures
        lastmod == 0 ==> get_contacts_frame(lastmod) == seq![0x04u8],
        lastmod > 0 ==> {
            &&& get_contacts_frame(lastmod).len() == 5
            &&& get_contacts_frame(lastmod)[0] == 0x04
            &&& le_u32(get_contacts_frame(lastmod), 1) == lastmod
        },
{
    lemma_le_u32_of_le_bytes(lastmod);
    if lastmod > 0 {
        let f = get_contacts_frame(lastmod);
        let lb = le_bytes_u32(lastmod);
        assert(f[1] == lb[0] && f[2] == lb[1] && f[3] == lb[2] && f[4] == lb[3]);
    }
}

/// A contact-list request is answered by the device's contacts event, which
/// is the answer; no other event answers it.
pub proof fn lemma_get_contacts_answered_by_contacts(c: GetContacts, e: Event)
    ensures
        (c.response_to(e) is Some) == (e is Contacts),
        e matches Event::Contacts(p) ==> c.response_to(e) == Some(p),
{
}

} // verus!
