//! Commands about the device itself.

use bytes::Bytes;
use vstd::prelude::*;

use super::{Command, CMD_APP_START};
use crate::buffer::{
    bytes_contents, bytes_mut_contents, bytes_mut_with_capacity, freeze, put_bytes, put_slice,
    put_u8,
};
use crate::event::{Event, SelfInfoPayload};

verus! {

/// The protocol version an app start announces.
pub const APP_PROTOCOL_VERSION: u8 = 0x03;

/// APP_START: introduces the application to the device, which answers with
/// its self-info.
pub struct AppStart {
    pub client_name: String,
}

/// The frame of APP_START: the command code, the protocol version, six
/// reserved zero bytes, then the client's name in UTF-8.
pub open spec fn app_start_frame(client_name: Seq<char>) -> Seq<u8> {
    seq![CMD_APP_START, APP_PROTOCOL_VERSION, 0u8, 0u8, 0u8, 0u8, 0u8, 0u8] + vstd::utf8::encode_utf8(
        client_name,
    )
}

impl Command for AppStart {
    type Response = SelfInfoPayload;

    open spec fn response_to(&self, event: Event) -> Option<SelfInfoPayload> {
        match event {
            Event::SelfInfo(p) => Some(p),
            _ => None,
        }
    }

    fn encode(&self) -> (b: Bytes)
        ensures
            bytes_contents(b) == app_start_frame(self.client_name@),
    {
        let name: &[u8] = self.client_name.as_str().as_bytes();
        let mut buf = bytes_mut_with_capacity(name.len().saturating_add(8));
        put_u8(&mut buf, CMD_APP_START);
        put_u8(&mut buf, APP_PROTOCOL_VERSION);
        put_bytes(&mut buf, 0x00, 6);
        put_slice(&mut buf, name);
        assert(bytes_mut_contents(buf) =~= app_start_frame(self.client_name@));
        freeze(buf)
    }

    fn is_response(&self, event: &Event) -> (b: bool) {
        match event {
            Event::SelfInfo(_) => true,
            _ => false,
        }
    }

    fn extract_response(&self, event: Event) -> (r: Option<SelfInfoPayload>) {
        match event {
            Event::SelfInfo(p) => Some(p),
            _ => None,
        }
    }
}

/// The layout of an app-start frame: the code 0x01, protocol version 3, six
/// zero bytes, then the client's name in UTF-8.
pub proof fn lemma_app_start_frame_layout(client_name: Seq<char>)
    ensures
        app_start_frame(client_name).len() == 8 + vstd::utf8::encode_utf8(client_name).len(),
        app_start_frame(client_name)[0] == 0x01,
        app_start_frame(client_name)[1] == 0x03,
        forall|i: int| 2 <= i < 8 ==> #[trigger] app_start_frame(client_name)[i] == 0,
        app_start_frame(client_name).subrange(8, app_start_frame(client_name).len() as int)
            == vstd::utf8::encode_utf8(client_name),
{
    let f = app_start_frame(client_name);
    assert(f.subrange(8, f.len() as int) =~= vstd::utf8::encode_utf8(client_name));
}

/// An app start is answered by the device's self-info event, which is the
/// answer; no other event answers it.
pub proof fn lemma_app_start_answered_by_self_info(c: AppStart, e: Event)
    ensures
        (c.response_to(e) is Some) == (e is SelfInfo),
        e matches Event::SelfInfo(p) ==> c.response_to(e) == Some(p),
{
}

} // verus!
