//! Commands an application sends to the companion device.

pub mod contact;
pub mod device;
pub mod messaging;

use bytes::Bytes;
use vstd::prelude::*;

use crate::event::Event;

verus! {

/// The command code of APP_START.
pub const CMD_APP_START: u8 = 0x01;

/// The command code of SEND_TXT_MSG.
pub const CMD_SEND_TXT_MSG: u8 = 0x02;

/// The command code of GET_CONTACTS.
pub const CMD_GET_CONTACTS: u8 = 0x04;

/// A command for the device, with the event that answers it.
pub trait Command {
    /// What the answer to this command carries.
    type Response;

    /// The answer that `event` gives to this command, if it is one.
    spec fn response_to(&self, event: Event) -> Option<Self::Response>;

    /// The frame that sends this command.
    fn encode(&self) -> Bytes;

    /// Whether `event` answers this command.
    fn is_response(&self, event: &Event) -> (b: bool)
        ensures
            b == self.response_to(*event) is Some,
    ;

    /// The answer that `event` gives to this command, if it is one.
    fn extract_response(&self, event: Event) -> (r: Option<Self::Response>)
        ensures
            r == self.response_to(event),
    ;
}

} // verus!
