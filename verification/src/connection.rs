//! The decisions a connection makes: what its reader does with each frame from
//! the device, how a command waits for its answer on the event bus, and what a
//! filtered subscription passes on.
//! The waiting and sending themselves are asynchronous and happen outside the
//! library, which hands each delivery to these functions.

use vstd::prelude::*;

use crate::commands::Command;
use crate::error::Error;
use crate::event::Event;
use crate::proto::parser::{decodable, parse_step, ParseError, Parser};

verus! {

/// What a listener on the event bus received.
pub enum Delivery {
    /// An event from the device.
    Event(Event),
    /// The listener fell behind and this many events were dropped for it.
    Lagged(u64),
    /// The bus closed; nothing more will come.
    Closed,
}

/// What a command waiting for its answer does after a delivery.
pub enum ExecuteStep<R> {
    /// The wait is over, with the answer or the failure.
    Done(Result<R, Error>),
    /// Events were dropped; report it and keep waiting.
    Lagged(u64),
    /// The delivery was for someone else; keep waiting.
    Continue,
}

/// What a filtered subscription does after a delivery.
pub enum SubscriptionStep {
    /// Pass the event on to the subscriber.
    Forward(Event),
    /// The event does not match; drop it and keep listening.
    Skip,
    /// Events were dropped; report it and keep listening.
    Lagged(u64),
    /// The bus closed; end the subscription.
    Stop,
}

/// How a command waiting for its answer treats a delivery: the answer ends
/// the wait with it; otherwise a device error ends the wait as a failure
/// (whichever command it was meant for); other events are ignored; a lag is
/// reported and the wait goes on; a closed bus ends the wait as a
/// disconnection.
pub fn execute_step<C: Command>(cmd: &C, delivery: Delivery) -> (s: ExecuteStep<C::Response>)
    ensures
        match delivery {
            Delivery::Event(e) => match cmd.response_to(e) {
                Some(r) => s == ExecuteStep::<C::Response>::Done(Ok(r)),
                None => match e {
                    Event::Error(msg) => s == ExecuteStep::<C::Response>::Done(
                        Err(Error::Device(msg)),
                    ),
                    _ => s == ExecuteStep::<C::Response>::Continue,
                },
            },
            Delivery::Lagged(n) => s == ExecuteStep::<C::Response>::Lagged(n),
            Delivery::Closed => s == ExecuteStep::<C::Response>::Done(Err(Error::Disconnected)),
        },
{
    match delivery {
        Delivery::Event(e) => {
            if cmd.is_response(&e) {
                match cmd.extract_response(e) {
                    Some(r) => ExecuteStep::Done(Ok(r)),
                    None => ExecuteStep::Continue,
                }
            } else {
                match e {
                    Event::Error(msg) => ExecuteStep::Done(Err(Error::Device(msg))),
                    _ => ExecuteStep::Continue,
                }
            }
        },
        Delivery::Lagged(n) => ExecuteStep::Lagged(n),
        Delivery::Closed => ExecuteStep::Done(Err(Error::Disconnected)),
    }
}

/// How a filtered subscription treats a delivery, given whether the
/// subscriber's predicate holds of the delivered event: only matching events
/// are passed on (device errors included, only when they match); a lag is
/// reported; a closed bus ends the subscription.
pub fn subscription_step(delivery: Delivery, matched: bool) -> (s: SubscriptionStep)
    ensures
        match delivery {
            Delivery::Event(e) => if matched {
                s == SubscriptionStep::Forward(e)
            } else {
                s == SubscriptionStep::Skip
            },
            Delivery::Lagged(n) => s == SubscriptionStep::Lagged(n),
            Delivery::Closed => s == SubscriptionStep::Stop,
        },
{
    match delivery {
        Delivery::Event(e) => {
            if matched {
                SubscriptionStep::Forward(e)
            } else {
                SubscriptionStep::Skip
            }
        },
        Delivery::Lagged(n) => SubscriptionStep::Lagged(n),
        Delivery::Closed => SubscriptionStep::Stop,
    }
}

/// What the connection's reader does with a frame from the device.
pub enum FrameStep {
    /// The frame completed an event: publish it.
    Publish(Event),
    /// The frame only started or continued a contact list.
    Quiet,
    /// The frame could not be decoded: report it and read on.
    ParseFailed(ParseError),
    /// The parser does not handle this frame (a reply code, or a frame too
    /// short for its type); the reader stops on it.
    Undecodable,
}

/// Hands a frame from the device to the parser and says what to do with the
/// outcome. An undecodable frame leaves the parser as it was.
pub fn read_frame(parser: &mut Parser, frame: &[u8]) -> (s: FrameStep)
    ensures
        !decodable(frame@) ==> s is Undecodable && final(parser)@ == old(parser)@,
        decodable(frame@) ==> {
            &&& final(parser)@ == parse_step(old(parser)@, frame@).0
            &&& match parse_step(old(parser)@, frame@).1 {
                Ok(Some(ev)) => s matches FrameStep::Publish(e) && e@ == ev,
                Ok(None) => s is Quiet,
                Err(err) => s == FrameStep::ParseFailed(err),
            }
        },
{
    if !Parser::is_decodable(frame) {
        return FrameStep::Undecodable;
    }
    match parser.parse_packet(frame) {
        Ok(Some(event)) => FrameStep::Publish(event),
        Ok(None) => FrameStep::Quiet,
        Err(e) => FrameStep::ParseFailed(e),
    }
}

} // verus!
