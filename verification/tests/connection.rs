use meshcorrode::commands::contact::GetContacts;
use meshcorrode::connection::{
    execute_step, read_frame, subscription_step, Delivery, ExecuteStep, FrameStep, SubscriptionStep,
};
use meshcorrode::error::Error;
use meshcorrode::event::{ContactsPayload, Event, RxLogDataPayload};
use meshcorrode::proto::parser::{ParseError, Parser};

fn rx_event() -> Event {
    Event::RxLogData(RxLogDataPayload { snr_quarter_db: 1, rssi: 2, payload: vec![3] })
}

#[test]
fn execute_ends_with_the_answer() {
    let cmd = GetContacts::default();
    let answer = Event::Contacts(ContactsPayload { contacts: vec![], lastmod: 5 });
    match execute_step(&cmd, Delivery::Event(answer)) {
        ExecuteStep::Done(Ok(p)) => assert_eq!(p.lastmod, 5),
        _ => panic!("expected the answer"),
    }
}

#[test]
fn execute_fails_on_device_error() {
    let cmd = GetContacts::default();
    match execute_step(&cmd, Delivery::Event(Event::Error("busy".to_string()))) {
        ExecuteStep::Done(Err(Error::Device(m))) => assert_eq!(m, "busy"),
        _ => panic!("expected a device error"),
    }
}

#[test]
fn execute_ignores_other_events_and_lag() {
    let cmd = GetContacts::default();
    assert!(matches!(execute_step(&cmd, Delivery::Event(rx_event())), ExecuteStep::Continue));
    assert!(matches!(execute_step(&cmd, Delivery::Lagged(3)), ExecuteStep::Lagged(3)));
}

#[test]
fn execute_fails_when_bus_closes() {
    let cmd = GetContacts::default();
    assert!(matches!(
        execute_step(&cmd, Delivery::Closed),
        ExecuteStep::Done(Err(Error::Disconnected))
    ));
}

#[test]
fn subscription_forwards_only_matching_events() {
    match subscription_step(Delivery::Event(rx_event()), true) {
        SubscriptionStep::Forward(Event::RxLogData(p)) => assert_eq!(p.payload, vec![3]),
        _ => panic!("expected the event"),
    }
    assert!(matches!(subscription_step(Delivery::Event(rx_event()), false), SubscriptionStep::Skip));
    assert!(matches!(
        subscription_step(Delivery::Event(Event::Error("e".to_string())), false),
        SubscriptionStep::Skip
    ));
    assert!(matches!(subscription_step(Delivery::Lagged(2), false), SubscriptionStep::Lagged(2)));
    assert!(matches!(subscription_step(Delivery::Closed, true), SubscriptionStep::Stop));
}

#[test]
fn parse_error_converts_into_error() {
    let e: Error = ParseError::UnknownPacketType(7).into();
    assert!(matches!(e, Error::Parse(ParseError::UnknownPacketType(7))));
    let e = Error::from(ParseError::TooShort { needed: 1, got: 0 });
    assert!(matches!(e, Error::Parse(ParseError::TooShort { needed: 1, got: 0 })));
}

#[test]
fn reader_publishes_quiets_reports_and_stops() {
    let mut parser = Parser::new();
    assert!(matches!(read_frame(&mut parser, &[2]), FrameStep::Quiet));
    assert!(matches!(
        read_frame(&mut parser, &[0x42]),
        FrameStep::ParseFailed(ParseError::UnknownPacketType(0x42))
    ));
    assert!(matches!(read_frame(&mut parser, &[0]), FrameStep::Undecodable));
    assert!(matches!(read_frame(&mut parser, &[6, 1]), FrameStep::Undecodable));
    match read_frame(&mut parser, &[4, 3, 0, 0, 0]) {
        FrameStep::Publish(Event::Contacts(p)) => {
            assert!(p.contacts.is_empty());
            assert_eq!(p.lastmod, 3);
        }
        _ => panic!("expected the contact list"),
    }
}
