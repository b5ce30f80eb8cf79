use meshcorrode::commands::contact::GetContacts;
use meshcorrode::commands::device::AppStart;
use meshcorrode::commands::messaging::{Destination, HexError, SendTextMessage};
use meshcorrode::commands::Command;
use meshcorrode::event::{ContactsPayload, Event, MsgSentPayload};

#[test]
fn get_contacts_all() {
    let cmd = GetContacts::default();
    assert_eq!(cmd.lastmod, 0);
    assert_eq!(&cmd.encode()[..], &[0x04]);
}

#[test]
fn get_contacts_since() {
    let cmd = GetContacts { lastmod: 0x6553_f100 };
    assert_eq!(&cmd.encode()[..], &[0x04, 0x00, 0xf1, 0x53, 0x65]);
    assert_eq!(&GetContacts { lastmod: 1 }.encode()[..], &[0x04, 1, 0, 0, 0]);
}

#[test]
fn get_contacts_answer() {
    let cmd = GetContacts::default();
    let answer = Event::Contacts(ContactsPayload { contacts: vec![], lastmod: 9 });
    assert!(cmd.is_response(&answer));
    assert_eq!(cmd.extract_response(answer).unwrap().lastmod, 9);
    let other = Event::Error("x".to_string());
    assert!(!cmd.is_response(&other));
    assert!(cmd.extract_response(other).is_none());
}

#[test]
fn app_start_frame() {
    let cmd = AppStart { client_name: "meshcorrode".to_string() };
    let mut expected = vec![0x01, 0x03, 0, 0, 0, 0, 0, 0];
    expected.extend_from_slice(b"meshcorrode");
    assert_eq!(&cmd.encode()[..], &expected[..]);
}

#[test]
fn app_start_frame_utf8_name() {
    let cmd = AppStart { client_name: "é".to_string() };
    assert_eq!(&cmd.encode()[..], &[0x01, 0x03, 0, 0, 0, 0, 0, 0, 0xc3, 0xa9]);
    let empty = AppStart { client_name: String::new() };
    assert_eq!(&empty.encode()[..], &[0x01, 0x03, 0, 0, 0, 0, 0, 0]);
}

#[test]
fn app_start_answer() {
    let cmd = AppStart { client_name: String::new() };
    let other = Event::MsgSent(MsgSentPayload {
        msg_type: 0,
        expected_ack: [0; 4],
        suggested_timeout: 0,
    });
    assert!(!cmd.is_response(&other));
    assert!(cmd.extract_response(other).is_none());
}

#[test]
fn destination_from_hex() {
    let d = Destination::try_from("DEafBE01").unwrap();
    assert_eq!(d.as_ref(), &[0xde, 0xaf, 0xbe, 0x01]);
    assert!(Destination::try_from("").unwrap().as_ref().is_empty());
}

#[test]
fn destination_odd_length() {
    assert_eq!(Destination::try_from("abc").err(), Some(HexError::OddLength));
}

#[test]
fn destination_invalid_character() {
    assert_eq!(
        Destination::try_from("a0zg").err(),
        Some(HexError::InvalidHexCharacter { c: 'z', index: 2 })
    );
    assert_eq!(
        Destination::try_from("0x").err(),
        Some(HexError::InvalidHexCharacter { c: 'x', index: 1 })
    );
}

#[test]
fn send_text_message_with_timestamp() {
    let dst = Destination::try_from("aabbcc").unwrap();
    let cmd = SendTextMessage::new(dst, "hi".to_string(), Some(0x0102_0304), 1);
    let expected = [0x02, 0x00, 0x01, 0x04, 0x03, 0x02, 0x01, 0xaa, 0xbb, 0xcc, b'h', b'i'];
    assert_eq!(&cmd.encode()[..], &expected);
    // An own timestamp wins over the clock.
    assert_eq!(&cmd.encode_at(Some(7))[..], &expected);
    assert_eq!(&cmd.encode_at(None)[..], &expected);
}

#[test]
fn send_text_message_stamped_at_encoding() {
    let dst = Destination::try_from("01").unwrap();
    let cmd = SendTextMessage::new(dst, String::new(), None, 0);
    assert_eq!(&cmd.encode_at(Some(0x0a0b_0c0d))[..], &[0x02, 0, 0, 0x0d, 0x0c, 0x0b, 0x0a, 0x01]);
    // The clock's reading is cut to its low 32 bits.
    assert_eq!(&cmd.encode_at(Some(0x1_0000_0005))[..], &[0x02, 0, 0, 5, 0, 0, 0, 0x01]);
    // A clock that reads before the epoch stamps 0.
    assert_eq!(&cmd.encode_at(None)[..], &[0x02, 0, 0, 0, 0, 0, 0, 0x01]);
    let now = std::time::SystemTime::now()
        .duration_since(std::time::UNIX_EPOCH)
        .unwrap()
        .as_secs() as u32;
    let frame = cmd.encode();
    assert_eq!(frame.len(), 8);
    let stamped = u32::from_le_bytes([frame[3], frame[4], frame[5], frame[6]]);
    assert!(stamped >= now && stamped - now < 60);
}

#[test]
fn send_text_message_answer() {
    let cmd = SendTextMessage::new(Destination::try_from("00").unwrap(), String::new(), Some(1), 0);
    let sent = Event::MsgSent(MsgSentPayload {
        msg_type: 0,
        expected_ack: [1, 2, 3, 4],
        suggested_timeout: 3,
    });
    assert!(cmd.is_response(&sent));
    assert_eq!(cmd.extract_response(sent).unwrap().expected_ack, [1, 2, 3, 4]);
}

#[test]
fn destination_from_hex_text_of_any_bytes() {
    let bytes: Vec<u8> = (0..=255u8).collect();
    let text = hex::encode(&bytes);
    assert_eq!(Destination::try_from(&text).unwrap().as_ref(), &bytes[..]);
    let key = [0x00u8, 0x0f, 0xf0, 0xff];
    assert_eq!(Destination::try_from(&hex::encode(key)).unwrap().as_ref(), &key);
}
