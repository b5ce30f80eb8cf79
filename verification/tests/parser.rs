use meshcorrode::event::{ContactType, Event};
use meshcorrode::proto::parser::{
    parse_contact, parse_msg_sent, parse_rx_log_data, parse_self_info, ParseError, Parser,
};
use meshcorrode::proto::PacketType;

fn contact_payload(name: &[u8], key_seed: u8, plen: u8) -> Vec<u8> {
    let mut p = Vec::new();
    for i in 0..32u8 {
        p.push(key_seed.wrapping_add(i));
    }
    p.push(2); // contact type: REP
    p.push(0x05); // flags
    p.push(plen);
    let mut path = [0u8; 64];
    path[0] = 0xaa;
    path[1] = 0xbb;
    path[3] = 0xcc; // after the first zero: not part of the path
    p.extend_from_slice(&path);
    let mut adv_name = [0u8; 32];
    adv_name[..name.len()].copy_from_slice(name);
    p.extend_from_slice(&adv_name);
    p.extend_from_slice(&0x0102_0304u32.to_le_bytes());
    p.extend_from_slice(&(-1_000_000i32).to_le_bytes());
    p.extend_from_slice(&2_000_000i32.to_le_bytes());
    p.extend_from_slice(&1_700_000_000u32.to_le_bytes());
    assert_eq!(p.len(), 147);
    p
}

fn frame(code: u8, payload: &[u8]) -> Vec<u8> {
    let mut f = vec![code];
    f.extend_from_slice(payload);
    f
}

fn self_info_payload() -> Vec<u8> {
    let mut p = vec![1u8, 22, 30];
    for i in 0..32u8 {
        p.push(0xf0 ^ i);
    }
    p.extend_from_slice(&51_500_000i32.to_le_bytes());
    p.extend_from_slice(&(-123_456i32).to_le_bytes());
    p.push(1); // multi acks
    p.push(2); // advert location policy
    p.push(0b0010_0111); // telemetry: env 2, loc 1, base 3
    p.push(7); // manual add contacts: any non-zero byte
    p.extend_from_slice(&869_525u32.to_le_bytes());
    p.extend_from_slice(&250_000u32.to_le_bytes());
    p.push(11);
    p.push(5);
    p.extend_from_slice(b"MyNode");
    p
}

#[test]
fn parse_contact_reads_every_field() {
    let c = parse_contact(&contact_payload(b"Alice", 1, 0x42));
    let expected_key: Vec<u8> = (1..=32).collect();
    assert_eq!(c.public_key.to_vec(), expected_key);
    assert_eq!(c.contact_type, ContactType::Rep);
    assert_eq!(c.flags, 5);
    assert_eq!(c.out_path_len, 2);
    assert_eq!(c.out_path_hash_mode, 1);
    assert_eq!(c.out_path, vec![0xaa, 0xbb]);
    assert_eq!(c.adv_name, "Alice");
    assert_eq!(c.last_advert, 0x0102_0304);
    assert_eq!(c.adv_lat_e6, -1_000_000);
    assert_eq!(c.adv_lon_e6, 2_000_000);
    assert_eq!(c.lastmod, 1_700_000_000);
}

#[test]
fn parse_contact_flood_route_and_unknown_type() {
    let mut p = contact_payload(b"", 0, 255);
    p[32] = 9; // no such contact type
    let c = parse_contact(&p);
    assert_eq!(c.out_path_len, -1);
    assert_eq!(c.out_path_hash_mode, -1);
    assert_eq!(c.contact_type, ContactType::Unspecified);
    assert_eq!(c.adv_name, "");
}

#[test]
fn parse_contact_name_fills_field_without_terminator() {
    let name = [b'x'; 32];
    let c = parse_contact(&contact_payload(&name, 0, 0));
    assert_eq!(c.adv_name, "x".repeat(32));
    assert_eq!(c.out_path_len, 0);
    assert_eq!(c.out_path_hash_mode, 0);
}

#[test]
fn parse_contact_invalid_utf8_name_is_replaced() {
    let c = parse_contact(&contact_payload(&[b'a', 0xff, b'b'], 0, 0));
    assert_eq!(c.adv_name, "a\u{fffd}b");
}

#[test]
fn parse_self_info_reads_every_field() {
    let p = parse_self_info(&self_info_payload()).unwrap();
    assert_eq!(p.adv_type, 1);
    assert_eq!(p.tx_power, 22);
    assert_eq!(p.max_tx_power, 30);
    assert_eq!(p.public_key[0], 0xf0);
    assert_eq!(p.public_key[31], 0xf0 ^ 31);
    assert_eq!(p.adv_lat_e6, 51_500_000);
    assert_eq!(p.adv_lon_e6, -123_456);
    assert_eq!(p.multi_acks, 1);
    assert_eq!(p.adv_loc_policy, 2);
    assert_eq!(p.telemetry_mode_env, 2);
    assert_eq!(p.telemetry_mode_loc, 1);
    assert_eq!(p.telemetry_mode_base, 3);
    assert!(p.manual_add_contacts);
    assert_eq!(p.radio_freq_khz, 869_525);
    assert_eq!(p.radio_bw_hz, 250_000);
    assert_eq!(p.radio_sf, 11);
    assert_eq!(p.radio_cr, 5);
    assert_eq!(p.name, "MyNode");
}

#[test]
fn parse_self_info_without_name() {
    let mut payload = self_info_payload();
    payload.truncate(57);
    payload[46] = 0;
    let p = parse_self_info(&payload).unwrap();
    assert_eq!(p.name, "");
    assert!(!p.manual_add_contacts);
}

#[test]
fn parse_msg_sent_reads_every_field() {
    let p = parse_msg_sent(&[1, 0xde, 0xad, 0xbe, 0xef, 0x10, 0x27, 0, 0, 0x99]).unwrap();
    assert_eq!(p.msg_type, 1);
    assert_eq!(p.expected_ack, [0xde, 0xad, 0xbe, 0xef]);
    assert_eq!(p.suggested_timeout, 10_000);
}

#[test]
fn parse_rx_log_data_reads_signal_and_packet() {
    let r = parse_rx_log_data(&[0xf6, 0xa6, 1, 2, 3]);
    assert_eq!(r.snr_quarter_db, -10);
    assert_eq!(r.rssi, -90);
    assert_eq!(r.payload, vec![1, 2, 3]);
    let empty = parse_rx_log_data(&[40, 0]);
    assert_eq!(empty.snr_quarter_db, 40);
    assert!(empty.payload.is_empty());
}

#[test]
fn parse_packet_empty_frame_is_too_short() {
    let mut parser = Parser::new();
    assert_eq!(
        parser.parse_packet(&[]).unwrap_err(),
        ParseError::TooShort { needed: 1, got: 0 }
    );
}

#[test]
fn parse_packet_unknown_type() {
    let mut parser = Parser::new();
    assert_eq!(
        parser.parse_packet(&[0x42, 1, 2]).unwrap_err(),
        ParseError::UnknownPacketType(0x42)
    );
}

#[test]
fn parse_packet_yields_self_info_sent_and_rx_log() {
    let mut parser = Parser::new();
    match parser.parse_packet(&frame(5, &self_info_payload())) {
        Ok(Some(Event::SelfInfo(p))) => assert_eq!(p.name, "MyNode"),
        other => panic!("unexpected {:?}", other),
    }
    match parser.parse_packet(&[6, 0, 1, 2, 3, 4, 5, 0, 0, 0]) {
        Ok(Some(Event::MsgSent(p))) => {
            assert_eq!(p.expected_ack, [1, 2, 3, 4]);
            assert_eq!(p.suggested_timeout, 5);
        }
        other => panic!("unexpected {:?}", other),
    }
    match parser.parse_packet(&[0x88, 8, 0x80, 9]) {
        Ok(Some(Event::RxLogData(p))) => {
            assert_eq!(p.snr_quarter_db, 8);
            assert_eq!(p.rssi, -128);
            assert_eq!(p.payload, vec![9]);
        }
        other => panic!("unexpected {:?}", other),
    }
}

#[test]
fn contact_list_is_reported_whole() {
    let mut parser = Parser::new();
    assert!(parser.parse_packet(&[2]).unwrap().is_none());
    assert!(parser.parse_packet(&frame(3, &contact_payload(b"Alice", 1, 0))).unwrap().is_none());
    assert!(parser.parse_packet(&frame(3, &contact_payload(b"Bob", 2, 0))).unwrap().is_none());
    match parser.parse_packet(&[4, 0x10, 0x20, 0x30, 0x40]) {
        Ok(Some(Event::Contacts(p))) => {
            assert_eq!(p.lastmod, 0x4030_2010);
            let names: Vec<&str> = p.contacts.iter().map(|c| c.adv_name.as_str()).collect();
            assert_eq!(names, vec!["Alice", "Bob"]);
            assert_eq!(p.contacts[1].public_key[0], 2);
        }
        other => panic!("unexpected {:?}", other),
    }
    // The parser holds nothing afterwards.
    match parser.parse_packet(&[4, 0, 0, 0, 0]) {
        Ok(Some(Event::Contacts(p))) => assert!(p.contacts.is_empty()),
        other => panic!("unexpected {:?}", other),
    }
}

#[test]
fn contact_list_start_discards_earlier_contacts() {
    let mut parser = Parser::new();
    parser.parse_packet(&frame(3, &contact_payload(b"Stale", 1, 0))).unwrap();
    parser.parse_packet(&[2]).unwrap();
    parser.parse_packet(&frame(3, &contact_payload(b"Fresh", 1, 0))).unwrap();
    match parser.parse_packet(&[4, 1, 0, 0, 0]) {
        Ok(Some(Event::Contacts(p))) => {
            assert_eq!(p.contacts.len(), 1);
            assert_eq!(p.contacts[0].adv_name, "Fresh");
            assert_eq!(p.lastmod, 1);
        }
        other => panic!("unexpected {:?}", other),
    }
}

#[test]
fn other_frames_do_not_disturb_a_contact_list() {
    let mut parser = Parser::default();
    parser.parse_packet(&[2]).unwrap();
    parser.parse_packet(&frame(3, &contact_payload(b"Alice", 1, 0))).unwrap();
    assert!(parser.parse_packet(&[0x88, 0, 0]).unwrap().is_some());
    assert!(parser.parse_packet(&[0x42]).is_err());
    parser.parse_packet(&frame(3, &contact_payload(b"Bob", 1, 0))).unwrap();
    match parser.parse_packet(&[4, 0, 0, 0, 0]) {
        Ok(Some(Event::Contacts(p))) => assert_eq!(p.contacts.len(), 2),
        other => panic!("unexpected {:?}", other),
    }
}

#[test]
fn decodable_frames() {
    assert!(Parser::is_decodable(&[]));
    assert!(Parser::is_decodable(&[0x42]));
    assert!(Parser::is_decodable(&[2]));
    assert!(!Parser::is_decodable(&[0]));
    assert!(!Parser::is_decodable(&[1, 2, 3]));
    assert!(!Parser::is_decodable(&[3, 0, 0]));
    assert!(Parser::is_decodable(&frame(3, &contact_payload(b"A", 0, 0))));
    assert!(!Parser::is_decodable(&[4, 0, 0, 0]));
    assert!(Parser::is_decodable(&[4, 0, 0, 0, 0]));
    assert!(!Parser::is_decodable(&frame(5, &[0; 56])));
    assert!(Parser::is_decodable(&frame(5, &[0; 57])));
    assert!(!Parser::is_decodable(&[6, 0, 0, 0, 0, 0, 0, 0, 0]));
    assert!(Parser::is_decodable(&[6, 0, 0, 0, 0, 0, 0, 0, 0, 0]));
    assert!(!Parser::is_decodable(&[0x88, 0]));
    assert!(Parser::is_decodable(&[0x88, 0, 0]));
}

#[test]
fn packet_type_codes_round_trip() {
    for b in 0..=255u8 {
        if let Some(t) = PacketType::from_u8(b) {
            assert_eq!(t.as_u8(), b);
        }
    }
    assert_eq!(PacketType::from_u8(0x88), Some(PacketType::RxLogData));
    assert_eq!(PacketType::from_u8(0), Some(PacketType::Success));
    assert_eq!(PacketType::from_u8(7), None);
    assert_eq!(PacketType::Sent.as_u8(), 6);
}

#[test]
fn contact_type_codes_and_labels() {
    assert_eq!(ContactType::from_u8(0), Some(ContactType::Unspecified));
    assert_eq!(ContactType::from_u8(4), Some(ContactType::Sens));
    assert_eq!(ContactType::from_u8(5), None);
    assert_eq!(ContactType::Room.as_u8(), 3);
    assert_eq!(ContactType::Unspecified.to_string(), "NONE");
    assert_eq!(ContactType::Cli.to_string(), "CLI");
    assert_eq!(ContactType::Rep.to_string(), "REP");
    assert_eq!(ContactType::Room.to_string(), "ROOM");
    assert_eq!(ContactType::Sens.to_string(), "SENS");
}
