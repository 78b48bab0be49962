use master_time::ntp::{client_request, parse_header, NtpTimestamp, PacketError, NTP_PACKET_LEN};

#[test]
fn builds_an_ntp_v4_client_request() {
    let packet = client_request();
    assert_eq!(packet.len(), NTP_PACKET_LEN);
    assert_eq!(packet[0], 0x23);
    assert!(packet[1..].iter().all(|byte| *byte == 0));
}

#[test]
fn parses_header_and_timestamps() {
    let mut packet = client_request();
    packet[0] = 0x24; // LI=0, VN=4, server mode=4.
    packet[1] = 2;
    packet[40..44].copy_from_slice(&1u32.to_be_bytes());
    packet[44..48].copy_from_slice(&u32::MAX.to_be_bytes());

    let header = parse_header(&packet).unwrap();
    assert_eq!(header.version, 4);
    assert_eq!(header.mode, 4);
    assert_eq!(header.stratum, 2);
    assert_eq!(header.transmit_timestamp.seconds, 1);
    assert_eq!(header.transmit_timestamp.fraction, u32::MAX);
}

#[test]
fn rejects_short_and_invalid_packets() {
    assert_eq!(
        parse_header(&[0; 10]),
        Err(PacketError::TooShort { actual: 10 })
    );

    let mut packet = client_request();
    packet[0] = 0x08; // version 1, client mode.
    assert_eq!(parse_header(&packet), Err(PacketError::InvalidVersion(1)));

    packet[0] = 0x20; // version 4, reserved mode 0.
    assert_eq!(parse_header(&packet), Err(PacketError::InvalidMode(0)));
}

#[test]
fn timestamps_round_trip_through_network_bytes() {
    let timestamp = NtpTimestamp {
        seconds: 0x0102_0304,
        fraction: 0xA0B0_C0D0,
    };
    let mut bytes = [0xFFu8; 10];
    assert!(timestamp.write_network_bytes(&mut bytes));
    assert_eq!(
        bytes,
        [0x01, 0x02, 0x03, 0x04, 0xA0, 0xB0, 0xC0, 0xD0, 0xFF, 0xFF]
    );
    assert_eq!(NtpTimestamp::from_network_bytes(&bytes), Some(timestamp));

    let mut short = [7u8; 7];
    assert!(!timestamp.write_network_bytes(&mut short));
    assert_eq!(short, [7u8; 7]);
    assert_eq!(NtpTimestamp::from_network_bytes(&short), None);
    assert_eq!(NtpTimestamp::zero(), NtpTimestamp { seconds: 0, fraction: 0 });
}

#[test]
fn header_fields_are_decoded_from_their_offsets() {
    let mut packet = [0u8; 52];
    packet[0] = 0b11_011_100; // alarm, version 3, server mode.
    packet[1] = 1;
    packet[2] = 0xFA; // poll exponent -6
    packet[3] = 0xEC; // precision exponent -20
    packet[4..8].copy_from_slice(&[0, 0, 0x80, 0]);
    packet[8..12].copy_from_slice(&[0, 1, 0, 0]);
    packet[12..16].copy_from_slice(b"GPS\0");
    packet[32..36].copy_from_slice(&7u32.to_be_bytes());
    let header = parse_header(&packet).unwrap();
    assert_eq!(header.leap_indicator, 3);
    assert_eq!(header.version, 3);
    assert_eq!(header.mode, 4);
    assert_eq!(header.poll_exponent, -6);
    assert_eq!(header.precision_exponent, -20);
    assert_eq!(header.root_delay, 0x8000);
    assert_eq!(header.root_dispersion, 0x1_0000);
    assert_eq!(&header.reference_id, b"GPS\0");
    assert_eq!(header.receive_timestamp.seconds, 7);
    packet[0] = 0b00_100_111; // version 4, reserved mode 7.
    assert_eq!(parse_header(&packet), Err(PacketError::InvalidMode(7)));
    packet[0] = 0b00_101_100; // version 5.
    assert_eq!(parse_header(&packet), Err(PacketError::InvalidVersion(5)));
    assert_eq!(
        PacketError::TooShort { actual: 10 }.to_string(),
        "NTP packet is 10 bytes; expected 48"
    );
    assert_eq!(PacketError::InvalidVersion(1).to_string(), "unsupported NTP version 1");
    assert_eq!(PacketError::InvalidMode(0).to_string(), "invalid NTP mode 0");
}
