use ajazz_sdk::Kind;

/// Pads packet up to required packet length.
fn padded_packet(kind: Kind, buf: Vec<u8>) -> Vec<u8> {
    let length = if kind.is_v2_api() { 1025 } else { 513 };
    let mut buf = buf;
    buf.extend(vec![0u8; length - buf.len()]);
    buf
}

fn assert_clear_packet(kind: Kind, key: u8, expected: Vec<u8>) {
    let packet = kind.clear_button_image_packet(key);
    let expected = padded_packet(kind, expected);
    assert_eq!(packet, expected);
}

#[test]
fn test_brightness_packet() {
    let kind = Kind::Akp153;
    let brightness = 50;
    let packet = kind.brightness_packet(brightness);
    let expected = padded_packet(
        kind,
        vec![0x00, 0x43, 0x52, 0x54, 0x00, 0x00, 0x4c, 0x49, 0x47, 0x00, 0x00, brightness],
    );
    assert_eq!(packet, expected);
}

#[test]
fn test_keep_alive_packet() {
    let kind = Kind::Akp153;
    let packet = kind.keep_alive_packet();
    let expected = padded_packet(
        kind,
        vec![0x00, 0x43, 0x52, 0x54, 0x00, 0x00, 0x43, 0x4F, 0x4E, 0x4E, 0x45, 0x43, 0x54],
    );
    assert_eq!(packet, expected);
}

#[test]
fn test_initialize_packet() {
    let kind = Kind::Akp153;
    let packet = kind.initialize_packet();
    let expected = padded_packet(kind, vec![0x00, 0x43, 0x52, 0x54, 0x00, 0x00, 0x44, 0x49, 0x53]);
    assert_eq!(packet, expected);
}

#[test]
fn test_sleep_packet() {
    let kind = Kind::Akp153;
    let packet = kind.sleep_packet();
    let expected = padded_packet(kind, vec![0x00, 0x43, 0x52, 0x54, 0x00, 0x00, 0x48, 0x41, 0x4E]);
    assert_eq!(packet, expected);
}

#[test]
fn test_shutdown_packet() {
    let kind = Kind::Akp153;
    let packet = kind.shutdown_packet();
    let expected = padded_packet(
        kind,
        vec![0x00, 0x43, 0x52, 0x54, 0x00, 0x00, 0x43, 0x4c, 0x45, 0x00, 0x00, 0x44, 0x43],
    );
    assert_eq!(packet, expected);
}

#[test]
fn test_clear_button_image_packet() {
    let kind = Kind::Akp153;
    assert_clear_packet(
        kind,
        0,
        vec![0x00, 0x43, 0x52, 0x54, 0x00, 0x00, 0x43, 0x4c, 0x45, 0x00, 0x00, 0x00, 0x05],
    );
    assert_clear_packet(
        kind,
        1,
        vec![0x00, 0x43, 0x52, 0x54, 0x00, 0x00, 0x43, 0x4c, 0x45, 0x00, 0x00, 0x00, 0x0B],
    );
    assert_clear_packet(
        kind,
        0xff,
        vec![0x00, 0x43, 0x52, 0x54, 0x00, 0x00, 0x43, 0x4c, 0x45, 0x00, 0x00, 0x00, 0xff],
    );
}

#[test]
fn test_flush_packet() {
    let kind = Kind::Akp153;
    let packet = kind.flush_packet();
    let expected = padded_packet(kind, vec![0x00, 0x43, 0x52, 0x54, 0x00, 0x00, 0x53, 0x54, 0x50]);
    assert_eq!(packet, expected);
}

#[test]
fn test_image_announce_packet() {
    let kind = Kind::Akp03RRev2;
    let packet = kind.image_announce_packet(0, &[0x00, 0x01]);
    let expected = padded_packet(
        kind,
        vec![
            0x00, 0x43, 0x52, 0x54, 0x00, 0x00, 0x42, 0x41, 0x54, 0x00, 0x00, 0x00, 0x02, 0x00,
            0x00, 0x00,
        ],
    );
    assert_eq!(packet, expected);
}

#[test]
fn test_logo_image_packet() {
    let kind = Kind::Akp153;
    let packet = kind.logo_image_packet(&[0x00, 0x01]);
    let expected = padded_packet(
        kind,
        vec![
            0x00, 0x43, 0x52, 0x54, 0x00, 0x00, 0x4c, 0x4f, 0x47, 0x00, 0x12, 0xc3, 0xc0, 0x01,
        ],
    );
    assert_eq!(packet, expected);
}

#[test]
fn logo_packet_v2_carries_big_endian_length() {
    let kind = Kind::Akp03;
    let data = vec![7u8; 0x1234];
    let packet = kind.logo_image_packet(&data);
    let expected = padded_packet(
        kind,
        vec![0x00, 0x43, 0x52, 0x54, 0x00, 0x00, 0x4c, 0x4f, 0x47, 0x00, 0x00, 0x12, 0x34],
    );
    assert_eq!(packet, expected);
}

#[test]
fn brightness_byte_eleven_and_frame_length_every_kind() {
    let kinds = [
        Kind::Akp153,
        Kind::Akp153E,
        Kind::Akp153R,
        Kind::Akp815,
        Kind::Akp03,
        Kind::Akp03E,
        Kind::Akp03R,
        Kind::Akp03RRev2,
        Kind::Akp05,
    ];
    for kind in kinds {
        for b in [0u8, 1, 50, 99, 100] {
            let p = kind.brightness_packet(b);
            assert_eq!(p.len(), if kind.is_v2_api() { 1025 } else { 513 });
            assert_eq!(p[11], b);
        }
    }
    assert_eq!(Kind::Akp03.brightness_packet(5).len(), 1025);
    assert_eq!(Kind::Akp815.brightness_packet(5).len(), 513);
}

#[test]
fn every_request_frame_has_header_and_length() {
    let kinds = [Kind::Akp153, Kind::Akp815, Kind::Akp03, Kind::Akp03RRev2, Kind::Akp05];
    for kind in kinds {
        let packets = vec![
            kind.initialize_packet(),
            kind.brightness_packet(42),
            kind.keep_alive_packet(),
            kind.sleep_packet(),
            kind.shutdown_packet(),
            kind.clear_button_image_packet(3),
            kind.flush_packet(),
            kind.image_announce_packet(4, &[1, 2, 3]),
            kind.key_image_announce_packet(4, &[1, 2, 3]),
            kind.logo_image_packet(&[1, 2, 3]),
        ];
        for p in packets {
            assert_eq!(p.len(), kind.packet_length() + 1);
            assert_eq!(&p[0..6], &[0x00, 0x43, 0x52, 0x54, 0x00, 0x00]);
        }
    }
}

#[test]
fn pad_packet_extends_with_zeros() {
    let mut buf = vec![9u8, 8, 7];
    Kind::Akp05.pad_packet(&mut buf);
    assert_eq!(buf.len(), 1025);
    assert_eq!(&buf[0..3], &[9, 8, 7]);
    assert!(buf[3..].iter().all(|b| *b == 0));
}

#[test]
fn key_image_announce_uses_v1_slot_table() {
    let p = Kind::Akp153.key_image_announce_packet(0, &[0u8; 0x0203]);
    assert_eq!(&p[6..14], &[0x42, 0x41, 0x54, 0x00, 0x00, 0x02, 0x03, 13]);
    let p = Kind::Akp03.key_image_announce_packet(2, &[0u8; 10]);
    assert_eq!(p[13], 3);
}

#[test]
fn format_request_prepends_header() {
    let r = ajazz_sdk::request::format_request(&[0x53, 0x54, 0x50]);
    assert_eq!(r, vec![0x00, 0x43, 0x52, 0x54, 0x00, 0x00, 0x53, 0x54, 0x50]);
}
