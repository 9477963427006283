use ajazz_sdk::util::{extract_str, firmware_version_from_report, firmware_version_request, mirabox_extend_packet, mirabox_image_packet, serial_or_unknown, string_or_unknown};
use ajazz_sdk::{extract_string, get_product_name, is_mirabox_vendor, select_devices, AjazzError, HidEntry, ImageFormat, ImageMirroring, ImageMode, ImageRotation, Kind, WriteImageParameters};

const KINDS: [Kind; 9] = [
    Kind::Akp153,
    Kind::Akp153E,
    Kind::Akp153R,
    Kind::Akp815,
    Kind::Akp03,
    Kind::Akp03E,
    Kind::Akp03R,
    Kind::Akp03RRev2,
    Kind::Akp05,
];

#[test]
fn vid_pid_round_trip() {
    for kind in KINDS {
        assert_eq!(Kind::from_vid_pid(kind.vendor_id(), kind.product_id()), Some(kind));
        assert!(is_mirabox_vendor(kind.vendor_id()));
    }
    assert_eq!(Kind::from_vid_pid(0x5548, 0x1010), None);
    assert_eq!(Kind::from_vid_pid(0x1234, 0x6674), None);
    assert_eq!(Kind::from_vid_pid(0x0300, 0x3004), Some(Kind::Akp05));
    assert!(!is_mirabox_vendor(0x0301));
}

#[test]
fn counts_and_layout() {
    assert_eq!(Kind::Akp153.key_count(), 18);
    assert_eq!(Kind::Akp153.display_key_count(), 18);
    assert_eq!(Kind::Akp03.key_count(), 9);
    assert_eq!(Kind::Akp03.display_key_count(), 6);
    assert_eq!(Kind::Akp05.encoder_count(), 4);
    assert_eq!(Kind::Akp05.touchpoint_count(), 6);
    assert_eq!(Kind::Akp815.touchpoint_count(), 0);
    assert_eq!(Kind::Akp815.key_layout(), (5, 3));
    assert_eq!(Kind::Akp03R.key_layout(), (2, 3));
    assert_eq!(Kind::Akp05.column_count(), 5);
    assert_eq!(Kind::Akp153.lcd_strip_size(), Some((854, 480)));
    assert_eq!(Kind::Akp03.lcd_strip_size(), None);
    assert_eq!(Kind::Akp05.boot_logo_size(), Some((800, 100)));
    assert!(Kind::Akp153E.is_v1_api() && !Kind::Akp153E.is_v2_api());
    for kind in KINDS {
        assert!(kind.is_v1_api() != kind.is_v2_api());
    }
    assert!(Kind::Akp03R.is_v2_api());
    assert_eq!(Kind::Akp05.packet_length(), 1024);
    assert_eq!(Kind::Akp03E.packet_length(), 1024);
    assert_eq!(Kind::Akp815.packet_length(), 512);
}

#[test]
fn image_formats() {
    let f = Kind::Akp153.key_image_format();
    assert_eq!(f.size, (85, 85));
    assert_eq!(f.rotation, ImageRotation::Rot90);
    assert_eq!(f.mirror, ImageMirroring::Both);
    assert_eq!(f.mode, ImageMode::JPEG);
    assert_eq!(Kind::Akp03RRev2.key_image_format().size, (64, 64));
    let f = Kind::Akp03.logo_image_format();
    assert_eq!(f.size, (240, 320));
    assert_eq!(f.rotation, ImageRotation::Rot90);
    let f = Kind::Akp05.lcd_image_format().unwrap();
    assert_eq!(f.size, (800, 100));
    assert_eq!(f.rotation, ImageRotation::Rot180);
    assert!(Kind::Akp153.lcd_image_format().is_none());
    let d = ImageFormat::default();
    assert_eq!(d.mode, ImageMode::NoImage);
    assert_eq!(d.size, (0, 0));
    assert_eq!(d.mirror, ImageMirroring::NoMirror);
}

#[test]
fn logical_to_native_keys() {
    assert_eq!(Kind::Akp153.opendeck_to_device_key(0).ok(), Some(0));
    assert_eq!(Kind::Akp153.opendeck_to_device_key(1).ok(), Some(3));
    assert_eq!(Kind::Akp153.opendeck_to_device_key(17).ok(), Some(17));
    assert_eq!(Kind::Akp815.opendeck_to_device_key(5).ok(), Some(1));
    assert_eq!(Kind::Akp05.opendeck_to_device_key(0).ok(), Some(10));
    assert_eq!(Kind::Akp03.opendeck_to_device_key(5).ok(), Some(5));
    assert!(matches!(Kind::Akp03.opendeck_to_device_key(6), Err(AjazzError::InvalidKeyIndex(6))));
    assert!(matches!(Kind::Akp153.opendeck_to_device_key(18), Err(AjazzError::InvalidKeyIndex(18))));
}

#[test]
fn native_to_logical_inverts_logical_to_native() {
    for kind in [Kind::Akp153, Kind::Akp153E, Kind::Akp153R, Kind::Akp815] {
        let n = kind.key_count();
        let mut seen = vec![false; n as usize];
        for key in 0..kind.display_key_count() {
            let native = kind.opendeck_to_device_key(key).ok().unwrap();
            assert_eq!(kind.index_from_native_v1(native), Some(key));
            let slot = kind.index_to_native_v1(key).unwrap();
            assert_eq!(slot, native);
            assert!(slot < n);
            assert!(!seen[slot as usize]);
            seen[slot as usize] = true;
        }
    }
    assert_eq!(Kind::Akp153.index_from_native_v1(3), Some(1));
    assert_eq!(Kind::Akp815.index_from_native_v1(1), Some(5));
    assert_eq!(Kind::Akp03.index_to_native_v1(1), None);
    assert_eq!(Kind::Akp03.index_from_native_v1(1), None);
    assert_eq!(Kind::Akp153.index_from_native_v1(18), None);
}

#[test]
fn wire_slots_of_v1_commands() {
    assert_eq!(Kind::Akp153.clear_slot_v1(0), Some(4));
    assert_eq!(Kind::Akp815.clear_slot_v1(0), Some(14));
    assert_eq!(Kind::Akp153.announce_slot_v1(0), Some(12));
    assert_eq!(Kind::Akp05.announce_slot_v1(0), None);
}

#[test]
fn ack_prefix() {
    let mut ack = vec![0x41, 0x43, 0x4b, 0x00, 0x00, 0x4f, 0x4b];
    assert!(Kind::Akp03.is_ack_ok(&ack));
    ack[6] = 0;
    assert!(!Kind::Akp03.is_ack_ok(&ack));
    assert!(!Kind::Akp03.is_ack_ok(&ack[0..5]));
}

#[test]
fn product_names() {
    assert_eq!(get_product_name(&Kind::Akp03RRev2), "Ajazz AKP03R rev 2");
    assert_eq!(get_product_name(&Kind::Akp153), "Ajazz AKP153");
}

#[test]
fn strings_without_nul() {
    assert_eq!(extract_string(b"v1.2\0\0\0").ok(), Some("v1.2".to_string()));
    assert_eq!(extract_str(b"\0a\0b").ok(), Some("ab".to_string()));
    assert_eq!(extract_string("é\0".as_bytes()).ok(), Some("é".to_string()));
    assert!(extract_string(&[0xC3, 0x00, 0xA9]).is_err());
    let mut report = firmware_version_request();
    assert_eq!(report.len(), 21);
    assert_eq!(report[0], 1);
    report[1] = b'3';
    report[2] = b'.';
    report[3] = b'1';
    assert_eq!(firmware_version_from_report(&report).ok(), Some("\u{1}3.1".to_string()));
    assert!(matches!(firmware_version_from_report(&[0xFF]), Err(AjazzError::Utf8Error(_))));
}

#[test]
fn unknown_strings() {
    assert_eq!(string_or_unknown(None), "Unknown");
    assert_eq!(string_or_unknown(Some("Ajazz".to_string())), "Ajazz");
    assert_eq!(serial_or_unknown(Some(String::new())), "Unknown");
    assert_eq!(serial_or_unknown(Some("X1".to_string())), "X1");
    assert_eq!(serial_or_unknown(None), "Unknown");
}

#[test]
fn device_list_selection() {
    let entries = vec![
        HidEntry { vendor_id: 0x5548, product_id: 0x6674, serial_number: Some("A".to_string()) },
        HidEntry { vendor_id: 0x0300, product_id: 0x1001, serial_number: Some("B".to_string()) },
        HidEntry { vendor_id: 0x5548, product_id: 0x6674, serial_number: Some("A".to_string()) },
        HidEntry { vendor_id: 0x0300, product_id: 0x9999, serial_number: Some("C".to_string()) },
        HidEntry { vendor_id: 0x1234, product_id: 0x6674, serial_number: Some("D".to_string()) },
        HidEntry { vendor_id: 0x0300, product_id: 0x3004, serial_number: None },
    ];
    let r = select_devices(&entries);
    assert_eq!(r, vec![(Kind::Akp153, "A".to_string()), (Kind::Akp03, "B".to_string())]);
}

#[test]
fn write_parameters_per_kind() {
    let p = WriteImageParameters::for_kind(Kind::Akp815);
    assert_eq!((p.image_report_length, p.image_report_payload_length), (513, 512));
    let p = WriteImageParameters::for_kind(Kind::Akp05);
    assert_eq!((p.image_report_length, p.image_report_payload_length), (1025, 1024));
    let p = WriteImageParameters::for_kind(Kind::Akp03E);
    assert_eq!((p.image_report_length, p.image_report_payload_length), (1025, 1024));
}

#[test]
fn image_reports_chunking() {
    let data: Vec<u8> = (0..1000u32).map(|i| (i % 251) as u8 + 1).collect();
    let r = ajazz_sdk::device::image_data_reports(&data, WriteImageParameters::for_kind(Kind::Akp153));
    assert_eq!(r.len(), 2);
    assert_eq!(r[0][0], 0);
    assert_eq!(&r[0][1..513], &data[0..512]);
    assert_eq!(&r[1][1..489], &data[512..1000]);
    assert!(r[1][489..].iter().all(|b| *b == 0));
    assert!(ajazz_sdk::device::image_data_reports(&[], WriteImageParameters::for_kind(Kind::Akp153)).is_empty());
}

#[test]
fn mirabox_helpers() {
    let p = mirabox_image_packet(&Kind::Akp03, 4, &[0u8; 300]);
    assert_eq!(p, Kind::Akp03.image_announce_packet(5, &[0u8; 300]));
    assert_eq!(&p[11..14], &[0x01, 0x2C, 5]);
    let mut buf = vec![1u8];
    mirabox_extend_packet(&Kind::Akp815, &mut buf);
    assert_eq!(buf.len(), 513);
}
