use ajazz_sdk::parser::{
    is_akp03_button_press, is_akp03_encoder_press, is_akp03_encoder_value, parse_akp03_button_press,
};
use ajazz_sdk::util::{ajazz03_read_input, read_button_states, read_encoder_input};
use ajazz_sdk::{handle_input_state_change, Ajazz, AjazzError, AjazzInput, DeviceState, Event, Kind};

fn report(code: u8) -> Vec<u8> {
    let mut data = vec![0u8; 512];
    data[0] = 1;
    data[9] = code;
    data
}

#[test]
fn empty_report_is_no_data() {
    let data = vec![0u8; 512];
    for kind in [Kind::Akp153, Kind::Akp03, Kind::Akp03E] {
        assert_eq!(kind.parse_input(&data).ok(), Some(AjazzInput::NoData));
    }
    assert!(AjazzInput::NoData.is_empty());
    assert!(!AjazzInput::EncoderTwist(vec![]).is_empty());
}

#[test]
fn v2_twist_code_selects_encoder_and_direction() {
    let r = Kind::Akp03.parse_input(&report(0x91)).ok().unwrap();
    assert_eq!(r, AjazzInput::EncoderTwist(vec![1, 0, 0]));
    let r = Kind::Akp03.parse_input(&report(0x50)).ok().unwrap();
    assert_eq!(r, AjazzInput::EncoderTwist(vec![0, -1, 0]));
    let r = Kind::Akp05.parse_input(&report(0x61)).ok().unwrap();
    assert_eq!(r, AjazzInput::EncoderTwist(vec![0, 0, 1, 0]));
}

#[test]
fn v2_button_and_press_codes() {
    let r = Kind::Akp03.parse_input(&report(3)).ok().unwrap();
    assert_eq!(r, AjazzInput::ButtonStateChange(vec![false, false, true, false, false, false, false, false, false]));
    let r = Kind::Akp03.parse_input(&report(0x31)).ok().unwrap();
    assert_eq!(r, AjazzInput::ButtonStateChange(vec![false, false, false, false, false, false, false, false, true]));
    let r = Kind::Akp03.parse_input(&report(0x25)).ok().unwrap();
    assert_eq!(r, AjazzInput::ButtonStateChange(vec![false, false, false, false, false, false, true, false, false]));
    let r = Kind::Akp03.parse_input(&report(0)).ok().unwrap();
    assert_eq!(r, AjazzInput::ButtonStateChange(vec![false; 9]));
    let r = Kind::Akp03.parse_input(&report(0x35)).ok().unwrap();
    assert_eq!(r, AjazzInput::EncoderStateChange(vec![false, true, false]));
    let r = Kind::Akp03.parse_input(&report(0x34)).ok().unwrap();
    assert_eq!(r, AjazzInput::EncoderStateChange(vec![false, false, true]));
}

#[test]
fn unknown_codes_are_bad_data() {
    assert!(matches!(Kind::Akp03.parse_input(&report(0x77)), Err(AjazzError::BadData)));
    assert!(matches!(Kind::Akp153.parse_input(&report(19)), Err(AjazzError::BadData)));
    assert!(matches!(Kind::Akp03RRev2.parse_input(&report(0x99)), Err(AjazzError::BadData)));
}

#[test]
fn v1_native_index_maps_to_logical() {
    let r = Kind::Akp153.parse_input(&report(2)).ok().unwrap();
    let mut expected = vec![false; 18];
    expected[6] = true;
    assert_eq!(r, AjazzInput::ButtonStateChange(expected));
    let r = Kind::Akp815.parse_input(&report(2)).ok().unwrap();
    let mut expected = vec![false; 15];
    expected[5] = true;
    assert_eq!(r, AjazzInput::ButtonStateChange(expected));
    let r = Kind::Akp153.parse_input(&report(0)).ok().unwrap();
    assert_eq!(r, AjazzInput::ButtonStateChange(vec![false; 18]));
}

#[test]
fn v2_bitmaps_span_the_kind_counts() {
    let r = Kind::Akp05.parse_input(&report(3)).ok().unwrap();
    let mut expected = vec![false; 10];
    expected[2] = true;
    assert_eq!(r, AjazzInput::ButtonStateChange(expected));
    let r = Kind::Akp05.parse_input(&report(0)).ok().unwrap();
    assert_eq!(r, AjazzInput::ButtonStateChange(vec![false; 10]));
    let r = Kind::Akp05.parse_input(&report(0x91)).ok().unwrap();
    assert_eq!(r, AjazzInput::EncoderTwist(vec![1, 0, 0, 0]));
    let r = Kind::Akp05.parse_input(&report(0x35)).ok().unwrap();
    assert_eq!(r, AjazzInput::EncoderStateChange(vec![false, true, false, false]));
    let r = Kind::Akp03E.parse_input(&report(0x31)).ok().unwrap();
    let mut expected = vec![false; 9];
    expected[8] = true;
    assert_eq!(r, AjazzInput::ButtonStateChange(expected));
}

#[test]
fn reader_toggles_button_state() {
    let s = Ajazz::new(Kind::Akp03);
    let mut reader = s.get_reader();
    let events = reader.read(&report(3)).ok().unwrap();
    assert_eq!(events, vec![Event::ButtonDown(2)]);
    let events = reader.read(&report(3)).ok().unwrap();
    assert_eq!(events, vec![Event::ButtonUp(2)]);
    let events = reader.read(&report(0x33)).ok().unwrap();
    assert_eq!(events, vec![Event::EncoderDown(0)]);
    let events = reader.read(&report(0x60)).ok().unwrap();
    assert_eq!(events, vec![Event::EncoderTwist(2, -1)]);
    let events = reader.read(&vec![0u8; 512]).ok().unwrap();
    assert!(events.is_empty());
    assert!(matches!(reader.read(&report(0xEE)), Err(AjazzError::BadData)));
}

#[test]
fn state_change_events_in_ascending_order() {
    let mut state = DeviceState { buttons: vec![false, true, false, true], encoders: vec![false; 2] };
    let events = handle_input_state_change(
        AjazzInput::ButtonStateChange(vec![true, true, false]),
        &mut state,
    )
    .ok()
    .unwrap();
    assert_eq!(events, vec![Event::ButtonDown(0), Event::ButtonUp(1)]);
    assert_eq!(state.buttons, vec![true, false, false, true]);
    let events = handle_input_state_change(AjazzInput::EncoderStateChange(vec![false, true]), &mut state)
        .ok()
        .unwrap();
    assert_eq!(events, vec![Event::EncoderDown(1)]);
    let events = handle_input_state_change(AjazzInput::EncoderTwist(vec![3, 0, -2]), &mut state).ok().unwrap();
    assert_eq!(events, vec![Event::EncoderTwist(0, 3), Event::EncoderTwist(2, -2)]);
    assert_eq!(state.encoders, vec![false, true]);
}

#[test]
fn akp03_code_classes() {
    assert!(is_akp03_button_press(6));
    assert!(!is_akp03_button_press(7));
    assert!(is_akp03_encoder_value(0x51));
    assert!(!is_akp03_encoder_value(0x52));
    assert!(is_akp03_encoder_press(0x35));
    assert!(!is_akp03_encoder_press(0x36));
    assert!(matches!(parse_akp03_button_press(&Kind::Akp03, 0x26), Err(AjazzError::BadData)));
}

#[test]
fn full_state_reports() {
    let mut states = vec![0u8; 20];
    assert!(read_button_states(&Kind::Akp03, &states).is_empty());
    states[0] = 1;
    states[3] = 1;
    let r = read_button_states(&Kind::Akp03, &states);
    assert_eq!(r, vec![false, false, true, false, false, false, false, false, false]);
    let data = vec![0, 0, 0, 0, 1, 0xFF, 1, 0];
    assert_eq!(read_encoder_input(&Kind::Akp03, &data).ok(), Some(AjazzInput::EncoderTwist(vec![-1, 1, 0])));
    let data = vec![0, 0, 0, 0, 0, 0, 5, 0];
    assert_eq!(read_encoder_input(&Kind::Akp03, &data).ok(), Some(AjazzInput::EncoderStateChange(vec![false, true, false])));
    let data = vec![0, 0, 0, 0, 2, 0, 5, 0];
    assert!(matches!(read_encoder_input(&Kind::Akp03, &data), Err(AjazzError::BadData)));
}

#[test]
fn ajazz03_state_codes() {
    let r = ajazz03_read_input(&Kind::Akp03, 0x30, 1).ok().unwrap();
    let mut expected = vec![false; 9];
    expected[7] = true;
    assert_eq!(r, AjazzInput::ButtonStateChange(expected));
    let r = ajazz03_read_input(&Kind::Akp03, 2, 0).ok().unwrap();
    assert_eq!(r, AjazzInput::ButtonStateChange(vec![false; 9]));
    let r = ajazz03_read_input(&Kind::Akp05, 0x90, 0).ok().unwrap();
    assert_eq!(r, AjazzInput::EncoderTwist(vec![-1, 0, 0, 0]));
    let r = ajazz03_read_input(&Kind::Akp03, 0x34, 1).ok().unwrap();
    assert_eq!(r, AjazzInput::EncoderStateChange(vec![false, false, true]));
    assert!(matches!(ajazz03_read_input(&Kind::Akp03, 0x40, 1), Err(AjazzError::BadData)));
}
