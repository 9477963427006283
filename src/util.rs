use vstd::prelude::*;
use vstd::utf8::{decode_utf8, valid_utf8};

use crate::codes;
use crate::info::Kind;
use crate::parser::{extract_string, strip_nul, v2_twist};
use crate::request::{request_frame, zeros, Request};
use crate::{AjazzError, AjazzInput, InputView};

verus! {

/// Extracts string from byte array, removing \0 symbols
pub fn extract_str(bytes: &[u8]) -> (r: Result<String, std::str::Utf8Error>)
    ensures
        r is Ok <==> valid_utf8(bytes@),
        r is Ok ==> r->Ok_0@ == strip_nul(decode_utf8(bytes@)),
{
    extract_string(bytes)
}

/// The feature report buffer that asks for the firmware version: report ID, then 20 zero bytes
pub fn firmware_version_request() -> (r: Vec<u8>)
    ensures
        r@ == seq![codes::FEATURE_REPORT_ID_VERSION] + zeros(codes::FEATURE_REPORT_VERSION_LENGTH as nat),
{
    let mut buf: Vec<u8> = Vec::new();
    buf.push(codes::FEATURE_REPORT_ID_VERSION);
    let mut i: usize = 0;
    while i < codes::FEATURE_REPORT_VERSION_LENGTH
        invariant
            i <= codes::FEATURE_REPORT_VERSION_LENGTH,
            buf@ == seq![codes::FEATURE_REPORT_ID_VERSION] + zeros(i as nat),
        decreases codes::FEATURE_REPORT_VERSION_LENGTH - i,
    {
        buf.push(0x00);
        i = i + 1;
        assert(buf@ =~= seq![codes::FEATURE_REPORT_ID_VERSION] + zeros(i as nat));
    }
    buf
}

/// Firmware version from the answered feature report: its text without NUL characters
pub fn firmware_version_from_report(report: &[u8]) -> (r: Result<String, AjazzError>)
    ensures
        r is Ok <==> valid_utf8(report@),
        r is Ok ==> r->Ok_0@ == strip_nul(decode_utf8(report@)),
        r is Err ==> r->Err_0 is Utf8Error,
{
    match extract_string(report) {
        Ok(s) => Ok(s),
        Err(e) => Err(AjazzError::Utf8Error(e)),
    }
}

/// A device string, or "Unknown" when the device reports none
pub fn string_or_unknown(s: Option<String>) -> (r: String)
    ensures
        r@ == match s {
            Some(x) => x@,
            None => "Unknown"@,
        },
{
    match s {
        Some(x) => x,
        None => "Unknown".to_string(),
    }
}

/// A serial number, or "Unknown" when the device reports none or an empty one
pub fn serial_or_unknown(s: Option<String>) -> (r: String)
    ensures
        r@ == match s {
            Some(x) => if x@.len() == 0 {
                "Unknown"@
            } else {
                x@
            },
            None => "Unknown"@,
        },
{
    match s {
        Some(x) => {
            if x.as_str().is_empty() {
                "Unknown".to_string()
            } else {
                x
            }
        },
        None => "Unknown".to_string(),
    }
}

/// Announcement frame of an image for key slot `key + 1`
pub fn mirabox_image_packet(kind: &Kind, key: u8, image_data: &[u8]) -> (r: Vec<u8>)
    requires
        key < 0xff,
    ensures
        r@ == request_frame(*kind, Request::ImageAnnounce((key + 1) as u8, image_data@.len())),
{
    kind.image_announce_packet(key + 1, image_data)
}

/// Extends buffer up to required packet length
pub fn mirabox_extend_packet(kind: &Kind, buf: &mut Vec<u8>)
    requires
        old(buf)@.len() <= kind.spec_packet_length() + 1,
    ensures
        final(buf)@ == kind.spec_pad(old(buf)@),
{
    kind.pad_packet(buf)
}

/// Button states of a full-state report: none when the report is empty, else one flag per key
/// from byte 1 on
pub fn read_button_states(kind: &Kind, states: &[u8]) -> (r: Vec<bool>)
    requires
        states@.len() >= 1,
        states@[0] != 0 ==> states@.len() > kind.spec_key_count(),
    ensures
        states@[0] == 0 ==> r@.len() == 0,
        states@[0] != 0 ==> r@ == Seq::new(kind.spec_key_count() as nat, |i: int| states@[i + 1] != 0),
{
    let mut bools: Vec<bool> = Vec::new();
    if states[0] == 0 {
        return bools;
    }
    let n = kind.key_count();
    let mut i: u8 = 0;
    while i < n
        invariant
            i <= n,
            n == kind.spec_key_count(),
            states@.len() > n,
            bools@ == Seq::new(i as nat, |j: int| states@[j + 1] != 0),
        decreases n - i,
    {
        bools.push(states[(i + 1) as usize] != 0);
        i = i + 1;
        assert(bools@ =~= Seq::new(i as nat, |j: int| states@[j + 1] != 0));
    }
    bools
}

/// Encoder input of a full-state report: byte 4 selects presses (0) or twists (1), one byte per
/// encoder from byte 5 on
pub fn read_encoder_input(kind: &Kind, data: &[u8]) -> (r: Result<AjazzInput, AjazzError>)
    requires
        data@.len() >= 5 + kind.spec_encoder_count(),
    ensures
        data@[4] == 0 ==> r is Ok && r->Ok_0@ == InputView::EncoderStateChange(
            Seq::new(kind.spec_encoder_count() as nat, |i: int| data@[i + 5] != 0),
        ),
        data@[4] == 1 ==> r is Ok && r->Ok_0@ == InputView::EncoderTwist(
            Seq::new(kind.spec_encoder_count() as nat, |i: int| data@[i + 5] as i8),
        ),
        data@[4] > 1 ==> r == Err::<AjazzInput, AjazzError>(AjazzError::BadData),
{
    let n = kind.encoder_count() as usize;
    if data[4] == 0 {
        let mut v: Vec<bool> = Vec::new();
        let mut i: usize = 0;
        while i < n
            invariant
                i <= n,
                n == kind.spec_encoder_count(),
                data@.len() >= 5 + n,
                v@ == Seq::new(i as nat, |j: int| data@[j + 5] != 0),
            decreases n - i,
        {
            v.push(data[5 + i] != 0);
            i = i + 1;
            assert(v@ =~= Seq::new(i as nat, |j: int| data@[j + 5] != 0));
        }
        Ok(AjazzInput::EncoderStateChange(v))
    } else if data[4] == 1 {
        let mut v: Vec<i8> = Vec::new();
        let mut i: usize = 0;
        while i < n
            invariant
                i <= n,
                n == kind.spec_encoder_count(),
                data@.len() >= 5 + n,
                v@ == Seq::new(i as nat, |j: int| data@[j + 5] as i8),
            decreases n - i,
        {
            v.push(data[5 + i] as i8);
            i = i + 1;
            assert(v@ =~= Seq::new(i as nat, |j: int| data@[j + 5] as i8));
        }
        Ok(AjazzInput::EncoderTwist(v))
    } else {
        Err(AjazzError::BadData)
    }
}

/// Position in the full-state button report of an AKP03 button action code
pub open spec fn ajazz03_button_slot(input: u8) -> Option<int> {
    if 1 <= input <= 6 {
        Some(input as int)
    } else if input == 0x25 {
        Some(7)
    } else if input == 0x30 {
        Some(8)
    } else if input == 0x31 {
        Some(9)
    } else {
        None
    }
}

/// Reads inputs from Ajazz AKP03x devices, `state` telling pressed (non-zero) or released
pub fn ajazz03_read_input(kind: &Kind, input: u8, state: u8) -> (r: Result<AjazzInput, AjazzError>)
    requires
        kind.spec_key_count() >= 9,
        v2_twist(input) is Some || (0x33 <= input <= 0x35) ==> kind.spec_encoder_count() >= 3,
    ensures
        (input == 0 || ajazz03_button_slot(input) is Some) ==> r is Ok && r->Ok_0@
            == InputView::ButtonStateChange(
            Seq::new(
                kind.spec_key_count() as nat,
                |j: int| input != 0 && j + 1 == ajazz03_button_slot(input)->Some_0 && state != 0,
            ),
        ),
        v2_twist(input) is Some ==> r is Ok && r->Ok_0@ == InputView::EncoderTwist(
            Seq::new(
                kind.spec_encoder_count() as nat,
                |j: int| if j == v2_twist(input)->Some_0.0 { v2_twist(input)->Some_0.1 } else { 0i8 },
            ),
        ),
        input == 0x33 ==> r is Ok && r->Ok_0@ == InputView::EncoderStateChange(
            Seq::new(kind.spec_encoder_count() as nat, |j: int| j == 0 && state != 0),
        ),
        input == 0x35 ==> r is Ok && r->Ok_0@ == InputView::EncoderStateChange(
            Seq::new(kind.spec_encoder_count() as nat, |j: int| j == 1 && state != 0),
        ),
        input == 0x34 ==> r is Ok && r->Ok_0@ == InputView::EncoderStateChange(
            Seq::new(kind.spec_encoder_count() as nat, |j: int| j == 2 && state != 0),
        ),
        !(input == 0 || ajazz03_button_slot(input) is Some || v2_twist(input) is Some || (0x33
            <= input <= 0x35)) ==> r == Err::<AjazzInput, AjazzError>(AjazzError::BadData),
{
    match input {
        0..=6 | 0x25 | 0x30 | 0x31 => ajazz03_read_button_press(kind, input, state),
        0x90 | 0x91 | 0x50 | 0x51 | 0x60 | 0x61 => ajazz03_read_encoder_value(kind, input),
        0x33..=0x35 => ajazz03_read_encoder_press(kind, input, state),
        _ => Err(AjazzError::BadData),
    }
}

/// Reads an AKP03 button action code into a button state list
pub fn ajazz03_read_button_press(kind: &Kind, input: u8, state: u8) -> (r: Result<AjazzInput, AjazzError>)
    requires
        kind.spec_key_count() >= 9,
    ensures
        (input == 0 || ajazz03_button_slot(input) is Some) ==> r is Ok && r->Ok_0@
            == InputView::ButtonStateChange(
            Seq::new(
                kind.spec_key_count() as nat,
                |j: int| input != 0 && j + 1 == ajazz03_button_slot(input)->Some_0 && state != 0,
            ),
        ),
        !(input == 0 || ajazz03_button_slot(input) is Some) ==> r == Err::<AjazzInput, AjazzError>(
            AjazzError::BadData,
        ),
{
    let n = kind.key_count();
    let mut button_states: Vec<u8> = Vec::new();
    button_states.push(0x01);
    let mut i: usize = 0;
    while i < n as usize + 1
        invariant
            i <= n + 1,
            n == kind.spec_key_count(),
            button_states@ == seq![1u8] + zeros(i as nat),
        decreases n + 1 - i,
    {
        button_states.push(0x00);
        i = i + 1;
        assert(button_states@ =~= seq![1u8] + zeros(i as nat));
    }
    if input == 0 {
        let r = read_button_states(kind, button_states.as_slice());
        assert(r@ =~= Seq::new(
            kind.spec_key_count() as nat,
            |j: int| input != 0 && j + 1 == ajazz03_button_slot(input)->Some_0 && state != 0,
        ));
        return Ok(AjazzInput::ButtonStateChange(r));
    }
    let pressed_index: usize = match input {
        1..=6 => input as usize,
        0x25 => 7,
        0x30 => 8,
        0x31 => 9,
        _ => return Err(AjazzError::BadData),
    };
    button_states.set(pressed_index, state);
    let r = read_button_states(kind, button_states.as_slice());
    assert(r@ =~= Seq::new(
        kind.spec_key_count() as nat,
        |j: int| input != 0 && j + 1 == ajazz03_button_slot(input)->Some_0 && state != 0,
    ));
    Ok(AjazzInput::ButtonStateChange(r))
}

/// Reads an AKP03 encoder twist action code
pub fn ajazz03_read_encoder_value(kind: &Kind, input: u8) -> (r: Result<AjazzInput, AjazzError>)
    requires
        v2_twist(input) is Some ==> kind.spec_encoder_count() >= 3,
    ensures
        v2_twist(input) is Some ==> r is Ok && r->Ok_0@ == InputView::EncoderTwist(
            Seq::new(
                kind.spec_encoder_count() as nat,
                |j: int| if j == v2_twist(input)->Some_0.0 { v2_twist(input)->Some_0.1 } else { 0i8 },
            ),
        ),
        v2_twist(input) is None ==> r == Err::<AjazzInput, AjazzError>(AjazzError::BadData),
{
    let (encoder, value): (usize, i8) = match input {
        0x90 => (0, -1),
        0x91 => (0, 1),
        0x50 => (1, -1),
        0x51 => (1, 1),
        0x60 => (2, -1),
        0x61 => (2, 1),
        _ => return Err(AjazzError::BadData),
    };
    let n = kind.encoder_count() as usize;
    let mut encoder_values: Vec<i8> = Vec::new();
    let mut j: usize = 0;
    while j < n
        invariant
            j <= n,
            n == kind.spec_encoder_count(),
            encoder_values@ =~= Seq::new(j as nat, |k: int| if k == encoder { value } else { 0i8 }),
        decreases n - j,
    {
        encoder_values.push(if j == encoder { value } else { 0 });
        j = j + 1;
    }
    assert(encoder_values@ =~= Seq::new(
        kind.spec_encoder_count() as nat,
        |k: int| if k == v2_twist(input)->Some_0.0 { v2_twist(input)->Some_0.1 } else { 0i8 },
    ));
    Ok(AjazzInput::EncoderTwist(encoder_values))
}

/// Reads an AKP03 encoder press action code, `state` telling pressed (non-zero) or released
pub fn ajazz03_read_encoder_press(kind: &Kind, input: u8, state: u8) -> (r: Result<AjazzInput, AjazzError>)
    requires
        0x33 <= input <= 0x35 ==> kind.spec_encoder_count() >= 3,
    ensures
        input == 0x33 ==> r is Ok && r->Ok_0@ == InputView::EncoderStateChange(
            Seq::new(kind.spec_encoder_count() as nat, |j: int| j == 0 && state != 0),
        ),
        input == 0x35 ==> r is Ok && r->Ok_0@ == InputView::EncoderStateChange(
            Seq::new(kind.spec_encoder_count() as nat, |j: int| j == 1 && state != 0),
        ),
        input == 0x34 ==> r is Ok && r->Ok_0@ == InputView::EncoderStateChange(
            Seq::new(kind.spec_encoder_count() as nat, |j: int| j == 2 && state != 0),
        ),
        !(0x33 <= input <= 0x35) ==> r == Err::<AjazzInput, AjazzError>(AjazzError::BadData),
{
    let encoder: usize = match input {
        0x33 => 0,
        0x35 => 1,
        0x34 => 2,
        _ => return Err(AjazzError::BadData),
    };
    let n = kind.encoder_count() as usize;
    let mut encoder_states: Vec<bool> = Vec::new();
    let mut j: usize = 0;
    while j < n
        invariant
            j <= n,
            encoder_states@ =~= Seq::new(j as nat, |k: int| k == encoder && state != 0),
        decreases n - j,
    {
        encoder_states.push(j == encoder && state != 0);
        j = j + 1;
    }
    Ok(AjazzInput::EncoderStateChange(encoder_states))
}

} // verus!
