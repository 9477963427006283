use vstd::prelude::*;
use vstd::utf8::{decode_utf8, valid_utf8};

use crate::codes;
use crate::info::Kind;
use crate::{AjazzError, AjazzInput, InputView};

verus! {

/// Native-to-logical key table of the AKP153 family, the inverse of its logical-to-native table
pub open spec fn akp153_logical_keys() -> Seq<u8> {
    seq![0u8, 6, 12, 1, 7, 13, 2, 8, 14, 3, 9, 15, 4, 10, 16, 5, 11, 17]
}

/// Native-to-logical key table of the AKP815, the inverse of its logical-to-native table
pub open spec fn akp815_logical_keys() -> Seq<u8> {
    seq![0u8, 5, 10, 1, 6, 11, 2, 7, 12, 3, 8, 13, 4, 9, 14]
}

/// Slot that v1 devices expect in the clear command for a native key
pub open spec fn v1_clear_slots() -> Seq<u8> {
    seq![4u8, 10, 16, 3, 9, 15, 2, 8, 14, 1, 7, 13, 0, 6, 12, 5, 11, 17]
}

/// Slot that v1 devices expect in an image announcement for a native key
pub open spec fn v1_announce_slots() -> Seq<u8> {
    seq![12u8, 9, 6, 3, 0, 15, 13, 10, 7, 4, 1, 16, 14, 11, 8, 5, 2, 17]
}

/// `n` flags, all clear
pub open spec fn no_flags(n: nat) -> Seq<bool> {
    Seq::new(n, |_j: int| false)
}

/// `n` flags, only position `i` set
pub open spec fn one_flag(n: nat, i: int) -> Seq<bool> {
    Seq::new(n, |j: int| j == i)
}

/// Twist deltas for `n` encoders, only encoder `e` moved by `delta`
pub open spec fn one_twist(n: nat, e: int, delta: i8) -> Seq<i8> {
    Seq::new(n, |j: int| if j == e { delta } else { 0i8 })
}

/// Position in the button bitmap of a v2 button action code
pub open spec fn v2_button_position(code: u8) -> Option<int> {
    if 1 <= code <= 6 {
        Some(code - 1)
    } else if code == codes::ACTION_CODE_BUTTON_7 {
        Some(6)
    } else if code == codes::ACTION_CODE_BUTTON_8 {
        Some(7)
    } else if code == codes::ACTION_CODE_BUTTON_9 {
        Some(8)
    } else {
        None
    }
}

/// Encoder and delta of a v2 twist action code
pub open spec fn v2_twist(code: u8) -> Option<(int, i8)> {
    if code == codes::ACTION_CODE_ENCODER_0_CCW {
        Some((0, -1i8))
    } else if code == codes::ACTION_CODE_ENCODER_0_CW {
        Some((0, 1i8))
    } else if code == codes::ACTION_CODE_ENCODER_1_CCW {
        Some((1, -1i8))
    } else if code == codes::ACTION_CODE_ENCODER_1_CW {
        Some((1, 1i8))
    } else if code == codes::ACTION_CODE_ENCODER_2_CCW {
        Some((2, -1i8))
    } else if code == codes::ACTION_CODE_ENCODER_2_CW {
        Some((2, 1i8))
    } else {
        None
    }
}

/// Encoder of a v2 encoder-press action code
pub open spec fn v2_press(code: u8) -> Option<int> {
    if code == codes::ACTION_CODE_ENCODER_0_PRESS {
        Some(0)
    } else if code == codes::ACTION_CODE_ENCODER_1_PRESS {
        Some(1)
    } else if code == codes::ACTION_CODE_ENCODER_2_PRESS {
        Some(2)
    } else {
        None
    }
}

/// What a v2 action code means on a kind: bitmaps over its keys and over its encoders
pub open spec fn spec_parse_v2(kind: Kind, code: u8) -> Result<InputView, AjazzError> {
    let keys = kind.spec_key_count() as nat;
    let encoders = kind.spec_encoder_count() as nat;
    if code == codes::ACTION_CODE_NOP {
        Ok(InputView::ButtonStateChange(no_flags(keys)))
    } else if v2_button_position(code) is Some {
        Ok(InputView::ButtonStateChange(one_flag(keys, v2_button_position(code)->Some_0)))
    } else if v2_twist(code) is Some {
        Ok(InputView::EncoderTwist(one_twist(encoders, v2_twist(code)->Some_0.0, v2_twist(code)->Some_0.1)))
    } else if v2_press(code) is Some {
        Ok(InputView::EncoderStateChange(one_flag(encoders, v2_press(code)->Some_0)))
    } else {
        Err(AjazzError::BadData)
    }
}

/// The characters of `s` without the NUL characters
pub open spec fn strip_nul(s: Seq<char>) -> Seq<char>
    decreases s.len(),
{
    if s.len() == 0 {
        s
    } else if s.last() == '\0' {
        strip_nul(s.drop_last())
    } else {
        strip_nul(s.drop_last()).push(s.last())
    }
}

/// A parse result agrees with its model
pub open spec fn input_result_is(r: Result<AjazzInput, AjazzError>, s: Result<InputView, AjazzError>) -> bool {
    match r {
        Ok(i) => s is Ok && i@ == s->Ok_0,
        Err(e) => s == Err::<InputView, AjazzError>(e),
    }
}

/// Relies on std::str::from_utf8: it succeeds exactly on valid UTF-8 and then views the decoded characters.
#[verifier::external_body]
fn str_from_utf8(bytes: &[u8]) -> (r: Result<&str, std::str::Utf8Error>)
    ensures
        r is Ok <==> valid_utf8(bytes@),
        r is Ok ==> r->Ok_0@ == decode_utf8(bytes@),
{
    std::str::from_utf8(bytes)
}

/// Removes every NUL character from `s`
pub fn strip_nul_chars(s: &str) -> (r: String)
    ensures
        r@ == strip_nul(s@),
{
    let n = s.unicode_len();
    let mut out = String::new();
    let mut i: usize = 0;
    while i < n
        invariant
            n == s@.len(),
            i <= n,
            out@ == strip_nul(s@.take(i as int)),
        decreases n - i,
    {
        let c = s.get_char(i);
        if c != '\0' {
            out.append(s.substring_char(i, i + 1));
        }
        assert(s@.take(i + 1).drop_last() =~= s@.take(i as int));
        i = i + 1;
        assert(out@ =~= strip_nul(s@.take(i as int)));
    }
    assert(s@.take(n as int) =~= s@);
    out
}

/// Extracts string from byte array, removing \0 symbols
pub fn extract_string(bytes: &[u8]) -> (r: Result<String, std::str::Utf8Error>)
    ensures
        r is Ok <==> valid_utf8(bytes@),
        r is Ok ==> r->Ok_0@ == strip_nul(decode_utf8(bytes@)),
{
    match str_from_utf8(bytes) {
        Ok(s) => Ok(strip_nul_chars(s)),
        Err(e) => Err(e),
    }
}

impl Kind {
    /// Logical index of a native key (v1 devices): the inverse of the logical-to-native table
    pub open spec fn spec_index_from_native_v1(self, i: u8) -> Option<u8> {
        if i >= self.spec_key_count() || !self.spec_is_v1_api() {
            None
        } else if self is Akp815 {
            Some(akp815_logical_keys()[i as int])
        } else {
            Some(akp153_logical_keys()[i as int])
        }
    }

    /// Native index of a logical key (v1 devices); keys past the key count stay as they are
    pub open spec fn spec_index_to_native_v1(self, key: u8) -> Option<u8> {
        if !self.spec_is_v1_api() {
            None
        } else if key < self.spec_key_count() {
            Some(self.spec_device_key(key))
        } else {
            Some(key)
        }
    }

    /// Slot that the clear command carries for a native key on v1 devices
    pub open spec fn spec_clear_slot_v1(self, i: u8) -> Option<u8> {
        if i >= self.spec_key_count() || !self.spec_is_v1_api() {
            None
        } else if self is Akp815 {
            Some((self.spec_key_count() - 1 - i) as u8)
        } else {
            Some(v1_clear_slots()[i as int])
        }
    }

    /// Slot that an image announcement carries for a native key on v1 devices
    pub open spec fn spec_announce_slot_v1(self, key: u8) -> Option<u8> {
        if !self.spec_is_v1_api() {
            None
        } else if key < self.spec_key_count() {
            Some(v1_announce_slots()[key as int])
        } else {
            Some(key)
        }
    }

    /// Slot number carried by the image announcement of a native key
    pub open spec fn spec_key_image_slot(self, key: u8) -> u8 {
        let index = match self.spec_announce_slot_v1(key) {
            Some(i) => i,
            None => key,
        };
        (index + 1) as u8
    }

    /// What an input report means
    pub open spec fn spec_parse_input(self, data: Seq<u8>) -> Result<InputView, AjazzError> {
        let code = data[codes::OFFSET_ACTION_CODE as int];
        if data[codes::OFFSET_DATA_LENGTH as int] == 0 {
            Ok(InputView::NoData)
        } else if self.spec_is_v1_api() {
            if code == codes::ACTION_CODE_NOP {
                Ok(InputView::ButtonStateChange(no_flags(self.spec_key_count() as nat)))
            } else {
                match self.spec_index_from_native_v1((code - 1) as u8) {
                    Some(index) => Ok(
                        InputView::ButtonStateChange(
                            one_flag(self.spec_key_count() as nat, index as int),
                        ),
                    ),
                    None => Err(AjazzError::BadData),
                }
            }
        } else {
            spec_parse_v2(self, code)
        }
    }

    /// Converts native key index to logical key index (v1 devices)
    pub fn index_from_native_v1(&self, i: u8) -> (r: Option<u8>)
        ensures
            r == self.spec_index_from_native_v1(i),
    {
        if i >= self.key_count() || !self.is_v1_api() {
            return None;
        }
        match self {
            Kind::Akp815 => {
                let table: [u8; 15] = [0, 5, 10, 1, 6, 11, 2, 7, 12, 3, 8, 13, 4, 9, 14];
                assert(table@ == akp815_logical_keys());
                Some(table[i as usize])
            },
            _ => {
                let table: [u8; 18] = [0, 6, 12, 1, 7, 13, 2, 8, 14, 3, 9, 15, 4, 10, 16, 5, 11, 17];
                assert(table@ == akp153_logical_keys());
                Some(table[i as usize])
            },
        }
    }

    /// Converts logical key index to native key index (v1 devices)
    pub fn index_to_native_v1(&self, key: u8) -> (r: Option<u8>)
        ensures
            r == self.spec_index_to_native_v1(key),
    {
        if self.is_v1_api() {
            if key < self.key_count() {
                match self.opendeck_to_device_key(key) {
                    Ok(k) => Some(k),
                    Err(_) => Some(key),
                }
            } else {
                Some(key)
            }
        } else {
            None
        }
    }

    /// Slot that the clear command carries for a native key (v1 devices)
    pub fn clear_slot_v1(&self, i: u8) -> (r: Option<u8>)
        ensures
            r == self.spec_clear_slot_v1(i),
    {
        if i >= self.key_count() || !self.is_v1_api() {
            return None;
        }
        match self {
            Kind::Akp815 => Some(self.key_count() - 1 - i),
            _ => {
                let table: [u8; 18] = [4, 10, 16, 3, 9, 15, 2, 8, 14, 1, 7, 13, 0, 6, 12, 5, 11, 17];
                assert(table@ == v1_clear_slots());
                Some(table[i as usize])
            },
        }
    }

    /// Slot that an image announcement carries for a native key (v1 devices)
    pub fn announce_slot_v1(&self, key: u8) -> (r: Option<u8>)
        ensures
            r == self.spec_announce_slot_v1(key),
    {
        if self.is_v1_api() {
            if key < self.key_count() {
                let table: [u8; 18] = [12, 9, 6, 3, 0, 15, 13, 10, 7, 4, 1, 16, 14, 11, 8, 5, 2, 17];
                assert(table@ == v1_announce_slots());
                Some(table[key as usize])
            } else {
                Some(key)
            }
        } else {
            None
        }
    }

    /// Whether a response frame starts with the `ACK\0\0OK` literal
    pub fn is_ack_ok(&self, data: &[u8]) -> (r: bool)
        ensures
            r == is_ack(data@),
    {
        if data.len() < 7 {
            return false;
        }
        let ok = data[0] == 0x41 && data[1] == 0x43 && data[2] == 0x4b && data[3] == 0x00
            && data[4] == 0x00 && data[5] == 0x4f && data[6] == 0x4b;
        assert(ok == (data@.subrange(0, 7) =~= ack_prefix()));
        ok
    }

    /// Parses an input report
    pub fn parse_input(&self, data: &[u8]) -> (r: Result<AjazzInput, AjazzError>)
        requires
            data@.len() > codes::OFFSET_ACTION_CODE,
        ensures
            input_result_is(r, self.spec_parse_input(data@)),
    {
        if data[codes::OFFSET_DATA_LENGTH] == 0 {
            return Ok(AjazzInput::NoData);
        }
        let action_code = data[codes::OFFSET_ACTION_CODE];
        if self.is_v1_api() {
            let n = self.key_count() as usize;
            if action_code == codes::ACTION_CODE_NOP {
                let none = flags(n, n);
                assert(none@ =~= no_flags(n as nat));
                return Ok(AjazzInput::ButtonStateChange(none));
            }
            match self.index_from_native_v1(action_code - 1) {
                Some(index) => Ok(AjazzInput::ButtonStateChange(flags(n, index as usize))),
                None => Err(AjazzError::BadData),
            }
        } else if action_code == codes::ACTION_CODE_NOP || is_akp03_button_press(action_code) {
            parse_akp03_button_press(self, action_code)
        } else if is_akp03_encoder_value(action_code) {
            parse_akp03_encoder_value(self, action_code)
        } else if is_akp03_encoder_press(action_code) {
            parse_akp03_encoder_press(self, action_code)
        } else {
            Err(AjazzError::BadData)
        }
    }
}

/// On v1 devices, translating a display key to its native index and back gives the key again.
pub proof fn lemma_logical_native_round_trip(kind: Kind, key: u8)
    requires
        kind.spec_is_v1_api(),
        key < kind.spec_display_key_count(),
    ensures
        kind.spec_index_from_native_v1(kind.spec_device_key(key)) == Some(key),
{
}

/// On v1 devices, logical-to-native is a permutation of the keys: each key maps below the key
/// count, and reading the native index back gives the key again.
pub proof fn lemma_native_permutation(kind: Kind, key: u8)
    requires
        kind.spec_is_v1_api(),
        key < kind.spec_key_count(),
    ensures
        kind.spec_index_to_native_v1(key) is Some,
        kind.spec_index_to_native_v1(key)->Some_0 < kind.spec_key_count(),
        kind.spec_index_from_native_v1(kind.spec_index_to_native_v1(key)->Some_0) == Some(key),
{
}

/// The acknowledgement literal `ACK\0\0OK`
pub open spec fn ack_prefix() -> Seq<u8> {
    seq![0x41u8, 0x43, 0x4b, 0x00, 0x00, 0x4f, 0x4b]
}

/// Whether a response starts with the acknowledgement literal
pub open spec fn is_ack(data: Seq<u8>) -> bool {
    data.len() >= 7 && data.subrange(0, 7) == ack_prefix()
}

/// `n` flags with only position `set` raised (none when `set >= n`)
fn flags(n: usize, set: usize) -> (r: Vec<bool>)
    ensures
        r@ == one_flag(n as nat, set as int),
{
    let mut v: Vec<bool> = Vec::new();
    let mut j: usize = 0;
    while j < n
        invariant
            j <= n,
            v@ == one_flag(j as nat, set as int),
        decreases n - j,
    {
        v.push(j == set);
        j = j + 1;
        assert(v@ =~= one_flag(j as nat, set as int));
    }
    v
}

/// Parses a v2 button action code into a bitmap over the kind's keys (0 clears every button)
pub fn parse_akp03_button_press(kind: &Kind, input: u8) -> (r: Result<AjazzInput, AjazzError>)
    ensures
        input_result_is(
            r,
            if input == codes::ACTION_CODE_NOP {
                Ok(InputView::ButtonStateChange(no_flags(kind.spec_key_count() as nat)))
            } else {
                match v2_button_position(input) {
                    Some(p) => Ok(InputView::ButtonStateChange(one_flag(kind.spec_key_count() as nat, p))),
                    None => Err(AjazzError::BadData),
                }
            },
        ),
{
    let n: usize = kind.key_count() as usize;
    if input == codes::ACTION_CODE_NOP {
        let r = flags(n, n);
        assert(r@ =~= no_flags(n as nat));
        return Ok(AjazzInput::ButtonStateChange(r));
    }
    let pressed_index: usize = match input {
        1..=6 => input as usize,
        codes::ACTION_CODE_BUTTON_7 => 7,
        codes::ACTION_CODE_BUTTON_8 => 8,
        codes::ACTION_CODE_BUTTON_9 => 9,
        _ => return Err(AjazzError::BadData),
    };
    Ok(AjazzInput::ButtonStateChange(flags(n, pressed_index - 1)))
}

/// Parses a v2 encoder twist action code into deltas over the kind's encoders
pub fn parse_akp03_encoder_value(kind: &Kind, input: u8) -> (r: Result<AjazzInput, AjazzError>)
    ensures
        input_result_is(
            r,
            match v2_twist(input) {
                Some(t) => Ok(InputView::EncoderTwist(one_twist(kind.spec_encoder_count() as nat, t.0, t.1))),
                None => Err(AjazzError::BadData),
            },
        ),
{
    let (encoder, value): (usize, i8) = match input {
        codes::ACTION_CODE_ENCODER_0_CCW => (0, -1),
        codes::ACTION_CODE_ENCODER_0_CW => (0, 1),
        codes::ACTION_CODE_ENCODER_1_CCW => (1, -1),
        codes::ACTION_CODE_ENCODER_1_CW => (1, 1),
        codes::ACTION_CODE_ENCODER_2_CCW => (2, -1),
        codes::ACTION_CODE_ENCODER_2_CW => (2, 1),
        _ => return Err(AjazzError::BadData),
    };
    let n: usize = kind.encoder_count() as usize;
    let mut encoder_values: Vec<i8> = Vec::new();
    let mut j: usize = 0;
    while j < n
        invariant
            j <= n,
            encoder_values@ =~= Seq::new(j as nat, |k: int| if k == encoder { value } else { 0i8 }),
        decreases n - j,
    {
        encoder_values.push(if j == encoder { value } else { 0 });
        j = j + 1;
    }
    assert(encoder_values@ =~= one_twist(n as nat, encoder as int, value));
    Ok(AjazzInput::EncoderTwist(encoder_values))
}

/// Parses a v2 encoder press action code into a bitmap over the kind's encoders
pub fn parse_akp03_encoder_press(kind: &Kind, input: u8) -> (r: Result<AjazzInput, AjazzError>)
    ensures
        input_result_is(
            r,
            match v2_press(input) {
                Some(e) => Ok(InputView::EncoderStateChange(one_flag(kind.spec_encoder_count() as nat, e))),
                None => Err(AjazzError::BadData),
            },
        ),
{
    let encoder: usize = match input {
        codes::ACTION_CODE_ENCODER_0_PRESS => 0,
        codes::ACTION_CODE_ENCODER_1_PRESS => 1,
        codes::ACTION_CODE_ENCODER_2_PRESS => 2,
        _ => return Err(AjazzError::BadData),
    };
    Ok(AjazzInput::EncoderStateChange(flags(kind.encoder_count() as usize, encoder)))
}

/// Whether a v2 action code is an encoder twist
pub fn is_akp03_encoder_value(input: u8) -> (r: bool)
    ensures
        r == (v2_twist(input) is Some),
{
    matches!(
        input,
        codes::ACTION_CODE_ENCODER_0_CCW | codes::ACTION_CODE_ENCODER_0_CW
            | codes::ACTION_CODE_ENCODER_1_CCW | codes::ACTION_CODE_ENCODER_1_CW
            | codes::ACTION_CODE_ENCODER_2_CCW | codes::ACTION_CODE_ENCODER_2_CW
    )
}

/// Whether a v2 action code is an encoder press
pub fn is_akp03_encoder_press(input: u8) -> (r: bool)
    ensures
        r == (v2_press(input) is Some),
{
    matches!(
        input,
        codes::ACTION_CODE_ENCODER_0_PRESS | codes::ACTION_CODE_ENCODER_1_PRESS
            | codes::ACTION_CODE_ENCODER_2_PRESS
    )
}

/// Whether a v2 action code is a button press
pub fn is_akp03_button_press(input: u8) -> (r: bool)
    ensures
        r == (v2_button_position(input) is Some),
{
    matches!(
        input,
        1..=6 | codes::ACTION_CODE_BUTTON_7 | codes::ACTION_CODE_BUTTON_8
            | codes::ACTION_CODE_BUTTON_9
    )
}

} // verus!
