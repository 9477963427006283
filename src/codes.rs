use vstd::prelude::*;

verus! {

/// Feature report ID for firmware version
pub const FEATURE_REPORT_ID_VERSION: u8 = 0x01;

/// Length of the firmware version feature report, without its report ID
pub const FEATURE_REPORT_VERSION_LENGTH: usize = 20;

/// A Mirabox v1 vendor ID
pub const VENDOR_ID_MIRABOX_V1: u16 = 0x5548;

/// A Mirabox v2 vendor ID
pub const VENDOR_ID_MIRABOX_V2: u16 = 0x0300;

/// Product ID of Ajazz AKP153
pub const PID_AJAZZ_AKP153: u16 = 0x6674;

/// Product ID of Ajazz AKP815
pub const PID_AJAZZ_AKP815: u16 = 0x6672;

/// Product ID of Ajazz AKP153E
pub const PID_AJAZZ_AKP153E: u16 = 0x1010;

/// Product ID of Ajazz AKP153R
pub const PID_AJAZZ_AKP153R: u16 = 0x1020;

/// Product ID of Ajazz AKP03
pub const PID_AJAZZ_AKP03: u16 = 0x1001;

/// Product ID of Ajazz AKP03E
pub const PID_AJAZZ_AKP03E: u16 = 0x3002;

/// Product ID of Ajazz AKP03R
pub const PID_AJAZZ_AKP03R: u16 = 0x1003;

/// Product ID of Ajazz AKP03R rev 2
pub const PID_AJAZZ_AKP03R_REV2: u16 = 0x3003;

/// Product ID of Ajazz AKP05
pub const PID_AJAZZ_AKP05: u16 = 0x3004;

/// Offset of the action code in the input data
pub const OFFSET_ACTION_CODE: usize = 9;

/// Offset of the "has data" flag in the input data
pub const OFFSET_DATA_LENGTH: usize = 0;

/// Length of the input packet
pub const INPUT_PACKET_LENGTH: usize = 512;

/// Length of the acknowledgement frame read after a logo or LCD stream
pub const ACK_PACKET_LENGTH: usize = 512;

/// Action code for no operation
pub const ACTION_CODE_NOP: u8 = 0x00;

/// Action code for button 7
pub const ACTION_CODE_BUTTON_7: u8 = 0x25;

/// Action code for button 8
pub const ACTION_CODE_BUTTON_8: u8 = 0x30;

/// Action code for button 9
pub const ACTION_CODE_BUTTON_9: u8 = 0x31;

/// Action code for encoder 0 counter-clockwise
pub const ACTION_CODE_ENCODER_0_CCW: u8 = 0x90;

/// Action code for encoder 0 clockwise
pub const ACTION_CODE_ENCODER_0_CW: u8 = 0x91;

/// Action code for encoder 1 counter-clockwise
pub const ACTION_CODE_ENCODER_1_CCW: u8 = 0x50;

/// Action code for encoder 1 clockwise
pub const ACTION_CODE_ENCODER_1_CW: u8 = 0x51;

/// Action code for encoder 2 counter-clockwise
pub const ACTION_CODE_ENCODER_2_CCW: u8 = 0x60;

/// Action code for encoder 2 clockwise
pub const ACTION_CODE_ENCODER_2_CW: u8 = 0x61;

/// Action code for encoder 0 press
pub const ACTION_CODE_ENCODER_0_PRESS: u8 = 0x33;

/// Action code for encoder 1 press
pub const ACTION_CODE_ENCODER_1_PRESS: u8 = 0x35;

/// Action code for encoder 2 press
pub const ACTION_CODE_ENCODER_2_PRESS: u8 = 0x34;

/// Key argument of the clear command that clears every key
pub const CMD_CLEAR_ALL: u8 = 0xFF;

} // verus!
