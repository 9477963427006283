//! Protocol driver for Ajazz stream-deck-style USB-HID macro controllers.
//!
//! The library holds the per-model table, the request and response framing,
//! the image packetizer, the input-report parser and the per-device session
//! state. The transport itself (opening the device, reading and writing
//! reports) is done by the caller, which hands the library the bytes it read
//! and writes the frames the library returns.
use vstd::prelude::*;

pub mod codes;
pub mod device;
pub mod hid;
pub mod images;
pub mod info;
pub mod parser;
pub mod request;
pub mod util;

pub use device::{
    assert_write_complete, handle_input_state_change, Ajazz, ConnectRetry, DeviceState,
    DeviceStateReader,
};
pub use hid::{select_devices, HidEntry};
pub use images::{
    convert_image, convert_image_with_format, ImageFormat,
    ImageMirroring, ImageMode, ImageRect, ImageRotation, Raster, WriteImageParameters,
};
pub use info::{get_product_name, is_mirabox_vendor, Kind};
pub use parser::extract_string;

verus! {

#[verifier::external_type_specification]
#[verifier::external_body]
pub struct ExUtf8Error(std::str::Utf8Error);

#[verifier::external_type_specification]
#[verifier::external_body]
pub struct ExImageError(image::ImageError);

/// Errors that can occur while working with Ajazz devices
#[derive(Debug)]
pub enum AjazzError {
    /// Failed to convert bytes into string
    Utf8Error(std::str::Utf8Error),
    /// Failed to encode image
    ImageError(image::ImageError),
    /// Reader mutex was poisoned
    PoisonError,
    /// Key index is invalid
    InvalidKeyIndex(u8),
    /// Unrecognized Product ID
    UnrecognizedPID(u16),
    /// The device doesn't support doing that
    UnsupportedOperation,
    /// Device sent unexpected data
    BadData,
    /// Invalid image size
    InvalidImageSize(usize, usize, usize, usize),
    /// Device didn't respond with ACK
    NoAck,
}

/// Type of input that the device produced
#[derive(Clone, Debug, PartialEq, Eq)]
pub enum AjazzInput {
    /// No data was passed from the device
    NoData,
    /// Buttons whose state changed
    ButtonStateChange(Vec<bool>),
    /// Encoders/knobs whose pressed state changed
    EncoderStateChange(Vec<bool>),
    /// Encoder/knob twist per encoder
    EncoderTwist(Vec<i8>),
}

/// Mathematical view of an [AjazzInput]
pub enum InputView {
    NoData,
    ButtonStateChange(Seq<bool>),
    EncoderStateChange(Seq<bool>),
    EncoderTwist(Seq<i8>),
}

impl View for AjazzInput {
    type V = InputView;

    open spec fn view(&self) -> InputView {
        match self {
            AjazzInput::NoData => InputView::NoData,
            AjazzInput::ButtonStateChange(v) => InputView::ButtonStateChange(v@),
            AjazzInput::EncoderStateChange(v) => InputView::EncoderStateChange(v@),
            AjazzInput::EncoderTwist(v) => InputView::EncoderTwist(v@),
        }
    }
}

impl AjazzInput {
    /// Checks if there's data received or not
    pub fn is_empty(&self) -> (r: bool)
        ensures
            r == (*self is NoData),
    {
        matches!(self, AjazzInput::NoData)
    }
}

/// Tells what changed in button states
#[derive(Copy, Clone, Debug, Hash, PartialEq, Eq, Structural)]
pub enum Event {
    /// Button got pressed down
    ButtonDown(u8),
    /// Button got released
    ButtonUp(u8),
    /// Encoder got pressed down
    EncoderDown(u8),
    /// Encoder was released from being pressed down
    EncoderUp(u8),
    /// Encoder was twisted
    EncoderTwist(u8, i8),
}

} // verus!

