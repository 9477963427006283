use vstd::prelude::*;

use crate::codes;
use crate::images::{ImageFormat, ImageMirroring, ImageMode, ImageRotation};
use crate::AjazzError;

verus! {

/// Enum describing kinds of Ajazz devices
#[derive(Copy, Clone, Debug, Hash, PartialEq, Eq, Structural)]
pub enum Kind {
    /// Ajazz AKP153
    Akp153,
    /// Ajazz AKP153E
    Akp153E,
    /// Ajazz AKP153R
    Akp153R,
    /// Ajazz AKP815
    Akp815,
    /// Ajazz AKP03
    Akp03,
    /// Ajazz AKP03E
    Akp03E,
    /// Ajazz AKP03R
    Akp03R,
    /// Ajazz AKP03R rev 2
    Akp03RRev2,
    /// Ajazz AKP05
    Akp05,
}

/// The vendor IDs that the library handles
pub open spec fn spec_is_mirabox_vendor(vendor: u16) -> bool {
    vendor == codes::VENDOR_ID_MIRABOX_V1 || vendor == codes::VENDOR_ID_MIRABOX_V2
}

/// Returns true for vendors IDs that are handled by the library
pub fn is_mirabox_vendor(vendor: u16) -> (r: bool)
    ensures
        r == spec_is_mirabox_vendor(vendor),
{
    vendor == codes::VENDOR_ID_MIRABOX_V1 || vendor == codes::VENDOR_ID_MIRABOX_V2
}

/// Marketing name of each device kind
pub open spec fn spec_product_name(kind: Kind) -> Seq<char> {
    match kind {
        Kind::Akp153 => "Ajazz AKP153"@,
        Kind::Akp153E => "Ajazz AKP153E"@,
        Kind::Akp153R => "Ajazz AKP153R"@,
        Kind::Akp815 => "Ajazz AKP815"@,
        Kind::Akp03 => "Ajazz AKP03"@,
        Kind::Akp03E => "Ajazz AKP03E"@,
        Kind::Akp03R => "Ajazz AKP03R"@,
        Kind::Akp03RRev2 => "Ajazz AKP03R rev 2"@,
        Kind::Akp05 => "Ajazz AKP05"@,
    }
}

/// Returns the product name of the device kind
pub fn get_product_name(kind: &Kind) -> (r: String)
    ensures
        r@ == spec_product_name(*kind),
{
    let name = match kind {
        Kind::Akp153 => "Ajazz AKP153",
        Kind::Akp153E => "Ajazz AKP153E",
        Kind::Akp153R => "Ajazz AKP153R",
        Kind::Akp815 => "Ajazz AKP815",
        Kind::Akp03 => "Ajazz AKP03",
        Kind::Akp03E => "Ajazz AKP03E",
        Kind::Akp03R => "Ajazz AKP03R",
        Kind::Akp03RRev2 => "Ajazz AKP03R rev 2",
        Kind::Akp05 => "Ajazz AKP05",
    };
    name.to_string()
}

/// Logical-to-native key table of the AKP153 family
pub open spec fn akp153_device_keys() -> Seq<u8> {
    seq![0u8, 3, 6, 9, 12, 15, 1, 4, 7, 10, 13, 16, 2, 5, 8, 11, 14, 17]
}

/// Logical-to-native key table of the AKP815
pub open spec fn akp815_device_keys() -> Seq<u8> {
    seq![0u8, 3, 6, 9, 12, 1, 4, 7, 10, 13, 2, 5, 8, 11, 14]
}

/// Logical-to-native key table of the AKP05
pub open spec fn akp05_device_keys() -> Seq<u8> {
    seq![10u8, 11, 12, 13, 14, 5, 6, 7, 8, 9]
}

/// Every entry of the device key tables is below 18.
pub proof fn lemma_device_key_tables()
    ensures
        forall|i: int| 0 <= i < 18 ==> #[trigger] akp153_device_keys()[i] < 18,
        forall|i: int| 0 <= i < 15 ==> #[trigger] akp815_device_keys()[i] < 18,
        forall|i: int| 0 <= i < 10 ==> #[trigger] akp05_device_keys()[i] < 18,
{
}

impl Kind {
    pub open spec fn spec_from_vid_pid(vid: u16, pid: u16) -> Option<Kind> {
        if vid == codes::VENDOR_ID_MIRABOX_V1 {
            if pid == codes::PID_AJAZZ_AKP153 {
                Some(Kind::Akp153)
            } else if pid == codes::PID_AJAZZ_AKP815 {
                Some(Kind::Akp815)
            } else {
                None
            }
        } else if vid == codes::VENDOR_ID_MIRABOX_V2 {
            if pid == codes::PID_AJAZZ_AKP153E {
                Some(Kind::Akp153E)
            } else if pid == codes::PID_AJAZZ_AKP153R {
                Some(Kind::Akp153R)
            } else if pid == codes::PID_AJAZZ_AKP03 {
                Some(Kind::Akp03)
            } else if pid == codes::PID_AJAZZ_AKP03E {
                Some(Kind::Akp03E)
            } else if pid == codes::PID_AJAZZ_AKP03R {
                Some(Kind::Akp03R)
            } else if pid == codes::PID_AJAZZ_AKP03R_REV2 {
                Some(Kind::Akp03RRev2)
            } else if pid == codes::PID_AJAZZ_AKP05 {
                Some(Kind::Akp05)
            } else {
                None
            }
        } else {
            None
        }
    }

    pub open spec fn spec_product_id(self) -> u16 {
        match self {
            Kind::Akp153 => codes::PID_AJAZZ_AKP153,
            Kind::Akp153E => codes::PID_AJAZZ_AKP153E,
            Kind::Akp153R => codes::PID_AJAZZ_AKP153R,
            Kind::Akp815 => codes::PID_AJAZZ_AKP815,
            Kind::Akp03 => codes::PID_AJAZZ_AKP03,
            Kind::Akp03E => codes::PID_AJAZZ_AKP03E,
            Kind::Akp03R => codes::PID_AJAZZ_AKP03R,
            Kind::Akp03RRev2 => codes::PID_AJAZZ_AKP03R_REV2,
            Kind::Akp05 => codes::PID_AJAZZ_AKP05,
        }
    }

    pub open spec fn spec_vendor_id(self) -> u16 {
        match self {
            Kind::Akp153 | Kind::Akp815 => codes::VENDOR_ID_MIRABOX_V1,
            _ => codes::VENDOR_ID_MIRABOX_V2,
        }
    }

    pub open spec fn spec_key_count(self) -> u8 {
        match self {
            Kind::Akp153 | Kind::Akp153E | Kind::Akp153R => 18,
            Kind::Akp815 => 15,
            Kind::Akp03 | Kind::Akp03E | Kind::Akp03R | Kind::Akp03RRev2 => 9,
            Kind::Akp05 => 10,
        }
    }

    pub open spec fn spec_display_key_count(self) -> u8 {
        match self {
            Kind::Akp03 | Kind::Akp03E | Kind::Akp03R | Kind::Akp03RRev2 => 6,
            Kind::Akp05 => 10,
            _ => self.spec_key_count(),
        }
    }

    pub open spec fn spec_row_count(self) -> u8 {
        match self {
            Kind::Akp153 | Kind::Akp153E | Kind::Akp153R => 3,
            Kind::Akp815 => 5,
            _ => 2,
        }
    }

    pub open spec fn spec_column_count(self) -> u8 {
        match self {
            Kind::Akp153 | Kind::Akp153E | Kind::Akp153R => 6,
            Kind::Akp05 => 5,
            _ => 3,
        }
    }

    pub open spec fn spec_encoder_count(self) -> u8 {
        match self {
            Kind::Akp03 | Kind::Akp03E | Kind::Akp03R | Kind::Akp03RRev2 => 3,
            Kind::Akp05 => 4,
            _ => 0,
        }
    }

    pub open spec fn spec_touchpoint_count(self) -> u8 {
        match self {
            Kind::Akp05 => 6,
            _ => 0,
        }
    }

    pub open spec fn spec_lcd_strip_size(self) -> Option<(usize, usize)> {
        match self {
            Kind::Akp153 | Kind::Akp153E | Kind::Akp153R => Some((854, 480)),
            Kind::Akp815 => Some((800, 480)),
            Kind::Akp05 => Some((800, 100)),
            _ => None,
        }
    }

    pub open spec fn spec_boot_logo_size(self) -> Option<(usize, usize)> {
        match self {
            Kind::Akp03 | Kind::Akp03E | Kind::Akp03R | Kind::Akp03RRev2 => Some((320, 240)),
            _ => self.spec_lcd_strip_size(),
        }
    }

    pub open spec fn spec_lcd_image_format(self) -> Option<ImageFormat> {
        match self {
            Kind::Akp05 => Some(
                ImageFormat {
                    mode: ImageMode::JPEG,
                    size: (800, 100),
                    rotation: ImageRotation::Rot180,
                    mirror: ImageMirroring::NoMirror,
                },
            ),
            _ => None,
        }
    }

    pub open spec fn spec_logo_image_format(self) -> ImageFormat {
        match self {
            Kind::Akp03 | Kind::Akp03E | Kind::Akp03R | Kind::Akp03RRev2 => ImageFormat {
                mode: ImageMode::JPEG,
                size: (240, 320),
                rotation: ImageRotation::Rot90,
                mirror: ImageMirroring::NoMirror,
            },
            Kind::Akp153 | Kind::Akp153E | Kind::Akp153R => ImageFormat {
                mode: ImageMode::JPEG,
                size: (854, 480),
                rotation: ImageRotation::Rot0,
                mirror: ImageMirroring::NoMirror,
            },
            Kind::Akp815 | Kind::Akp05 => ImageFormat {
                mode: ImageMode::JPEG,
                size: (800, 480),
                rotation: ImageRotation::Rot0,
                mirror: ImageMirroring::NoMirror,
            },
        }
    }

    pub open spec fn spec_key_image_format(self) -> ImageFormat {
        match self {
            Kind::Akp153 | Kind::Akp153E | Kind::Akp153R => ImageFormat {
                mode: ImageMode::JPEG,
                size: (85, 85),
                rotation: ImageRotation::Rot90,
                mirror: ImageMirroring::Both,
            },
            Kind::Akp815 | Kind::Akp05 => ImageFormat {
                mode: ImageMode::JPEG,
                size: (100, 100),
                rotation: ImageRotation::Rot180,
                mirror: ImageMirroring::NoMirror,
            },
            Kind::Akp03 | Kind::Akp03E | Kind::Akp03R => ImageFormat {
                mode: ImageMode::JPEG,
                size: (60, 60),
                rotation: ImageRotation::Rot0,
                mirror: ImageMirroring::NoMirror,
            },
            Kind::Akp03RRev2 => ImageFormat {
                mode: ImageMode::JPEG,
                size: (64, 64),
                rotation: ImageRotation::Rot90,
                mirror: ImageMirroring::NoMirror,
            },
        }
    }

    /// Kinds that speak the 512-byte framing
    pub open spec fn spec_is_v1_api(self) -> bool {
        self is Akp153 || self is Akp153E || self is Akp153R || self is Akp815
    }

    /// Kinds that speak the 1024-byte framing
    pub open spec fn spec_is_v2_api(self) -> bool {
        !self.spec_is_v1_api()
    }

    /// Length of a request frame without its report-ID byte
    pub open spec fn spec_packet_length(self) -> usize {
        if self.spec_is_v2_api() {
            1024
        } else {
            512
        }
    }

    /// Logical key index to the index the device uses on the wire, for a valid display key
    pub open spec fn spec_device_key(self, key: u8) -> u8 {
        match self {
            Kind::Akp153 | Kind::Akp153E | Kind::Akp153R => akp153_device_keys()[key as int],
            Kind::Akp815 => akp815_device_keys()[key as int],
            Kind::Akp05 => akp05_device_keys()[key as int],
            _ => key,
        }
    }

    /// Creates [Kind] variant from Vendor ID and Product ID
    pub fn from_vid_pid(vid: u16, pid: u16) -> (r: Option<Kind>)
        ensures
            r == Kind::spec_from_vid_pid(vid, pid),
    {
        match vid {
            codes::VENDOR_ID_MIRABOX_V1 => match pid {
                codes::PID_AJAZZ_AKP153 => Some(Kind::Akp153),
                codes::PID_AJAZZ_AKP815 => Some(Kind::Akp815),
                _ => None,
            },
            codes::VENDOR_ID_MIRABOX_V2 => match pid {
                codes::PID_AJAZZ_AKP153E => Some(Kind::Akp153E),
                codes::PID_AJAZZ_AKP153R => Some(Kind::Akp153R),
                codes::PID_AJAZZ_AKP03 => Some(Kind::Akp03),
                codes::PID_AJAZZ_AKP03E => Some(Kind::Akp03E),
                codes::PID_AJAZZ_AKP03R => Some(Kind::Akp03R),
                codes::PID_AJAZZ_AKP03R_REV2 => Some(Kind::Akp03RRev2),
                codes::PID_AJAZZ_AKP05 => Some(Kind::Akp05),
                _ => None,
            },
            _ => None,
        }
    }

    /// Amount of touch points the Deck kind has
    pub fn touchpoint_count(&self) -> (r: u8)
        ensures
            r == self.spec_touchpoint_count(),
    {
        match self {
            Kind::Akp05 => 6,
            _ => 0,
        }
    }

    /// Translates a logical key index to the index the device uses on the wire
    pub fn opendeck_to_device_key(&self, key: u8) -> (r: Result<u8, AjazzError>)
        ensures
            key >= self.spec_display_key_count() ==> r == Err::<u8, AjazzError>(
                AjazzError::InvalidKeyIndex(key),
            ),
            key < self.spec_display_key_count() ==> r == Ok::<u8, AjazzError>(
                self.spec_device_key(key),
            ),
    {
        if key >= self.display_key_count() {
            return Err(AjazzError::InvalidKeyIndex(key));
        }
        match self {
            Kind::Akp153 | Kind::Akp153E | Kind::Akp153R => {
                let table: [u8; 18] = [0, 3, 6, 9, 12, 15, 1, 4, 7, 10, 13, 16, 2, 5, 8, 11, 14, 17];
                assert(table@ == akp153_device_keys());
                Ok(table[key as usize])
            },
            Kind::Akp815 => {
                let table: [u8; 15] = [0, 3, 6, 9, 12, 1, 4, 7, 10, 13, 2, 5, 8, 11, 14];
                assert(table@ == akp815_device_keys());
                Ok(table[key as usize])
            },
            Kind::Akp05 => {
                let table: [u8; 10] = [10, 11, 12, 13, 14, 5, 6, 7, 8, 9];
                assert(table@ == akp05_device_keys());
                Ok(table[key as usize])
            },
            _ => Ok(key),
        }
    }

    /// Retrieves Product ID of the device
    pub fn product_id(&self) -> (r: u16)
        ensures
            r == self.spec_product_id(),
    {
        match self {
            Kind::Akp153 => codes::PID_AJAZZ_AKP153,
            Kind::Akp153E => codes::PID_AJAZZ_AKP153E,
            Kind::Akp153R => codes::PID_AJAZZ_AKP153R,
            Kind::Akp815 => codes::PID_AJAZZ_AKP815,
            Kind::Akp03 => codes::PID_AJAZZ_AKP03,
            Kind::Akp03E => codes::PID_AJAZZ_AKP03E,
            Kind::Akp03R => codes::PID_AJAZZ_AKP03R,
            Kind::Akp03RRev2 => codes::PID_AJAZZ_AKP03R_REV2,
            Kind::Akp05 => codes::PID_AJAZZ_AKP05,
        }
    }

    /// Retrieves Vendor ID
    pub fn vendor_id(&self) -> (r: u16)
        ensures
            r == self.spec_vendor_id(),
    {
        match self {
            Kind::Akp153 | Kind::Akp815 => codes::VENDOR_ID_MIRABOX_V1,
            _ => codes::VENDOR_ID_MIRABOX_V2,
        }
    }

    /// Amount of keys the device has
    pub fn key_count(&self) -> (r: u8)
        ensures
            r == self.spec_key_count(),
    {
        match self {
            Kind::Akp153 | Kind::Akp153E | Kind::Akp153R => 15 + 3,
            Kind::Akp815 => 15,
            Kind::Akp03 | Kind::Akp03E | Kind::Akp03R | Kind::Akp03RRev2 => 6 + 3,
            Kind::Akp05 => 10,
        }
    }

    /// Amount of display keys the device has
    pub fn display_key_count(&self) -> (r: u8)
        ensures
            r == self.spec_display_key_count(),
    {
        match self {
            Kind::Akp03 | Kind::Akp03E | Kind::Akp03R | Kind::Akp03RRev2 => 6,
            Kind::Akp05 => 10,
            _ => self.key_count(),
        }
    }

    /// Amount of button rows the device has
    pub fn row_count(&self) -> (r: u8)
        ensures
            r == self.spec_row_count(),
    {
        match self {
            Kind::Akp153 | Kind::Akp153E | Kind::Akp153R => 3,
            Kind::Akp815 => 5,
            _ => 2,
        }
    }

    /// Amount of button columns the device has
    pub fn column_count(&self) -> (r: u8)
        ensures
            r == self.spec_column_count(),
    {
        match self {
            Kind::Akp153 | Kind::Akp153E | Kind::Akp153R => 6,
            Kind::Akp05 => 5,
            _ => 3,
        }
    }

    /// Amount of encoders/knobs the device has
    pub fn encoder_count(&self) -> (r: u8)
        ensures
            r == self.spec_encoder_count(),
    {
        match self {
            Kind::Akp03 | Kind::Akp03E | Kind::Akp03R | Kind::Akp03RRev2 => 3,
            Kind::Akp05 => 4,
            _ => 0,
        }
    }

    /// Size of the LCD strip on the device
    pub fn lcd_strip_size(&self) -> (r: Option<(usize, usize)>)
        ensures
            r == self.spec_lcd_strip_size(),
    {
        match self {
            Kind::Akp153 | Kind::Akp153E | Kind::Akp153R => Some((854, 480)),
            Kind::Akp815 => Some((800, 480)),
            Kind::Akp05 => Some((800, 100)),
            _ => None,
        }
    }

    /// Image format used by LCD screen, used for filling LCD
    pub fn lcd_image_format(&self) -> (r: Option<ImageFormat>)
        ensures
            r == self.spec_lcd_image_format(),
    {
        match self {
            Kind::Akp05 => Some(
                ImageFormat {
                    mode: ImageMode::JPEG,
                    size: (800, 100),
                    rotation: ImageRotation::Rot180,
                    mirror: ImageMirroring::NoMirror,
                },
            ),
            _ => None,
        }
    }

    /// Size of the boot logo on the device
    pub fn boot_logo_size(&self) -> (r: Option<(usize, usize)>)
        ensures
            r == self.spec_boot_logo_size(),
    {
        match self {
            Kind::Akp03 | Kind::Akp03E | Kind::Akp03R | Kind::Akp03RRev2 => Some((320, 240)),
            _ => self.lcd_strip_size(),
        }
    }

    /// Key layout of the device kind as (rows, columns)
    pub fn key_layout(&self) -> (r: (u8, u8))
        ensures
            r == (self.spec_row_count(), self.spec_column_count()),
    {
        (self.row_count(), self.column_count())
    }

    /// Image format of the boot logo
    pub fn logo_image_format(&self) -> (r: ImageFormat)
        ensures
            r == self.spec_logo_image_format(),
    {
        match self {
            Kind::Akp03 | Kind::Akp03E | Kind::Akp03R | Kind::Akp03RRev2 => ImageFormat {
                mode: ImageMode::JPEG,
                size: (240, 320),
                rotation: ImageRotation::Rot90,
                mirror: ImageMirroring::NoMirror,
            },
            Kind::Akp153 | Kind::Akp153E | Kind::Akp153R => ImageFormat {
                mode: ImageMode::JPEG,
                size: (854, 480),
                rotation: ImageRotation::Rot0,
                mirror: ImageMirroring::NoMirror,
            },
            Kind::Akp815 | Kind::Akp05 => ImageFormat {
                mode: ImageMode::JPEG,
                size: (800, 480),
                rotation: ImageRotation::Rot0,
                mirror: ImageMirroring::NoMirror,
            },
        }
    }

    /// Image format of the key images
    pub fn key_image_format(&self) -> (r: ImageFormat)
        ensures
            r == self.spec_key_image_format(),
    {
        match self {
            Kind::Akp153 | Kind::Akp153E | Kind::Akp153R => ImageFormat {
                mode: ImageMode::JPEG,
                size: (85, 85),
                rotation: ImageRotation::Rot90,
                mirror: ImageMirroring::Both,
            },
            Kind::Akp815 | Kind::Akp05 => ImageFormat {
                mode: ImageMode::JPEG,
                size: (100, 100),
                rotation: ImageRotation::Rot180,
                mirror: ImageMirroring::NoMirror,
            },
            Kind::Akp03 | Kind::Akp03E | Kind::Akp03R => ImageFormat {
                mode: ImageMode::JPEG,
                size: (60, 60),
                rotation: ImageRotation::Rot0,
                mirror: ImageMirroring::NoMirror,
            },
            Kind::Akp03RRev2 => ImageFormat {
                mode: ImageMode::JPEG,
                size: (64, 64),
                rotation: ImageRotation::Rot90,
                mirror: ImageMirroring::NoMirror,
            },
        }
    }

    /// Returns true for devices with 512 byte packet length
    pub fn is_v1_api(&self) -> (r: bool)
        ensures
            r == self.spec_is_v1_api(),
    {
        matches!(self, Kind::Akp153 | Kind::Akp153E | Kind::Akp153R | Kind::Akp815)
    }

    /// Returns true for devices with 1024 byte packet length
    pub fn is_v2_api(&self) -> (r: bool)
        ensures
            r == self.spec_is_v2_api(),
    {
        matches!(self, Kind::Akp03 | Kind::Akp03E | Kind::Akp03R | Kind::Akp03RRev2 | Kind::Akp05)
    }
}

} // verus!
