use vstd::prelude::*;

use crate::info::Kind;

verus! {

/// Image rotation
#[derive(Copy, Clone, Debug, Hash, PartialEq, Eq, Structural)]
pub enum ImageRotation {
    /// No rotation
    Rot0,
    /// 90 degrees clockwise
    Rot90,
    /// 180 degrees
    Rot180,
    /// 90 degrees counter-clockwise
    Rot270,
}

/// Image mirroring
#[derive(Copy, Clone, Debug, Hash, PartialEq, Eq, Structural)]
pub enum ImageMirroring {
    /// No image mirroring
    NoMirror,
    /// Flip by X
    X,
    /// Flip by Y
    Y,
    /// Flip by both axes
    Both,
}

/// Image format
#[derive(Copy, Clone, Debug, Hash, PartialEq, Eq, Structural)]
pub enum ImageMode {
    /// No image
    NoImage,
    /// Jpeg image
    JPEG,
}

/// Image format used by the device
#[derive(Copy, Clone, Debug, Hash)]
pub struct ImageFormat {
    /// Image format/mode
    pub mode: ImageMode,
    /// Image size
    pub size: (usize, usize),
    /// Image rotation
    pub rotation: ImageRotation,
    /// Image mirroring
    pub mirror: ImageMirroring,
}

impl Default for ImageFormat {
    fn default() -> (r: Self)
        ensures
            r == (ImageFormat {
                mode: ImageMode::NoImage,
                size: (0, 0),
                rotation: ImageRotation::Rot0,
                mirror: ImageMirroring::NoMirror,
            }),
    {
        ImageFormat {
            mode: ImageMode::NoImage,
            size: (0, 0),
            rotation: ImageRotation::Rot0,
            mirror: ImageMirroring::NoMirror,
        }
    }
}

} // verus!

verus! {

/// Report geometry used when streaming image data
#[derive(Clone, Copy)]
pub struct WriteImageParameters {
    /// Length of every report, report-ID byte included
    pub image_report_length: usize,
    /// Payload bytes carried by each report
    pub image_report_payload_length: usize,
}

impl WriteImageParameters {
    pub open spec fn spec_for_kind(kind: Kind) -> WriteImageParameters {
        let len: usize = if kind.spec_is_v1_api() {
            513
        } else {
            1025
        };
        WriteImageParameters { image_report_length: len, image_report_payload_length: (len - 1) as usize }
    }

    /// Report geometry of a kind's key and logo images
    pub fn for_kind(kind: Kind) -> (r: Self)
        ensures
            r == Self::spec_for_kind(kind),
    {
        let image_report_length: usize = if kind.is_v1_api() {
            513
        } else {
            1025
        };
        let image_report_header_length: usize = 1;
        let image_report_payload_length = image_report_length - image_report_header_length;
        Self { image_report_length, image_report_payload_length }
    }
}

} // verus!

verus! {

/// An RGB8 image as plain values: `data` holds three bytes per pixel, row by row
pub struct Raster {
    /// Width in pixels
    pub width: u32,
    /// Height in pixels
    pub height: u32,
    /// Red, green and blue of each pixel, row-major from the top-left corner
    pub data: Vec<u8>,
}

/// Mathematical view of a [Raster]
pub struct PixelsView {
    pub data: Seq<u8>,
    pub width: nat,
    pub height: nat,
}

impl View for Raster {
    type V = PixelsView;

    open spec fn view(&self) -> PixelsView {
        PixelsView { data: self.data@, width: self.width as nat, height: self.height as nat }
    }
}

impl Raster {
    /// The buffer holds exactly three bytes per pixel
    pub open spec fn wf(&self) -> bool {
        self.data@.len() == 3 * self.width * self.height
    }

    /// A raster of the given size from an RGB8 buffer holding at least its pixels; bytes past
    /// the last pixel are dropped
    pub fn from_buffer(width: u32, height: u32, data: Vec<u8>) -> (r: Option<Raster>)
        ensures
            r is Some <==> 3 * width * height <= data@.len(),
            r is Some ==> {
                &&& r->Some_0.wf()
                &&& r->Some_0.width == width
                &&& r->Some_0.height == height
                &&& r->Some_0.data@ == data@.take(3 * width * height)
            },
    {
        let w = width as u128;
        let h = height as u128;
        assert(3 * w * h <= 3 * 0xffff_ffffu128 * 0xffff_ffffu128) by (nonlinear_arith)
            requires
                w <= 0xffff_ffff,
                h <= 0xffff_ffff,
        ;
        let need: u128 = 3 * w * h;
        if need > data.len() as u128 {
            return None;
        }
        let mut data = data;
        data.truncate(need as usize);
        Some(Raster { width, height, data })
    }
}

/// Channel `c` of the pixel at column `x`, row `y`
pub open spec fn rgb_at(p: PixelsView, x: int, y: int, c: int) -> u8 {
    p.data[3 * (y * p.width + x) + c]
}

/// `p` turned 90 degrees clockwise: the pixel at (x, y) moves to (height - 1 - y, x)
pub open spec fn rotated90(p: PixelsView) -> PixelsView {
    PixelsView {
        width: p.height,
        height: p.width,
        data: Seq::new(
            3 * p.width * p.height,
            |i: int| rgb_at(p, (i / 3) / p.height as int, p.height - 1 - (i / 3) % p.height as int, i % 3),
        ),
    }
}

/// `p` turned 180 degrees: the pixel at (x, y) moves to (width - 1 - x, height - 1 - y)
pub open spec fn rotated180(p: PixelsView) -> PixelsView {
    PixelsView {
        width: p.width,
        height: p.height,
        data: Seq::new(
            3 * p.width * p.height,
            |i: int|
                rgb_at(p, p.width - 1 - (i / 3) % p.width as int, p.height - 1 - (i / 3) / p.width as int, i % 3),
        ),
    }
}

/// `p` turned 270 degrees clockwise: the pixel at (x, y) moves to (y, width - 1 - x)
pub open spec fn rotated270(p: PixelsView) -> PixelsView {
    PixelsView {
        width: p.height,
        height: p.width,
        data: Seq::new(
            3 * p.width * p.height,
            |i: int| rgb_at(p, p.width - 1 - (i / 3) / p.height as int, (i / 3) % p.height as int, i % 3),
        ),
    }
}

/// `p` mirrored left to right
pub open spec fn flipped_h(p: PixelsView) -> PixelsView {
    PixelsView {
        width: p.width,
        height: p.height,
        data: Seq::new(
            3 * p.width * p.height,
            |i: int| rgb_at(p, p.width - 1 - (i / 3) % p.width as int, (i / 3) / p.width as int, i % 3),
        ),
    }
}

/// `p` mirrored top to bottom
pub open spec fn flipped_v(p: PixelsView) -> PixelsView {
    PixelsView {
        width: p.width,
        height: p.height,
        data: Seq::new(
            3 * p.width * p.height,
            |i: int| rgb_at(p, (i / 3) % p.width as int, p.height - 1 - (i / 3) / p.width as int, i % 3),
        ),
    }
}

/// Pixels that the triangle-filter resize of `image` produces at the new size
pub uninterp spec fn triangle_resized(pixels: Seq<u8>, width: u32, height: u32, new_width: u32, new_height: u32) -> Seq<u8>;

/// Bytes of the quality-90 baseline JPEG encoding of RGB8 pixels
pub uninterp spec fn jpeg_q90(pixels: Seq<u8>, width: u32, height: u32) -> Seq<u8>;

/// `p` resized to exactly `w` x `h` with the triangle filter
pub open spec fn resized(p: PixelsView, w: u32, h: u32) -> PixelsView {
    PixelsView {
        data: triangle_resized(p.data, p.width as u32, p.height as u32, w, h),
        width: w as nat,
        height: h as nat,
    }
}

/// `p` rotated by a rotation step
pub open spec fn spec_rotate(p: PixelsView, rotation: ImageRotation) -> PixelsView {
    match rotation {
        ImageRotation::Rot0 => p,
        ImageRotation::Rot90 => rotated90(p),
        ImageRotation::Rot180 => rotated180(p),
        ImageRotation::Rot270 => rotated270(p),
    }
}

/// `p` mirrored by a mirroring step
pub open spec fn spec_mirror(p: PixelsView, mirror: ImageMirroring) -> PixelsView {
    match mirror {
        ImageMirroring::NoMirror => p,
        ImageMirroring::X => flipped_h(p),
        ImageMirroring::Y => flipped_v(p),
        ImageMirroring::Both => flipped_v(flipped_h(p)),
    }
}

/// The pixels that a format sends to the encoder: rotated, resized to the target size, mirrored
pub open spec fn formatted_pixels(format: ImageFormat, p: PixelsView) -> PixelsView {
    spec_mirror(resized(spec_rotate(p, format.rotation), format.size.0 as u32, format.size.1 as u32), format.mirror)
}

/// The bytes a format asks for: the formatted pixels encoded as quality-90 JPEG
pub open spec fn encoded_image(format: ImageFormat, p: PixelsView) -> Seq<u8> {
    jpeg_q90(formatted_pixels(format, p).data, format.size.0 as u32, format.size.1 as u32)
}

/// Whether the JPEG encoder takes an image of these dimensions
pub open spec fn jpeg_size_ok(width: u32, height: u32) -> bool {
    1 <= width <= 65535 && 1 <= height <= 65535
}

/// Relies on imageops::rotate90: each pixel (x, y) lands at (height - 1 - y, x).
#[verifier::external_body]
fn rotate90(src: &Raster) -> (r: Raster)
    requires
        src.wf(),
    ensures
        r.wf(),
        r@ == rotated90(src@),
{
    let buf = image::RgbImage::from_raw(src.width, src.height, src.data.clone()).unwrap();
    let out = image::imageops::rotate90(&buf);
    Raster { width: out.width(), height: out.height(), data: out.into_raw() }
}

/// Relies on imageops::rotate180: each pixel (x, y) lands at (width - 1 - x, height - 1 - y).
#[verifier::external_body]
fn rotate180(src: &Raster) -> (r: Raster)
    requires
        src.wf(),
    ensures
        r.wf(),
        r@ == rotated180(src@),
{
    let buf = image::RgbImage::from_raw(src.width, src.height, src.data.clone()).unwrap();
    let out = image::imageops::rotate180(&buf);
    Raster { width: out.width(), height: out.height(), data: out.into_raw() }
}

/// Relies on imageops::rotate270: each pixel (x, y) lands at (y, width - 1 - x).
#[verifier::external_body]
fn rotate270(src: &Raster) -> (r: Raster)
    requires
        src.wf(),
    ensures
        r.wf(),
        r@ == rotated270(src@),
{
    let buf = image::RgbImage::from_raw(src.width, src.height, src.data.clone()).unwrap();
    let out = image::imageops::rotate270(&buf);
    Raster { width: out.width(), height: out.height(), data: out.into_raw() }
}

/// Relies on imageops::flip_horizontal: each pixel (x, y) lands at (width - 1 - x, y).
#[verifier::external_body]
fn flip_horizontal(src: &Raster) -> (r: Raster)
    requires
        src.wf(),
    ensures
        r.wf(),
        r@ == flipped_h(src@),
{
    let buf = image::RgbImage::from_raw(src.width, src.height, src.data.clone()).unwrap();
    let out = image::imageops::flip_horizontal(&buf);
    Raster { width: out.width(), height: out.height(), data: out.into_raw() }
}

/// Relies on imageops::flip_vertical: each pixel (x, y) lands at (x, height - 1 - y).
#[verifier::external_body]
fn flip_vertical(src: &Raster) -> (r: Raster)
    requires
        src.wf(),
    ensures
        r.wf(),
        r@ == flipped_v(src@),
{
    let buf = image::RgbImage::from_raw(src.width, src.height, src.data.clone()).unwrap();
    let out = image::imageops::flip_vertical(&buf);
    Raster { width: out.width(), height: out.height(), data: out.into_raw() }
}

/// Relies on imageops::resize with FilterType::Triangle: an image of exactly the new size,
/// a plain copy when the size does not change.
#[verifier::external_body]
fn resize_triangle(src: &Raster, width: u32, height: u32) -> (r: Raster)
    requires
        src.wf(),
        3 * width * height <= usize::MAX,
    ensures
        r.wf(),
        r.width == width,
        r.height == height,
        r.data@ == triangle_resized(src.data@, src.width, src.height, width, height),
        src.width == width && src.height == height ==> r@.data == src@.data,
{
    let buf = image::RgbImage::from_raw(src.width, src.height, src.data.clone()).unwrap();
    let out = image::imageops::resize(&buf, width, height, image::imageops::FilterType::Triangle);
    Raster { width: out.width(), height: out.height(), data: out.into_raw() }
}

/// Relies on JpegEncoder::new_with_quality(_, 90).encode on RGB8 pixels: it refuses exactly a
/// width or height of zero or above 65535 (writing into a `Vec` cannot fail), and otherwise
/// writes the encoding into the buffer.
#[verifier::external_body]
fn encode_jpeg(pixels: &Vec<u8>, width: u32, height: u32) -> (r: Result<Vec<u8>, image::ImageError>)
    requires
        pixels@.len() == 3 * width * height,
    ensures
        r is Ok <==> jpeg_size_ok(width, height),
        r is Ok ==> r->Ok_0@ == jpeg_q90(pixels@, width, height),
{
    let mut buf = Vec::new();
    let mut encoder = image::codecs::jpeg::JpegEncoder::new_with_quality(&mut buf, 90);
    encoder.encode(pixels, width, height, image::ExtendedColorType::Rgb8)?;
    Ok(buf)
}

/// Converts an RGB8 image into the bytes a format asks for
pub fn convert_image_with_format(image_format: ImageFormat, raster: &Raster) -> (r: Result<Vec<u8>, image::ImageError>)
    requires
        raster.wf(),
        image_format.size.0 <= u32::MAX,
        image_format.size.1 <= u32::MAX,
        3 * image_format.size.0 * image_format.size.1 <= usize::MAX,
    ensures
        image_format.mode is NoImage ==> r is Ok && r->Ok_0@.len() == 0,
        image_format.mode is JPEG ==> {
            &&& r is Ok <==> jpeg_size_ok(image_format.size.0 as u32, image_format.size.1 as u32)
            &&& r is Ok ==> r->Ok_0@ == encoded_image(image_format, raster@)
        },
{
    if let ImageMode::NoImage = image_format.mode {
        return Ok(Vec::new());
    }
    let (ws, hs) = image_format.size;
    let rotated = match image_format.rotation {
        ImageRotation::Rot0 => {
            let mut copy: Vec<u8> = Vec::new();
            let mut i: usize = 0;
            while i < raster.data.len()
                invariant
                    i <= raster.data@.len(),
                    copy@ == raster.data@.take(i as int),
                decreases raster.data@.len() - i,
            {
                copy.push(raster.data[i]);
                i = i + 1;
                assert(copy@ =~= raster.data@.take(i as int));
            }
            assert(raster.data@.take(i as int) =~= raster.data@);
            Raster { width: raster.width, height: raster.height, data: copy }
        },
        ImageRotation::Rot90 => rotate90(raster),
        ImageRotation::Rot180 => rotate180(raster),
        ImageRotation::Rot270 => rotate270(raster),
    };
    let sized = resize_triangle(&rotated, ws as u32, hs as u32);
    let mirrored = match image_format.mirror {
        ImageMirroring::NoMirror => sized,
        ImageMirroring::X => flip_horizontal(&sized),
        ImageMirroring::Y => flip_vertical(&sized),
        ImageMirroring::Both => {
            let h = flip_horizontal(&sized);
            flip_vertical(&h)
        },
    };
    encode_jpeg(&mirrored.data, ws as u32, hs as u32)
}

/// Converts an RGB8 image into key image data of the given kind
pub fn convert_image(kind: Kind, raster: &Raster) -> (r: Result<Vec<u8>, image::ImageError>)
    requires
        raster.wf(),
    ensures
        r is Ok,
        r->Ok_0@ == encoded_image(kind.spec_key_image_format(), raster@),
{
    let format = kind.key_image_format();
    assert(3 * format.size.0 * format.size.1 <= 30000) by (nonlinear_arith)
        requires
            format.size.0 <= 100,
            format.size.1 <= 100,
    ;
    convert_image_with_format(format, raster)
}

/// Rect to be used when trying to send image to lcd screen
pub struct ImageRect {
    /// Width of the image
    pub w: u16,
    /// Height of the image
    pub h: u16,
    /// JPEG data of the image
    pub data: Vec<u8>,
}

impl ImageRect {
    /// Encodes an RGB8 image as an image rect
    pub fn from_image(image: &Raster) -> (r: Result<ImageRect, crate::AjazzError>)
        requires
            image.wf(),
        ensures
            r is Ok <==> jpeg_size_ok(image.width, image.height),
            r is Ok ==> {
                &&& r->Ok_0.w == image.width
                &&& r->Ok_0.h == image.height
                &&& r->Ok_0.data@ == jpeg_q90(image.data@, image.width, image.height)
            },
            r is Err ==> r->Err_0 is ImageError,
    {
        match encode_jpeg(&image.data, image.width, image.height) {
            Ok(data) => Ok(ImageRect { w: image.width as u16, h: image.height as u16, data }),
            Err(e) => Err(crate::AjazzError::ImageError(e)),
        }
    }
}

} // verus!
