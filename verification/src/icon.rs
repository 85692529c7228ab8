//! Icon images: a buffer of 8-bit RGBA pixels with its dimensions, decoded
//! from the bytes of an image file or given as it is, and validated before it
//! is handed to the windowing system.

use vstd::prelude::*;
use image::ImageError;
use winit::window::{BadIcon, Icon};

verus! {

/// The windowing system's icon object. Nothing of its contents is visible
/// here; a value is only carried to the window that shows it.
#[verifier::external_type_specification]
#[verifier::external_body]
pub struct ExIcon(Icon);

/// The windowing system's reason for refusing an icon. Opaque here.
#[verifier::external_type_specification]
#[verifier::external_body]
pub struct ExBadIcon(BadIcon);

/// The image decoder's reason for refusing a file. Opaque here.
#[verifier::external_type_specification]
#[verifier::external_body]
pub struct ExImageError(ImageError);

/// What the image decoder makes of a file: the RGBA bytes, the width and the
/// height that decoding the file's `bytes` yields, in the format that the
/// extension of `path` names; `None` where the extension names no format or
/// the bytes are no image of that format.
pub uninterp spec fn decoded_rgba8(path: Seq<char>, bytes: Seq<u8>) -> Option<(Seq<u8>, u32, u32)>;

/// Why a file or a pixel buffer is no icon.
#[derive(Clone, Copy, Debug, PartialEq, Eq, Structural)]
pub enum IconError {
    /// The file's bytes could not be decoded as an image.
    Undecodable,
    /// The buffer's length is no multiple of four, so it is no sequence of
    /// RGBA pixels.
    ByteCountNotDivisibleBy4 { byte_count: usize },
    /// The buffer holds `pixel_count` pixels, which is not `width * height`.
    DimensionsVsPixelCount { width: u32, height: u32, pixel_count: usize },
    /// The image has more pixels than the windowing system can count.
    TooLarge { width: u32, height: u32 },
    /// The platform could not create the icon from a well-formed image.
    Platform,
}

/// What an icon image is: its bytes, four for each pixel, row by row, and its
/// dimensions in pixels.
pub struct IconPixels {
    pub rgba: Seq<u8>,
    pub width: u32,
    pub height: u32,
}

/// The fault, if any, of a buffer of `len` bytes taken as an image of
/// `width` by `height` pixels. The length is tested first.
pub open spec fn rgba_fault(len: usize, width: u32, height: u32) -> Option<IconError> {
    if len % 4 != 0 {
        Some(IconError::ByteCountNotDivisibleBy4 { byte_count: len })
    } else if len / 4 != width * height {
        Some(IconError::DimensionsVsPixelCount { width, height, pixel_count: (len / 4) as usize })
    } else {
        None
    }
}

/// The fault, if any, of what the decoder made of a file.
pub open spec fn decoded_fault(decoded: Option<(Seq<u8>, u32, u32)>) -> Option<IconError> {
    match decoded {
        None => Some(IconError::Undecodable),
        Some((rgba, width, height)) => rgba_fault(rgba.len() as usize, width, height),
    }
}

/// The error with which an image of these dimensions is refused as a window
/// icon, where it is refused.
pub open spec fn refusal(width: u32, height: u32) -> IconError {
    if width * height > u32::MAX {
        IconError::TooLarge { width, height }
    } else {
        IconError::Platform
    }
}

/// A decoded icon: RGBA bytes whose number is four times `width * height`.
#[derive(Debug, PartialEq, Eq)]
pub struct IconImage {
    rgba: Vec<u8>,
    width: u32,
    height: u32,
}

impl IconImage {
    /// The image as a mathematical value.
    pub closed spec fn view(&self) -> IconPixels {
        IconPixels { rgba: self.rgba@, width: self.width, height: self.height }
    }

    /// Every image holds exactly the bytes of its pixels.
    #[verifier::type_invariant]
    pub closed spec fn well_formed(&self) -> bool {
        self.rgba@.len() == 4 * self.width * self.height
    }

    /// Takes a buffer as an image of `width` by `height` pixels. Succeeds
    /// exactly where the buffer has no fault, and then keeps the buffer and
    /// the dimensions as they are.
    pub fn from_rgba(rgba: Vec<u8>, width: u32, height: u32) -> (r: Result<IconImage, IconError>)
        ensures
            match rgba_fault(rgba@.len() as usize, width, height) {
                Some(fault) => r == Err::<IconImage, IconError>(fault),
                None => r matches Ok(image) && image@ == (IconPixels { rgba: rgba@, width, height })
                    && image.well_formed(),
            },
    {
        let len = rgba.len();
        if len % 4 != 0 {
            return Err(IconError::ByteCountNotDivisibleBy4 { byte_count: len });
        }
        let pixel_count = len / 4;
        if !pixel_count_is(pixel_count, width, height) {
            return Err(IconError::DimensionsVsPixelCount { width, height, pixel_count });
        }
        assert(len == 4 * width * height) by (nonlinear_arith)
            requires
                len % 4 == 0,
                len / 4 == width * height,
        ;
        Ok(IconImage { rgba, width, height })
    }

    /// Decodes the bytes of the image file at `path` into an image. The
    /// file's format is taken from the extension of `path`. Fails where the
    /// decoder fails, and where what it hands back has a fault; else the
    /// image holds exactly what the decoder made.
    pub fn decode(path: &str, bytes: &[u8]) -> (r: Result<IconImage, IconError>)
        ensures
            match decoded_fault(decoded_rgba8(path@, bytes@)) {
                Some(fault) => r == Err::<IconImage, IconError>(fault),
                None => r matches Ok(image) && decoded_rgba8(path@, bytes@) == Some(
                    (image@.rgba, image@.width, image@.height),
                ) && image.well_formed(),
            },
    {
        match decode_rgba8(path, bytes) {
            Ok((rgba, width, height)) => IconImage::from_rgba(rgba, width, height),
            Err(_) => Err(IconError::Undecodable),
        }
    }

    /// The width in pixels.
    pub fn width(&self) -> (width: u32)
        ensures
            width == self@.width,
    {
        self.width
    }

    /// The height in pixels.
    pub fn height(&self) -> (height: u32)
        ensures
            height == self@.height,
    {
        self.height
    }

    /// The bytes of the pixels.
    pub fn rgba(&self) -> (rgba: &Vec<u8>)
        ensures
            rgba@ == self@.rgba,
            rgba@.len() == 4 * self@.width * self@.height,
    {
        proof {
            use_type_invariant(self);
        }
        &self.rgba
    }

    /// Hands the image to the windowing system. An image of more than
    /// `u32::MAX` pixels is refused here. Any other image is well formed, so
    /// the only failure left is the platform's own.
    pub fn into_window_icon(self) -> (r: Result<Icon, IconError>)
        ensures
            self@.width * self@.height > u32::MAX ==> r is Err,
            r matches Err(e) ==> e == refusal(self@.width, self@.height),
    {
        proof {
            use_type_invariant(&self);
        }
        let width = self.width;
        let height = self.height;
        if !fits_u32(width, height) {
            return Err(IconError::TooLarge { width, height });
        }
        match icon_from_rgba(self.rgba, width, height) {
            Ok(icon) => Ok(icon),
            Err(_) => Err(IconError::Platform),
        }
    }
}

/// Decodes the image file at `path`, whose contents are `bytes`, and hands
/// the image to the windowing system. Fails with the fault of the file
/// where it has one, and where it has none only as `refusal` says.
pub fn load_icon(path: &str, bytes: &[u8]) -> (r: Result<Icon, IconError>)
    ensures
        match decoded_fault(decoded_rgba8(path@, bytes@)) {
            Some(fault) => r == Err::<Icon, IconError>(fault),
            None => {
                let (rgba, width, height) = decoded_rgba8(path@, bytes@).unwrap();
                &&& width * height > u32::MAX ==> r is Err
                &&& r matches Err(e) ==> e == refusal(width, height)
            },
        },
{
    match IconImage::decode(path, bytes) {
        Ok(image) => image.into_window_icon(),
        Err(fault) => Err(fault),
    }
}

/// True exactly where `count` is `width * height`.
fn pixel_count_is(count: usize, width: u32, height: u32) -> (yes: bool)
    ensures
        yes == (count == width * height),
{
    assert(width * height <= 0xffff_ffff * 0xffff_ffff) by (nonlinear_arith)
        requires
            width <= 0xffff_ffff,
            height <= 0xffff_ffff,
    ;
    let area: u64 = (width as u64) * (height as u64);
    (count as u64) == area
}

/// True exactly where `width * height` fits in 32 bits.
fn fits_u32(width: u32, height: u32) -> (yes: bool)
    ensures
        yes == (width * height <= u32::MAX),
{
    assert(width * height <= 0xffff_ffff * 0xffff_ffff) by (nonlinear_arith)
        requires
            width <= 0xffff_ffff,
            height <= 0xffff_ffff,
    ;
    let area: u64 = (width as u64) * (height as u64);
    area <= 0xffff_ffff
}

/// `image::load_from_memory_with_format`, in the format that
/// `image::ImageFormat::from_path` reads from the extension of `path`; the
/// image is then turned into 8-bit RGBA by `DynamicImage::into_rgba8` and
/// taken apart by `ImageBuffer::dimensions` and `ImageBuffer::into_raw`.
/// Claimed of it: the outcome depends on `path` and `bytes` alone. Nothing is
/// claimed of the buffer's length.
#[verifier::external_body]
fn decode_rgba8(path: &str, bytes: &[u8]) -> (r: Result<(Vec<u8>, u32, u32), ImageError>)
    ensures
        match r {
            Ok((rgba, width, height)) => decoded_rgba8(path@, bytes@) == Some(
                (rgba@, width, height),
            ),
            Err(_) => decoded_rgba8(path@, bytes@).is_none(),
        },
{
    let format = image::ImageFormat::from_path(path)?;
    let buffer = image::load_from_memory_with_format(bytes, format)?.into_rgba8();
    let (width, height) = buffer.dimensions();
    Ok((buffer.into_raw(), width, height))
}

/// `winit::window::Icon::from_rgba`. Claimed of it: where it returns an icon,
/// the buffer's length is four times `width * height`; a buffer of another
/// length gets an error. Its product `width * height` is computed in 32 bits,
/// so a larger product is kept away from it.
#[verifier::external_body]
fn icon_from_rgba(rgba: Vec<u8>, width: u32, height: u32) -> (r: Result<Icon, BadIcon>)
    requires
        width * height <= u32::MAX,
    ensures
        r is Ok ==> rgba@.len() == 4 * width * height,
{
    Icon::from_rgba(rgba, width, height)
}

/// A buffer has no fault exactly where its length is four times
/// `width * height`.
pub proof fn lemma_fault_free_iff_exact(len: usize, width: u32, height: u32)
    ensures
        rgba_fault(len, width, height).is_none() <==> len == 4 * width * height,
{
    assert(4 * width * height == 4 * (width * height)) by (nonlinear_arith);
}

} // verus!
