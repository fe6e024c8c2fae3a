//! The frame capture pipeline: from the pixels that the device handed over
//! to the bytes of an image file and the reply for the caller.
//!
//! The device's pixels become an image, which is a local failure when the
//! buffer has the wrong length. The image is turned upright, since devices
//! keep the bottom row first. It is cut to the first window if there is
//! one. It is encoded without loss. What the caller gets back names the
//! destination and the size of the image that was written.
use crate::encode::{encode_png, png_encoding};
use crate::geometry::{clamped, crop_target, first_window, Rect};
use crate::raster::{
    lemma_bounded_fits, lemma_cropped_pixel, lemma_flipped_pixel, CapturedImage, Raster,
};
use crate::text::{decimal, decimal_string};
use vstd::prelude::*;

verus! {

/// Why a capture failed. Each failure ends the one request and nothing
/// else.
#[derive(Debug, PartialEq, Eq)]
pub enum CaptureError {
    /// The device could not copy the region; with its reason.
    CopyFailed(String),
    /// The copy could not be mapped into host memory; with the reason.
    MapFailed(String),
    /// The buffer does not hold exactly the pixels of the reported size.
    MalformedBuffer,
    /// The image could not be encoded or written; with the reason.
    SaveFailed(String),
}

/// What reading the framebuffer back gave.
#[derive(Debug, PartialEq, Eq)]
pub enum Readback {
    /// The device could not copy the region; with its reason.
    CopyFailed(String),
    /// The copy could not be mapped into host memory; with the reason.
    MapFailed(String),
    /// The mapped bytes and the size that the copy reports, in pixels.
    Mapped { width: u32, height: u32, pixels: Vec<u8> },
}

/// A capture that is ready to be written.
#[derive(Debug, PartialEq, Eq)]
pub struct Screenshot {
    /// The bytes of the image file.
    pub bytes: Vec<u8>,
    /// Width of the encoded image, in pixels.
    pub width: u32,
    /// Height of the encoded image, in pixels.
    pub height: u32,
    /// The reply for the caller once the file is written.
    pub descriptor: String,
}

/// The one pixel that stands for a capture without pixels.
pub open spec fn single_pixel() -> Raster {
    Raster { width: 1, height: 1, bytes: seq![0u8, 0u8, 0u8, 0u8] }
}

/// The image as it is cut for the windows that are visible: to the first
/// window's geometry, clamped to the image, or not at all where no window
/// is visible or the first one's geometry is unknown.
pub open spec fn framed(upright: Raster, windows: Seq<Option<Rect>>) -> Raster {
    match first_window(windows) {
        Some(rect) => upright.cropped(clamped(rect, upright.width as u32, upright.height as u32)),
        None => upright,
    }
}

/// The image that is handed to the encoder: the image itself, or a single
/// transparent pixel where it holds none, since the file format has no
/// image without pixels.
pub open spec fn encodable(image: Raster) -> Raster {
    if image.width == 0 || image.height == 0 {
        single_pixel()
    } else {
        image
    }
}

/// The image that a capture writes, from the device's pixels of the
/// reported size and the windows that are visible.
pub open spec fn developed(width: u32, height: u32, pixels: Seq<u8>, windows: Seq<Option<Rect>>) -> Raster {
    encodable(
        framed(Raster { width: width as nat, height: height as nat, bytes: pixels }.flipped(), windows),
    )
}

/// The reply for a capture that was written.
pub open spec fn descriptor(filename: Seq<char>, width: nat, height: nat) -> Seq<char> {
    "Screenshot saved to "@ + filename + " ("@ + decimal(width) + "x"@ + decimal(height) + ")"@
}

impl CaptureError {
    /// The failure as text.
    pub open spec fn text(self) -> Seq<char> {
        match self {
            CaptureError::CopyFailed(reason) => "Failed to copy framebuffer: "@ + reason@,
            CaptureError::MapFailed(reason) => "Failed to map texture: "@ + reason@,
            CaptureError::MalformedBuffer => "Failed to create image from pixel data"@,
            CaptureError::SaveFailed(reason) => "Failed to save screenshot: "@ + reason@,
        }
    }

    /// Writes the failure as text.
    pub fn message(&self) -> (s: String)
        ensures
            s@ == self.text(),
    {
        match self {
            CaptureError::CopyFailed(reason) => String::from_str(
                "Failed to copy framebuffer: ",
            ).concat(reason.as_str()),
            CaptureError::MapFailed(reason) => String::from_str("Failed to map texture: ").concat(
                reason.as_str(),
            ),
            CaptureError::MalformedBuffer => String::from_str(
                "Failed to create image from pixel data",
            ),
            CaptureError::SaveFailed(reason) => String::from_str(
                "Failed to save screenshot: ",
            ).concat(reason.as_str()),
        }
    }
}

/// Writes the reply for a capture that was written to `filename` with the
/// given size.
pub fn describe(filename: &str, width: u32, height: u32) -> (s: String)
    ensures
        s@ == descriptor(filename@, width as nat, height as nat),
{
    let mut s = String::from_str("Screenshot saved to ");
    s.append(filename);
    s.append(" (");
    s.append(decimal_string(width).as_str());
    s.append("x");
    s.append(decimal_string(height).as_str());
    s.append(")");
    s
}

/// Builds the image that a capture writes. A failed readback is passed on
/// with its reason. Pixels whose number is not that of the reported size
/// are refused. Otherwise the image is turned upright, cut to the first
/// window if there is one, and replaced by a single transparent pixel if
/// nothing is left of it.
pub fn develop(readback: Readback, windows: &Vec<Option<Rect>>) -> (made: Result<
    CapturedImage,
    CaptureError,
>)
    ensures
        match readback {
            Readback::CopyFailed(reason) => made == Err::<CapturedImage, CaptureError>(
                CaptureError::CopyFailed(reason),
            ),
            Readback::MapFailed(reason) => made == Err::<CapturedImage, CaptureError>(
                CaptureError::MapFailed(reason),
            ),
            Readback::Mapped { width, height, pixels } => if pixels@.len() == width * height * 4 {
                made matches Ok(image) && image@ == developed(width, height, pixels@, windows@)
                    && image@.wf()
            } else {
                made == Err::<CapturedImage, CaptureError>(CaptureError::MalformedBuffer)
            },
        },
{
    match readback {
        Readback::CopyFailed(reason) => Err(CaptureError::CopyFailed(reason)),
        Readback::MapFailed(reason) => Err(CaptureError::MapFailed(reason)),
        Readback::Mapped { width, height, pixels } => {
            match CapturedImage::from_raw(width, height, pixels) {
                None => Err(CaptureError::MalformedBuffer),
                Some(mut image) => {
                    image.flip_vertical();
                    let image = match crop_target(windows) {
                        Some(rect) => {
                            let region = rect.clamp_to(image.width(), image.height());
                            image.crop(region)
                        },
                        None => image,
                    };
                    if image.is_empty() {
                        Ok(CapturedImage::transparent_pixel())
                    } else {
                        Ok(image)
                    }
                },
            }
        },
    }
}

/// Concludes a capture from what the encoder made of its image: the bytes
/// of the file with the size and the reply, or the encoder's reason as a
/// failure to save.
pub fn conclude(filename: &str, width: u32, height: u32, encoded: Result<Vec<u8>, String>) -> (shot:
    Result<Screenshot, CaptureError>)
    ensures
        match encoded {
            Ok(bytes) => shot matches Ok(s) && s.bytes == bytes && s.width == width && s.height
                == height && s.descriptor@ == descriptor(filename@, width as nat, height as nat),
            Err(reason) => shot == Err::<Screenshot, CaptureError>(CaptureError::SaveFailed(reason)),
        },
{
    match encoded {
        Ok(bytes) => Ok(Screenshot { bytes, width, height, descriptor: describe(filename, width, height) }),
        Err(reason) => Err(CaptureError::SaveFailed(reason)),
    }
}

/// Takes a screenshot: builds the image from what the readback gave and
/// encodes it. On success the file's bytes are those that the encoder gives
/// for the image, and the reply names `filename` and the image's size. The
/// failures are those of the readback, a buffer of the wrong length, and
/// the encoder's.
pub fn take_screenshot(readback: Readback, windows: &Vec<Option<Rect>>, filename: &str) -> (shot:
    Result<Screenshot, CaptureError>)
    ensures
        match readback {
            Readback::CopyFailed(reason) => shot == Err::<Screenshot, CaptureError>(
                CaptureError::CopyFailed(reason),
            ),
            Readback::MapFailed(reason) => shot == Err::<Screenshot, CaptureError>(
                CaptureError::MapFailed(reason),
            ),
            Readback::Mapped { width, height, pixels } => if pixels@.len() == width * height * 4 {
                let image = developed(width, height, pixels@, windows@);
                match png_encoding(image.width as u32, image.height as u32, image.bytes) {
                    Ok(file) => shot matches Ok(s) && s.bytes@ == file && s.width == image.width
                        && s.height == image.height && s.descriptor@ == descriptor(
                        filename@,
                        image.width,
                        image.height,
                    ),
                    Err(reason) => shot matches Err(CaptureError::SaveFailed(r)) && r@ == reason,
                }
            } else {
                shot == Err::<Screenshot, CaptureError>(CaptureError::MalformedBuffer)
            },
        },
{
    match develop(readback, windows) {
        Err(e) => Err(e),
        Ok(image) => {
            let width = image.width();
            let height = image.height();
            let encoded = encode_png(width, height, image.as_raw());
            conclude(filename, width, height, encoded)
        },
    }
}

/// What the caller is told once the file was written, or could not be.
pub open spec fn persisted(shot: Screenshot, written: Result<(), String>) -> Result<
    String,
    CaptureError,
> {
    match written {
        Ok(()) => Ok(shot.descriptor),
        Err(reason) => Err(CaptureError::SaveFailed(reason)),
    }
}

impl Screenshot {
    /// Ends a capture whose bytes were handed to the file system: the
    /// reply if they were written, the reason as a failure to save if not.
    pub fn persisted(self, written: Result<(), String>) -> (told: Result<String, CaptureError>)
        ensures
            told == persisted(self, written),
    {
        match written {
            Ok(()) => Ok(self.descriptor),
            Err(reason) => Err(CaptureError::SaveFailed(reason)),
        }
    }
}

/// The outcome of a capture as it is written to the response slot: the
/// reply, or the failure as text.
pub fn capture_reply(outcome: Result<String, CaptureError>) -> (reply: Result<String, String>)
    ensures
        match outcome {
            Ok(told) => reply == Ok::<String, String>(told),
            Err(e) => reply matches Err(text) && text@ == e.text(),
        },
{
    match outcome {
        Ok(told) => Ok(told),
        Err(e) => Err(e.message()),
    }
}

/// The image that a capture writes always holds a pixel, and its bytes are
/// those of its size.
pub proof fn lemma_developed_holds_a_pixel(
    width: u32,
    height: u32,
    pixels: Seq<u8>,
    windows: Seq<Option<Rect>>,
)
    requires
        pixels.len() == width * height * 4,
    ensures
        developed(width, height, pixels, windows).wf(),
        1 <= developed(width, height, pixels, windows).width <= if width == 0 {
            1
        } else {
            width as int
        },
        1 <= developed(width, height, pixels, windows).height <= if height == 0 {
            1
        } else {
            height as int
        },
{
    let source = Raster { width: width as nat, height: height as nat, bytes: pixels };
    let upright = source.flipped();
    match first_window(windows) {
        Some(rect) => {
            let region = clamped(rect, width, height);
            lemma_bounded_fits(upright, region);
            let part = upright.cropped(region);
            assert(part.bytes.len() == part.width * part.height * 4);
        },
        None => {},
    }
}

/// With no window to cut to, a capture shows the whole frame upright: its
/// pixel in column `x` of row `y` is the device's pixel in the same column
/// of row `height - 1 - y`, so the device's last row comes out on top.
pub proof fn lemma_full_frame_is_upright(
    width: u32,
    height: u32,
    pixels: Seq<u8>,
    windows: Seq<Option<Rect>>,
    x: int,
    y: int,
)
    requires
        pixels.len() == width * height * 4,
        first_window(windows) is None,
        0 <= x < width,
        0 <= y < height,
    ensures
        developed(width, height, pixels, windows).width == width,
        developed(width, height, pixels, windows).height == height,
        developed(width, height, pixels, windows).pixel(x, y) == (Raster {
            width: width as nat,
            height: height as nat,
            bytes: pixels,
        }).pixel(x, height - 1 - y),
{
    let source = Raster { width: width as nat, height: height as nat, bytes: pixels };
    lemma_flipped_pixel(source, x, y);
}

/// With a window to cut to, a capture has the size of the window's
/// geometry clamped to the frame, and shows the upright frame from the
/// clamped origin on: its pixel in column `i` of row `j` is the device's
/// pixel in column `x + i` of row `height - 1 - (y + j)`, where `x` and `y`
/// are the origin of the clamped geometry.
pub proof fn lemma_window_is_cut_out(
    width: u32,
    height: u32,
    pixels: Seq<u8>,
    windows: Seq<Option<Rect>>,
    i: int,
    j: int,
)
    requires
        pixels.len() == width * height * 4,
        first_window(windows) is Some,
        0 <= i < clamped(first_window(windows)->Some_0, width, height).w,
        0 <= j < clamped(first_window(windows)->Some_0, width, height).h,
    ensures
        developed(width, height, pixels, windows).width == clamped(
            first_window(windows)->Some_0,
            width,
            height,
        ).w,
        developed(width, height, pixels, windows).height == clamped(
            first_window(windows)->Some_0,
            width,
            height,
        ).h,
        developed(width, height, pixels, windows).pixel(i, j) == (Raster {
            width: width as nat,
            height: height as nat,
            bytes: pixels,
        }).pixel(
            clamped(first_window(windows)->Some_0, width, height).x + i,
            height - 1 - (clamped(first_window(windows)->Some_0, width, height).y + j),
        ),
{
    let source = Raster { width: width as nat, height: height as nat, bytes: pixels };
    let upright = source.flipped();
    let region = clamped(first_window(windows)->Some_0, width, height);
    lemma_bounded_fits(upright, region);
    lemma_cropped_pixel(upright, region, i, j);
    lemma_flipped_pixel(source, region.x + i, region.y + j);
}

} // verus!
