//! Frames: the rectangle that is captured, the steps of one capture, and
//! the store that holds the latest frame.
//!
//! The pixel grab itself is not done here. [`plan_capture`] says whether a
//! grab is to be made and of which rectangle; the caller makes it and hands
//! what it got to [`finish_capture`], which turns it into a JPEG frame.

use crate::codec::{bytes_view, jpeg, jpeg_bytes};
use vstd::prelude::*;

verus! {

/// The quality at which frames are encoded, on the encoder's scale of 1
/// to 100.
pub const JPEG_QUALITY: u8 = 80;

/// A rectangle on the screen: where the window is.
#[derive(Debug, Clone, Copy, PartialEq, Eq, Structural)]
pub struct Region {
    pub x: i32,
    pub y: i32,
    pub width: u32,
    pub height: u32,
}

impl Region {
    /// Nothing can be captured from a rectangle without width or height.
    pub open spec fn is_empty(self) -> bool {
        self.width == 0 || self.height == 0
    }

    /// The rectangle after the window has moved to `(x, y)`.
    pub fn moved_to(self, x: i32, y: i32) -> (moved: Region)
        ensures
            moved == (Region { x: x, y: y, ..self }),
    {
        Region { x, y, width: self.width, height: self.height }
    }

    /// The rectangle after the window has been resized.
    pub fn resized_to(self, width: u32, height: u32) -> (resized: Region)
        ensures
            resized == (Region { width: width, height: height, ..self }),
    {
        Region { x: self.x, y: self.y, width, height }
    }
}

/// Why a capture gave no frame.
#[derive(Debug, Clone, Copy, PartialEq, Eq, Structural)]
pub enum CaptureError {
    /// There is nothing to capture: the rectangle has no width or no height.
    Unavailable,
    /// The pixels could not be grabbed or could not be encoded.
    CaptureFailure,
}

/// The first step of a capture: decides whether pixels are to be grabbed.
/// For a rectangle without width or height the capture ends here, as
/// [`CaptureError::Unavailable`], and no grab is to be made; otherwise the
/// caller is to grab exactly the rectangle that is returned, which is the
/// one given, and to hand what it got to [`finish_capture`].
pub fn plan_capture(region: Region) -> (plan: Result<Region, CaptureError>)
    ensures
        region.is_empty() ==> plan == Err::<Region, CaptureError>(CaptureError::Unavailable),
        !region.is_empty() ==> plan == Ok::<Region, CaptureError>(region),
{
    if region.width == 0 || region.height == 0 {
        Err(CaptureError::Unavailable)
    } else {
        Ok(region)
    }
}

/// Pixels as they were grabbed: four bytes to the pixel (red, green, blue,
/// alpha), row by row.
#[derive(Debug, Clone, PartialEq, Eq)]
pub struct RawImage {
    pub width: u32,
    pub height: u32,
    pub pixels: Vec<u8>,
}

/// The number of pixels of an image.
pub open spec fn pixel_count(width: u32, height: u32) -> nat {
    (width * height) as nat
}

/// The buffer holds the image: the bytes of one row can be counted, which
/// is to say that four bytes for each pixel of a row fit into a `usize`,
/// and the buffer has four bytes for each pixel of the image. Bytes beyond
/// those are allowed and ignored.
pub open spec fn holds_image(width: u32, height: u32, pixels: Seq<u8>) -> bool {
    &&& 4 * width <= usize::MAX
    &&& 4 * pixel_count(width, height) <= pixels.len()
}

/// The first `count` pixels of `rgba` without their alpha bytes.
pub open spec fn without_alpha(rgba: Seq<u8>, count: nat) -> Seq<u8> {
    Seq::new(3 * count, |i: int| rgba[(i / 3) * 4 + i % 3])
}

/// What the pixel source handed back. There are two kinds of source: one
/// grabs raw pixels from the screen, the other asks a rendering engine for a
/// picture and gets it already encoded.
#[derive(Debug, Clone, PartialEq, Eq)]
pub enum Grabbed {
    /// The source failed.
    Nothing,
    /// Raw pixels, still to be encoded.
    Pixels(RawImage),
    /// A picture that the source has encoded itself.
    Encoded(Vec<u8>),
}

/// What a [`Grabbed`] stands for in contracts.
pub enum GrabbedView {
    Nothing,
    Pixels { width: u32, height: u32, pixels: Seq<u8> },
    Encoded(Seq<u8>),
}

impl View for Grabbed {
    type V = GrabbedView;

    open spec fn view(&self) -> GrabbedView {
        match self {
            Grabbed::Nothing => GrabbedView::Nothing,
            Grabbed::Pixels(image) => GrabbedView::Pixels {
                width: image.width,
                height: image.height,
                pixels: image.pixels@,
            },
            Grabbed::Encoded(bytes) => GrabbedView::Encoded(bytes@),
        }
    }
}

/// What a capture gives, by what the encoder returned.
pub open spec fn frame_of(encoded: Option<Seq<u8>>) -> Result<Seq<u8>, CaptureError> {
    match encoded {
        Some(bytes) => Ok(bytes),
        None => Err(CaptureError::CaptureFailure),
    }
}

/// What a capture gives, by what the source handed back: a failure if the
/// source failed, if the buffer does not hold the image (see
/// [`holds_image`]), or if the encoder refused; else the picture as the
/// source encoded it, or the JPEG of the raw pixels without their alpha
/// bytes.
pub open spec fn capture_of(grabbed: GrabbedView) -> Result<Seq<u8>, CaptureError> {
    match grabbed {
        GrabbedView::Nothing => Err(CaptureError::CaptureFailure),
        GrabbedView::Encoded(bytes) => Ok(bytes),
        GrabbedView::Pixels { width, height, pixels } => if !holds_image(width, height, pixels) {
            Err(CaptureError::CaptureFailure)
        } else {
            frame_of(
                jpeg_bytes(
                    without_alpha(pixels, pixel_count(width, height)),
                    width,
                    height,
                    JPEG_QUALITY,
                ),
            )
        },
    }
}

/// What a frame or an error stands for in contracts.
pub open spec fn outcome_view(outcome: Result<Vec<u8>, CaptureError>) -> Result<
    Seq<u8>,
    CaptureError,
> {
    match outcome {
        Ok(bytes) => Ok(bytes@),
        Err(error) => Err(error),
    }
}

/// The number of pixels of the image, if the buffer holds them all.
fn pixels_held(width: u32, height: u32, pixels: &Vec<u8>) -> (count: Option<usize>)
    ensures
        count is Some == holds_image(width, height, pixels@),
        count matches Some(n) ==> n == pixel_count(width, height),
{
    assert(width * height <= 0xffff_ffff * 0xffff_ffff) by (nonlinear_arith)
        requires
            0 <= width <= 0xffff_ffff,
            0 <= height <= 0xffff_ffff,
    ;
    if width as u64 > (usize::MAX as u64) / 4 {
        return None;
    }
    let count: u64 = (width as u64) * (height as u64);
    let held: usize = pixels.len() / 4;
    if count <= held as u64 {
        Some(count as usize)
    } else {
        None
    }
}

/// The first `count` pixels of `rgba` without their alpha bytes.
fn drop_alpha(rgba: &Vec<u8>, count: usize) -> (rgb: Vec<u8>)
    requires
        4 * count <= rgba.len(),
    ensures
        rgb@ == without_alpha(rgba@, count as nat),
{
    let mut rgb: Vec<u8> = Vec::new();
    let mut p: usize = 0;
    while p < count
        invariant
            p <= count,
            4 * count <= rgba.len(),
            rgb@ == without_alpha(rgba@, p as nat),
        decreases count - p,
    {
        rgb.push(rgba[4 * p]);
        rgb.push(rgba[4 * p + 1]);
        rgb.push(rgba[4 * p + 2]);
        p += 1;
        proof {
            assert(rgb@ =~= without_alpha(rgba@, p as nat));
        }
    }
    rgb
}

/// What a capture gives, by what the encoder returned.
pub fn frame_from(encoded: Option<Vec<u8>>) -> (outcome: Result<Vec<u8>, CaptureError>)
    ensures
        outcome_view(outcome) == frame_of(bytes_view(encoded)),
{
    match encoded {
        Some(bytes) => Ok(bytes),
        None => Err(CaptureError::CaptureFailure),
    }
}

/// Ends a capture: turns what the source handed back into a frame. Raw
/// pixels lose their alpha bytes and are encoded as JPEG at
/// [`JPEG_QUALITY`]; a picture that the source encoded is the frame as it
/// is. A source that failed, a buffer that does not hold the image and an
/// encoder that refuses all end in [`CaptureError::CaptureFailure`].
pub fn finish_capture(grabbed: Grabbed) -> (outcome: Result<Vec<u8>, CaptureError>)
    ensures
        outcome_view(outcome) == capture_of(grabbed@),
{
    match grabbed {
        Grabbed::Nothing => Err(CaptureError::CaptureFailure),
        Grabbed::Encoded(bytes) => Ok(bytes),
        Grabbed::Pixels(image) => match pixels_held(image.width, image.height, &image.pixels) {
            None => Err(CaptureError::CaptureFailure),
            Some(count) => {
                let rgb = drop_alpha(&image.pixels, count);
                frame_from(jpeg(&rgb, image.width, image.height, JPEG_QUALITY))
            },
        },
    }
}

/// The latest frame, if any capture has succeeded, and a flag that says
/// whether the screen may have changed since a frame was last served.
pub struct FrameStore {
    frame: Option<Vec<u8>>,
    dirty: bool,
}

/// What a [`FrameStore`] stands for in contracts.
pub struct FrameStoreView {
    pub frame: Option<Seq<u8>>,
    pub dirty: bool,
}

impl FrameStoreView {
    /// The store at startup: no frame, and everything still to be shown.
    pub open spec fn empty() -> FrameStoreView {
        FrameStoreView { frame: None, dirty: true }
    }

    /// The store after a frame has been put.
    pub open spec fn put(self, bytes: Seq<u8>) -> FrameStoreView {
        FrameStoreView { frame: Some(bytes), ..self }
    }

    /// What a reader gets.
    pub open spec fn get(self) -> Option<Seq<u8>> {
        self.frame
    }
}

impl View for FrameStore {
    type V = FrameStoreView;

    closed spec fn view(&self) -> FrameStoreView {
        FrameStoreView { frame: bytes_view(self.frame), dirty: self.dirty }
    }
}

impl FrameStore {
    /// A store without a frame.
    pub fn new() -> (store: FrameStore)
        ensures
            store@ == FrameStoreView::empty(),
    {
        FrameStore { frame: None, dirty: true }
    }

    /// Replaces the stored frame.
    pub fn put(&mut self, bytes: Vec<u8>)
        ensures
            final(self)@ == old(self)@.put(bytes@),
    {
        self.frame = Some(bytes);
    }

    /// A copy of the stored frame, or `None` before the first `put`.
    pub fn get(&self) -> (frame: Option<Vec<u8>>)
        ensures
            bytes_view(frame) == self@.get(),
    {
        match &self.frame {
            Some(bytes) => Some(bytes.clone()),
            None => None,
        }
    }

    /// Notes that the screen may have changed.
    pub fn mark_dirty(&mut self)
        ensures
            final(self)@ == (FrameStoreView { dirty: true, ..old(self)@ }),
    {
        self.dirty = true;
    }

    /// Notes that a frame has been served.
    pub fn clear_dirty(&mut self)
        ensures
            final(self)@ == (FrameStoreView { dirty: false, ..old(self)@ }),
    {
        self.dirty = false;
    }

    /// Whether the screen may have changed since a frame was last served.
    pub fn is_dirty(&self) -> (dirty: bool)
        ensures
            dirty == self@.dirty,
    {
        self.dirty
    }
}

/// A reader gets exactly the frame that was put last, whatever the store
/// held before; and a store into which nothing was put gives nothing.
pub proof fn law_put_then_get(store: FrameStoreView, bytes: Seq<u8>)
    ensures
        store.put(bytes).get() == Some(bytes),
        FrameStoreView::empty().get().is_none(),
{
}

} // verus!
