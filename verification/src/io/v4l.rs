//! The video capture device: how it is configured, when it may be asked
//! for a frame, and what a frame becomes.
//!
//! The library keeps the state of a camera and turns frames into images. To
//! open the device, apply the configuration and wait for a frame is left to
//! the caller.

use crate::color::Rgb;
use crate::image_buf::{ImageBuf, ShapeMismatch};
use vstd::prelude::*;

verus! {

/// What a capture device is asked for.
#[derive(Debug, PartialEq, Eq)]
pub struct Config {
    /// The time between two frames: numerator and denominator, in seconds.
    pub interval: (u32, u32),
    /// The width and the height of a frame.
    pub resolution: (u32, u32),
    /// The four-character code of the pixel format.
    pub format: Vec<u8>,
    /// How interlaced video is stored.
    pub field: u32,
    /// The number of buffers in the queue of the device.
    pub nbuffers: u32,
}

/// The four-character code `RGB3`: three channels, one byte each.
pub open spec fn spec_rgb3() -> Seq<u8> {
    seq![0x52u8, 0x47u8, 0x42u8, 0x33u8]
}

/// The four-character code `YUYV`.
pub open spec fn spec_yuyv() -> Seq<u8> {
    seq![0x59u8, 0x55u8, 0x59u8, 0x56u8]
}

/// The field order of progressive video.
pub const FIELD_NONE: u32 = 1;

/// `rscam::Config::default`, field by field: a frame every tenth of a
/// second, 640 by 480 pixels, the format `YUYV`, progressive video, and two
/// buffers.
#[verifier::external_body]
fn default_config() -> (c: Config)
    ensures
        c.interval == (1u32, 10u32),
        c.resolution == (640u32, 480u32),
        c.format@ == spec_yuyv(),
        c.field == FIELD_NONE,
        c.nbuffers == 2,
{
    let d = rscam::Config::default();
    Config {
        interval: d.interval,
        resolution: d.resolution,
        format: d.format.to_vec(),
        field: d.field,
        nbuffers: d.nbuffers,
    }
}

/// Whether `c` is the configuration for frames of the given width and
/// height: the format `RGB3`, thirty frames a second, progressive video and
/// two buffers.
pub open spec fn spec_config(c: Config, width: u32, height: u32) -> bool {
    &&& c.interval == (1u32, 30u32)
    &&& c.resolution == (width, height)
    &&& c.format@ == spec_rgb3()
    &&& c.field == FIELD_NONE
    &&& c.nbuffers == 2
}

/// A camera: the resolution it is to deliver, and whether it is streaming.
pub struct Webcam {
    width: u32,
    height: u32,
    streaming: bool,
}

impl Webcam {
    /// The width of the frames asked for.
    pub closed spec fn spec_width(&self) -> u32 {
        self.width
    }

    /// The height of the frames asked for.
    pub closed spec fn spec_height(&self) -> u32 {
        self.height
    }

    /// Whether the device has taken the configuration and delivers frames.
    pub closed spec fn spec_streaming(&self) -> bool {
        self.streaming
    }

    /// The configuration for frames of the given width and height: the
    /// format `RGB3`, that resolution, and thirty frames a second; the rest
    /// as the device library has it by default.
    pub fn config(width: u32, height: u32) -> (c: Config)
        ensures
            spec_config(c, width, height),
    {
        let mut c = default_config();
        let mut format: Vec<u8> = Vec::new();
        format.push(0x52);
        format.push(0x47);
        format.push(0x42);
        format.push(0x33);
        assert(format@ =~= spec_rgb3());
        c.format = format;
        c.resolution = (width, height);
        c.interval = (1, 30);
        c
    }

    /// A camera whose device was opened and is not streaming yet.
    pub fn new(width: u32, height: u32) -> (cam: Webcam)
        ensures
            cam.spec_width() == width,
            cam.spec_height() == height,
            !cam.spec_streaming(),
    {
        Webcam { width, height, streaming: false }
    }

    /// The width of the frames asked for.
    pub fn width(&self) -> (w: u32)
        ensures
            w == self.spec_width(),
    {
        self.width
    }

    /// The height of the frames asked for.
    pub fn height(&self) -> (h: u32)
        ensures
            h == self.spec_height(),
    {
        self.height
    }

    /// Whether the camera is streaming.
    pub fn streaming(&self) -> (b: bool)
        ensures
            b == self.spec_streaming(),
    {
        self.streaming
    }

    /// The configuration to apply to a device that is not streaming, to
    /// start it.
    pub fn start(&self) -> (c: Config)
        requires
            !self.spec_streaming(),
        ensures
            spec_config(c, self.spec_width(), self.spec_height()),
    {
        Self::config(self.width, self.height)
    }

    /// Records what the device answered to the configuration: it streams
    /// from now on where it accepted, and is as before where it refused.
    pub fn started(&mut self, accepted: bool)
        requires
            !old(self).spec_streaming(),
        ensures
            final(self).spec_streaming() == accepted,
            final(self).spec_width() == old(self).spec_width(),
            final(self).spec_height() == old(self).spec_height(),
    {
        self.streaming = accepted;
    }

    /// The image of a frame that a streaming device delivered: the frame's
    /// bytes as `u8` elements in RGB, under the resolution that the frame
    /// reports. Bytes that are not exactly three for each pixel give
    /// `ShapeMismatch`.
    pub fn capture(&self, resolution: (u32, u32), frame: Vec<u8>) -> (r: Result<
        ImageBuf<u8, Rgb>,
        ShapeMismatch,
    >)
        requires
            self.spec_streaming(),
        ensures
            spec_captured(resolution, frame@, r),
    {
        ImageBuf::new(resolution.0 as usize, resolution.1 as usize, frame)
    }
}

/// Whether `r` is what a frame of the given resolution and bytes becomes:
/// an image of that width and height with three channels over those bytes,
/// where the bytes are three for each pixel, and `ShapeMismatch` where they
/// are not.
pub open spec fn spec_captured(
    resolution: (u32, u32),
    frame: Seq<u8>,
    r: Result<ImageBuf<u8, Rgb>, ShapeMismatch>,
) -> bool {
    &&& ImageBuf::<u8, Rgb>::spec_new(resolution.0 as usize, resolution.1 as usize, frame, r)
    &&& r matches Ok(image) ==> image.spec_shape() == (
        resolution.0 as usize,
        resolution.1 as usize,
        3usize,
    )
}

/// Every image that a camera makes of a frame under the resolution it was
/// configured with has the configured width and height and three channels.
pub proof fn lemma_captured_shape(
    cam: Webcam,
    frame: Seq<u8>,
    r: Result<ImageBuf<u8, Rgb>, ShapeMismatch>,
)
    requires
        spec_captured((cam.spec_width(), cam.spec_height()), frame, r),
        r is Ok,
    ensures
        r->Ok_0.spec_shape() == (cam.spec_width() as usize, cam.spec_height() as usize, 3usize),
        r->Ok_0.spec_data().len() == cam.spec_width() * cam.spec_height() * 3,
{
}

} // verus!
