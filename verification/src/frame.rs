//! Stream and frame metadata.

use vstd::prelude::*;

verus! {

/// The memory layout and colour model of a frame's samples.
#[derive(Clone, Copy, Debug, PartialEq, Eq, Structural)]
pub enum PixelFormat {
    /// Packed red, green, blue: three bytes per pixel.
    Rgb24,
    /// Any other layout, by the codec library's code for it.
    Native { code: i32 },
}

/// What kind of media a stream carries.
#[derive(Clone, Copy, Debug, PartialEq, Eq, Structural)]
pub enum MediaKind {
    Video,
    Audio,
    Other,
}

/// Pixel format and dimensions: all that the pipeline reads of a frame.
#[derive(Clone, Copy, Debug, PartialEq, Eq, Structural)]
pub struct FrameInfo {
    pub format: PixelFormat,
    pub width: u32,
    pub height: u32,
}

/// The metadata of one stream, as the container reports it. The pixel format
/// and the picture size of a video stream are the decoder's to report, once it
/// is open: see [`FrameInfo`].
#[derive(Clone, Copy, Debug, PartialEq, Eq, Structural)]
pub struct StreamDescriptor {
    /// Unique within the source.
    pub index: usize,
    pub kind: MediaKind,
}

impl FrameInfo {
    /// The same picture size in packed RGB.
    pub open spec fn as_rgb24(self) -> FrameInfo {
        FrameInfo { format: PixelFormat::Rgb24, width: self.width, height: self.height }
    }

    /// The same picture size in packed RGB.
    pub fn to_rgb24(&self) -> (out: FrameInfo)
        ensures
            out == self.as_rgb24(),
    {
        FrameInfo { format: PixelFormat::Rgb24, width: self.width, height: self.height }
    }

    /// Whether the two have the same format, width and height.
    pub fn same(&self, other: &FrameInfo) -> (b: bool)
        ensures
            b == (*self == *other),
    {
        self.format == other.format && self.width == other.width && self.height == other.height
    }
}

} // verus!
