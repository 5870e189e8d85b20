//! The parameters of the frame converter.

use vstd::prelude::*;
use crate::frame::{FrameInfo, PixelFormat};

verus! {

/// How the converter interpolates between samples.
#[derive(Clone, Copy, Debug, PartialEq, Eq, Structural)]
pub enum Filter {
    /// Linear in both directions: smooth, as a change of size calls for.
    Bilinear,
}

/// What a converter turns into what. Made once, when the pipeline is set up,
/// and used unchanged for every frame.
#[derive(Clone, Copy, Debug, PartialEq, Eq)]
pub struct ConverterConfig {
    /// The format and size of the frames that come in.
    pub source: FrameInfo,
    /// The format and size of the frames that go out.
    pub target: FrameInfo,
    pub filter: Filter,
}

impl ConverterConfig {
    /// The pipeline's converter for frames like `source`: packed RGB at the
    /// same resolution.
    pub open spec fn for_source(source: FrameInfo) -> ConverterConfig {
        ConverterConfig { source, target: source.as_rgb24(), filter: Filter::Bilinear }
    }

    /// The converter takes `frame` as input.
    pub open spec fn admits(self, frame: FrameInfo) -> bool {
        frame == self.source
    }

    /// `frame` is what the converter is set up to produce.
    pub open spec fn yields(self, frame: FrameInfo) -> bool {
        frame == self.target
    }

    /// Whether the picture size changes.
    pub open spec fn resizes(self) -> bool {
        self.source.width != self.target.width || self.source.height != self.target.height
    }

    /// The parameters of the pipeline's converter for frames like `source`:
    /// packed RGB at the same size.
    pub fn new(source: FrameInfo) -> (config: ConverterConfig)
        ensures
            config == ConverterConfig::for_source(source),
            !config.resizes(),
            config.target.format == PixelFormat::Rgb24,
    {
        ConverterConfig { source, target: source.to_rgb24(), filter: Filter::Bilinear }
    }

    /// Whether the converter takes `frame` as input.
    pub fn accepts_input(&self, frame: &FrameInfo) -> (b: bool)
        ensures
            b == self.admits(*frame),
    {
        frame.same(&self.source)
    }

    /// Whether `frame` is what the converter is set up to produce.
    pub fn accepts_output(&self, frame: &FrameInfo) -> (b: bool)
        ensures
            b == self.yields(*frame),
    {
        frame.same(&self.target)
    }
}

} // verus!
