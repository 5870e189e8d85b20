//! Fatal errors of the pipeline, with the place where each arose.

use vstd::prelude::*;
use crate::codec::CodecError;
use crate::decoder::{AcceptError, EmitError};
use crate::ppm::ImageError;

verus! {

/// A step of the pipeline: what it is waiting for, or where it failed.
#[derive(Clone, Copy, Debug, PartialEq, Eq, Structural)]
pub enum Stage {
    /// Opening the source.
    Open,
    /// Choosing the video stream.
    Select,
    /// Opening the decoder of the chosen stream.
    Prepare,
    /// Setting up the frame converter.
    Configure,
    /// Reading the next packet.
    Read,
    /// Handing a packet to the decoder.
    Accept,
    /// Asking the decoder for a frame.
    Emit,
    /// Converting a frame.
    Convert,
    /// Handing a converted frame to the sink.
    Store,
    /// Signalling end of input.
    Flush,
}

/// Why the sink did not take a file.
#[derive(Clone, Copy, Debug, PartialEq, Eq, Structural)]
pub enum SinkError {
    /// The file could not be created.
    Create,
    /// The file was created, but not all of it could be written.
    Write,
}

/// Why the pipeline stopped.
#[derive(Clone, Copy, Debug, PartialEq, Eq)]
pub enum Cause {
    /// The outside primitive reported an error.
    Codec(CodecError),
    /// The source has no video stream.
    StreamNotFound,
    /// A packet was offered after end of input had been signalled.
    InputClosed,
    /// The codec asked for more input while flushing.
    Stalled,
    /// The codec ended the stream before end of input was signalled.
    Premature,
    /// A frame did not have the format or size the converter was set up for.
    FrameMismatch,
    /// The converter's output has the right format and size, but its samples
    /// do not lie within its buffer.
    Image(ImageError),
    /// The sink failed.
    Sink(SinkError),
    /// No frame index is left.
    IndexExhausted,
    /// The event was not an answer to the command that was outstanding.
    Unexpected,
}

/// A fatal error: the stage at which it arose, the ordinal of the packet or
/// frame that was being processed, and the cause.
#[derive(Clone, Copy, Debug, PartialEq, Eq)]
pub struct PipelineError {
    pub stage: Stage,
    /// A packet ordinal at the stages `Read`, `Accept` and `Flush`; a frame
    /// index at `Emit`, `Convert` and `Store`; zero during set-up.
    pub ordinal: u64,
    pub cause: Cause,
}

impl Stage {
    /// The stage works on packets, so that its ordinal counts packets.
    pub open spec fn counts_packets(self) -> bool {
        self == Stage::Read || self == Stage::Accept || self == Stage::Flush
    }

    /// The stage works on frames, so that its ordinal is a frame index.
    pub open spec fn counts_frames(self) -> bool {
        self == Stage::Emit || self == Stage::Convert || self == Stage::Store
    }

    /// Whether an error at this stage carries the ordinal of a packet.
    pub fn on_packets(&self) -> (b: bool)
        ensures
            b == self.counts_packets(),
    {
        match self {
            Stage::Read | Stage::Accept | Stage::Flush => true,
            _ => false,
        }
    }

    /// Whether an error at this stage carries the index of a frame.
    pub fn on_frames(&self) -> (b: bool)
        ensures
            b == self.counts_frames(),
    {
        match self {
            Stage::Emit | Stage::Convert | Stage::Store => true,
            _ => false,
        }
    }
}

impl Cause {
    /// The cause that stands for a rejected packet. A corrupt packet is
    /// recoverable and no cause for a stop: it shows as the codec's own error.
    pub open spec fn of_accept(e: AcceptError) -> Cause {
        match e {
            AcceptError::Corrupt => Cause::Codec(CodecError::InvalidData),
            AcceptError::InputClosed => Cause::InputClosed,
            AcceptError::Codec(c) => Cause::Codec(c),
        }
    }

    /// The cause that stands for a failed request for a frame.
    pub open spec fn of_emit(e: EmitError) -> Cause {
        match e {
            EmitError::Stalled => Cause::Stalled,
            EmitError::Premature => Cause::Premature,
            EmitError::Codec(c) => Cause::Codec(c),
        }
    }

    /// The cause that stands for a rejected packet.
    pub fn from_accept(e: AcceptError) -> (cause: Cause)
        ensures
            cause == Cause::of_accept(e),
    {
        match e {
            AcceptError::Corrupt => Cause::Codec(CodecError::InvalidData),
            AcceptError::InputClosed => Cause::InputClosed,
            AcceptError::Codec(c) => Cause::Codec(c),
        }
    }

    /// The cause that stands for a failed request for a frame.
    pub fn from_emit(e: EmitError) -> (cause: Cause)
        ensures
            cause == Cause::of_emit(e),
    {
        match e {
            EmitError::Stalled => Cause::Stalled,
            EmitError::Premature => Cause::Premature,
            EmitError::Codec(c) => Cause::Codec(c),
        }
    }
}

impl PipelineError {
    /// The source holds no video stream to work on.
    pub open spec fn is_not_found(self) -> bool {
        self.cause == Cause::StreamNotFound
    }

    /// Whether the pipeline stopped because the source holds no video stream.
    pub fn not_found(&self) -> (b: bool)
        ensures
            b == self.is_not_found(),
    {
        match self.cause {
            Cause::StreamNotFound => true,
            _ => false,
        }
    }
}

} // verus!
