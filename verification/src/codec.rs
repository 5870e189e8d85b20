//! What the codec primitive reports, as plain values.

use vstd::prelude::*;

verus! {

/// The POSIX code with which a codec says "nothing to hand out right now".
pub const EAGAIN: i32 = 11;

/// An error reported by the codec primitive.
#[derive(Clone, Copy, Debug, PartialEq, Eq, Structural)]
pub enum CodecError {
    /// The data handed in could not be decoded.
    InvalidData,
    /// The codec has been drained and holds nothing more.
    EndOfFile,
    /// A wrapped POSIX error code.
    Posix { errno: i32 },
    /// Any other failure, by the codec library's own code for it.
    Library { code: i32 },
}

impl CodecError {
    /// The codec wants more input before it can release output.
    pub open spec fn is_again(self) -> bool {
        self == (CodecError::Posix { errno: EAGAIN })
    }

    /// The codec has reached the end of its stream.
    pub open spec fn is_end(self) -> bool {
        self == CodecError::EndOfFile
    }

    /// The data was corrupt; nothing else is wrong.
    pub open spec fn is_corrupt(self) -> bool {
        self == CodecError::InvalidData
    }

    /// Whether the codec wants more input before it can release output.
    pub fn again(&self) -> (b: bool)
        ensures
            b == self.is_again(),
    {
        match self {
            CodecError::Posix { errno } => *errno == EAGAIN,
            _ => false,
        }
    }

    /// Whether the codec has reached the end of its stream.
    pub fn end(&self) -> (b: bool)
        ensures
            b == self.is_end(),
    {
        match self {
            CodecError::EndOfFile => true,
            _ => false,
        }
    }

    /// Whether the data was corrupt and nothing else is wrong.
    pub fn corrupt(&self) -> (b: bool)
        ensures
            b == self.is_corrupt(),
    {
        match self {
            CodecError::InvalidData => true,
            _ => false,
        }
    }
}

} // verus!
