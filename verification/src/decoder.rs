//! The decoder's accept / emit protocol.
//!
//! The codec primitive decompresses; [`Decoder`] keeps the protocol around it:
//! which phase the stream is in, whether the codec holds input, and what each
//! of the codec's replies means to the caller.

use vstd::prelude::*;
use crate::codec::CodecError;
use crate::frame::FrameInfo;

verus! {

/// Where the decoder is in its life.
#[derive(Clone, Copy, Debug, PartialEq, Eq, Structural)]
pub enum Phase {
    /// Packets are accepted.
    Open,
    /// End of input was signalled; only buffered frames are left.
    Flushing,
    /// The end of the stream was seen, or the decoder was closed early.
    Closed,
}

/// The outcome of asking for a frame.
#[derive(Clone, Copy, Debug, PartialEq, Eq)]
pub enum Emit {
    /// A decoded frame, in the stream's native format.
    Frame(FrameInfo),
    /// Nothing to hand out right now: supply another packet.
    NotReady,
    /// Nothing will ever come again.
    EndOfStream,
}

/// Why a packet was not accepted.
#[derive(Clone, Copy, Debug, PartialEq, Eq)]
pub enum AcceptError {
    /// The packet was corrupt. Skip it and go on: this is the one recoverable
    /// error.
    Corrupt,
    /// A packet was offered after end of input had been signalled.
    InputClosed,
    /// The codec failed in any other way.
    Codec(CodecError),
}

/// Why no frame, and no orderly answer either, came out.
#[derive(Clone, Copy, Debug, PartialEq, Eq)]
pub enum EmitError {
    /// The codec asked for more input while flushing, when none can come.
    Stalled,
    /// The codec announced the end of the stream before end of input was
    /// signalled.
    Premature,
    /// The codec failed in any other way.
    Codec(CodecError),
}

impl AcceptError {
    /// Only a corrupt packet lets the pipeline go on.
    pub open spec fn is_recoverable(self) -> bool {
        self == AcceptError::Corrupt
    }

    /// Whether the pipeline may go on after this rejection.
    pub fn recoverable(&self) -> (b: bool)
        ensures
            b == self.is_recoverable(),
    {
        match self {
            AcceptError::Corrupt => true,
            _ => false,
        }
    }
}

/// The protocol state of a decoder.
#[derive(Clone, Copy, Debug, PartialEq, Eq)]
pub struct Decoder {
    pub phase: Phase,
    /// A packet was accepted since the codec last ran dry.
    pub primed: bool,
}

impl Decoder {
    /// A decoder that has seen nothing yet.
    pub open spec fn fresh() -> Decoder {
        Decoder { phase: Phase::Open, primed: false }
    }

    /// What `try_emit` answers without the codec, if it can: a closed decoder
    /// has ended, an open one without input has nothing.
    pub open spec fn settled(self) -> Option<Emit> {
        match self.phase {
            Phase::Closed => Some(Emit::EndOfStream),
            Phase::Open => if self.primed { None } else { Some(Emit::NotReady) },
            Phase::Flushing => None,
        }
    }

    /// The decoder and the answer after a packet was offered and the codec
    /// replied `reply`.
    pub open spec fn after_accept(self, reply: Result<(), CodecError>) -> (Decoder, Result<(), AcceptError>) {
        if self.phase != Phase::Open {
            (self, Err(AcceptError::InputClosed))
        } else {
            match reply {
                Ok(_) => (Decoder { primed: true, ..self }, Ok(())),
                Err(e) => if e.is_corrupt() {
                    (self, Err(AcceptError::Corrupt))
                } else {
                    (self, Err(AcceptError::Codec(e)))
                },
            }
        }
    }

    /// What the codec's reply to a request for a frame means in `phase`.
    pub open spec fn reading(phase: Phase, reply: Result<FrameInfo, CodecError>) -> Result<Emit, EmitError> {
        match reply {
            Ok(info) => Ok(Emit::Frame(info)),
            Err(e) => if e.is_again() {
                if phase == Phase::Flushing { Err(EmitError::Stalled) } else { Ok(Emit::NotReady) }
            } else if e.is_end() {
                if phase == Phase::Flushing { Ok(Emit::EndOfStream) } else { Err(EmitError::Premature) }
            } else {
                Err(EmitError::Codec(e))
            },
        }
    }

    /// The decoder and the answer after a frame was asked for and the codec
    /// replied `reply`. A settled decoder answers by itself.
    pub open spec fn after_try_emit(self, reply: Result<FrameInfo, CodecError>) -> (Decoder, Result<Emit, EmitError>) {
        match self.settled() {
            Some(answer) => (self, Ok(answer)),
            None => match Self::reading(self.phase, reply) {
                Ok(Emit::NotReady) => (Decoder { primed: false, ..self }, Ok(Emit::NotReady)),
                Ok(Emit::EndOfStream) => (Decoder { phase: Phase::Closed, ..self }, Ok(Emit::EndOfStream)),
                answer => (self, answer),
            },
        }
    }

    /// The decoder and the answer after end of input was signalled and the
    /// codec replied `reply`. Signalling again changes nothing.
    pub open spec fn after_signal(self, reply: Result<(), CodecError>) -> (Decoder, Result<(), CodecError>) {
        if self.phase != Phase::Open {
            (self, Ok(()))
        } else {
            match reply {
                Ok(_) => (Decoder { phase: Phase::Flushing, ..self }, Ok(())),
                Err(e) => (self, Err(e)),
            }
        }
    }

    /// A decoder that has seen nothing yet: open, and without input.
    pub fn new() -> (d: Decoder)
        ensures
            d == Decoder::fresh(),
    {
        Decoder { phase: Phase::Open, primed: false }
    }

    /// Whether `try_emit` can answer without the codec, and with what.
    pub fn idle(&self) -> (answer: Option<Emit>)
        ensures
            answer == self.settled(),
    {
        match self.phase {
            Phase::Closed => Some(Emit::EndOfStream),
            Phase::Open => if self.primed { None } else { Some(Emit::NotReady) },
            Phase::Flushing => None,
        }
    }

    /// Takes the codec's reply to a packet of this decoder's stream.
    ///
    /// `Ok` when the codec took the packet; `Corrupt` when it found the data
    /// invalid, which leaves the decoder as it was; `InputClosed`, whatever
    /// the reply, once end of input was signalled.
    pub fn accept(&mut self, reply: Result<(), CodecError>) -> (r: Result<(), AcceptError>)
        ensures
            (*final(self), r) == old(self).after_accept(reply),
    {
        match self.phase {
            Phase::Open => {},
            _ => { return Err(AcceptError::InputClosed); },
        }
        match reply {
            Ok(_) => {
                self.primed = true;
                Ok(())
            },
            Err(e) => if e.corrupt() {
                Err(AcceptError::Corrupt)
            } else {
                Err(AcceptError::Codec(e))
            },
        }
    }

    /// Takes the codec's reply to a request for a frame.
    ///
    /// Never blocks and never repeats the request. A decoder that holds no
    /// input answers `NotReady`, a closed one `EndOfStream`, both without
    /// looking at `reply`.
    pub fn try_emit(&mut self, reply: Result<FrameInfo, CodecError>) -> (r: Result<Emit, EmitError>)
        ensures
            (*final(self), r) == old(self).after_try_emit(reply),
    {
        match self.idle() {
            Some(answer) => { return Ok(answer); },
            None => {},
        }
        let flushing = match self.phase {
            Phase::Flushing => true,
            _ => false,
        };
        match reply {
            Ok(info) => Ok(Emit::Frame(info)),
            Err(e) => if e.again() {
                if flushing {
                    Err(EmitError::Stalled)
                } else {
                    self.primed = false;
                    Ok(Emit::NotReady)
                }
            } else if e.end() {
                if flushing {
                    self.phase = Phase::Closed;
                    Ok(Emit::EndOfStream)
                } else {
                    Err(EmitError::Premature)
                }
            } else {
                Err(EmitError::Codec(e))
            },
        }
    }

    /// Takes the codec's reply to the signal that no more packets will come.
    pub fn signal_end_of_input(&mut self, reply: Result<(), CodecError>) -> (r: Result<(), CodecError>)
        ensures
            (*final(self), r) == old(self).after_signal(reply),
    {
        match self.phase {
            Phase::Open => {},
            _ => { return Ok(()); },
        }
        match reply {
            Ok(_) => {
                self.phase = Phase::Flushing;
                Ok(())
            },
            Err(e) => Err(e),
        }
    }

    /// Closes the decoder early and drops whatever the codec still holds.
    pub fn close(&mut self)
        ensures
            *final(self) == (Decoder { phase: Phase::Closed, ..*old(self) }),
    {
        self.phase = Phase::Closed;
    }
}

/// A decoder that has accepted nothing answers `NotReady` to a request for a
/// frame, whatever the codec may say, and stays as it was: never a frame.
pub proof fn law_fresh_decoder_is_not_ready(reply: Result<FrameInfo, CodecError>)
    ensures
        Decoder::fresh().settled() == Some(Emit::NotReady),
        Decoder::fresh().after_try_emit(reply) == (Decoder::fresh(), Ok::<Emit, EmitError>(Emit::NotReady)),
{
}

/// A frame comes out only of a decoder that holds input or is flushing, and
/// it is the frame that the codec released. The decoder is left as it was.
pub proof fn law_frames_come_from_the_codec(d: Decoder, reply: Result<FrameInfo, CodecError>, frame: FrameInfo)
    requires
        d.after_try_emit(reply).1 == Ok::<Emit, EmitError>(Emit::Frame(frame)),
    ensures
        reply == Ok::<FrameInfo, CodecError>(frame),
        d.phase == Phase::Flushing || (d.phase == Phase::Open && d.primed),
        d.after_try_emit(reply).0 == d,
{
}

/// The end of the stream is reported only after end of input was signalled,
/// and it closes the decoder.
pub proof fn law_end_of_stream_follows_end_of_input(d: Decoder, reply: Result<FrameInfo, CodecError>)
    requires
        d.after_try_emit(reply).1 == Ok::<Emit, EmitError>(Emit::EndOfStream),
    ensures
        d.phase != Phase::Open,
        d.after_try_emit(reply).0.phase == Phase::Closed,
{
}

/// A flushing decoder never answers `NotReady`: each request yields a frame,
/// the end of the stream, or an error.
pub proof fn law_flushing_never_waits(d: Decoder, reply: Result<FrameInfo, CodecError>)
    requires
        d.phase == Phase::Flushing,
    ensures
        d.after_try_emit(reply).1 != Ok::<Emit, EmitError>(Emit::NotReady),
        d.after_try_emit(reply).0.phase != Phase::Open,
{
}

/// The end of the stream is final: a closed decoder stays closed, reports the
/// end of the stream again, and takes no packet.
pub proof fn law_closed_is_final(
    d: Decoder,
    packet: Result<(), CodecError>,
    frame: Result<FrameInfo, CodecError>,
    signal: Result<(), CodecError>,
)
    requires
        d.phase == Phase::Closed,
    ensures
        d.after_accept(packet) == (d, Err::<(), AcceptError>(AcceptError::InputClosed)),
        d.after_try_emit(frame) == (d, Ok::<Emit, EmitError>(Emit::EndOfStream)),
        d.after_signal(signal) == (d, Ok::<(), CodecError>(())),
{
}

/// Once end of input was signalled no packet is accepted, whatever the codec
/// would say to it.
pub proof fn law_no_packet_after_end_of_input(d: Decoder, signal: Result<(), CodecError>, packet: Result<(), CodecError>)
    requires
        d.after_signal(signal).1 is Ok,
    ensures
        d.after_signal(signal).0.phase != Phase::Open,
        d.after_signal(signal).0.after_accept(packet).1 == Err::<(), AcceptError>(AcceptError::InputClosed),
{
}

/// A corrupt packet leaves an open decoder exactly as it was, and is the only
/// rejection that is recoverable.
pub proof fn law_corrupt_packet_leaves_no_trace(d: Decoder, reply: Result<(), CodecError>)
    requires
        d.phase == Phase::Open,
    ensures
        d.after_accept(Err(CodecError::InvalidData)) == (d, Err::<(), AcceptError>(AcceptError::Corrupt)),
        (d.after_accept(reply).1 matches Err(e) && e.is_recoverable()) <==> reply == Err::<(), CodecError>(
            CodecError::InvalidData,
        ),
        d.after_accept(reply).1 is Err ==> d.after_accept(reply).0 == d,
{
}

} // verus!
