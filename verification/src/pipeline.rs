//! The pipeline driver: from the state and what just happened to the next
//! state and what to do next.
//!
//! The caller owns the source, the codec and the sink. It starts with
//! [`Pipeline::new`], performs the command it is given and reports the result
//! as an [`Event`] to [`Pipeline::step`], which answers with the next command,
//! until that is `Finish` or `Abort`.

use vstd::prelude::*;
use crate::codec::CodecError;
use crate::converter::ConverterConfig;
use crate::decoder::{Decoder, Emit, Phase};
use crate::failure::{Cause, PipelineError, SinkError, Stage};
use crate::frame::{FrameInfo, MediaKind, StreamDescriptor};
use crate::ppm::{file_name, Image, RasterFile};

verus! {

/// What the caller reports.
#[derive(Debug, PartialEq, Eq)]
pub enum Event {
    /// The source was opened, or could not be.
    SourceOpened(Result<(), CodecError>),
    /// The container's best video stream, if it has one.
    StreamSelected(Option<StreamDescriptor>),
    /// The decoder was opened and will emit frames like these, or could not be.
    DecoderOpened(Result<FrameInfo, CodecError>),
    /// The converter was set up, or could not be.
    ConverterBuilt(Result<(), CodecError>),
    /// The next packet of the container belongs to stream `stream`.
    Packet { stream: usize },
    /// The container holds no more packets.
    EndOfPackets,
    /// The codec's reply to the packet.
    Accepted(Result<(), CodecError>),
    /// The codec's reply to the request for a frame: what kind of frame it
    /// released, if it released one. The frame itself stays with the caller.
    Emitted(Result<FrameInfo, CodecError>),
    /// The converter's output, or its failure.
    Converted(Result<Image, CodecError>),
    /// The sink took the file, or failed.
    Stored(Result<(), SinkError>),
    /// The codec's reply to the end of input.
    EndOfInputSignalled(Result<(), CodecError>),
}

/// What the caller is to do next.
#[derive(Clone, Copy, Debug, PartialEq, Eq)]
pub enum Command {
    /// Open the source. Answer with `SourceOpened`.
    OpenSource,
    /// Ask the container for its best video stream. Answer with
    /// `StreamSelected`.
    SelectStream,
    /// Open the decoder of stream `stream`. Answer with `DecoderOpened`.
    OpenDecoder { stream: usize },
    /// Set up the converter with these parameters, once. Answer with
    /// `ConverterBuilt`.
    BuildConverter(ConverterConfig),
    /// Read the next packet. Answer with `Packet` or `EndOfPackets`.
    ReadPacket,
    /// Hand the packet just read to the codec. Answer with `Accepted`.
    Accept,
    /// Ask the codec for a frame, once and without waiting. Answer with
    /// `Emitted`.
    TryEmit,
    /// Convert the frame just emitted. Answer with `Converted`.
    Convert,
    /// Hand the file that comes with this command, which holds the converted
    /// frame number `index`, to the sink. Answer with `Stored`.
    Store { index: u64 },
    /// Tell the codec that no more packets will come. Answer with
    /// `EndOfInputSignalled`.
    SignalEndOfInput,
    /// Stop: the pipeline ended in good order.
    Finish,
    /// Stop: the pipeline failed.
    Abort(PipelineError),
}

/// Whether the pipeline runs, and how it ended if it does not.
#[derive(Clone, Copy, Debug, PartialEq, Eq)]
pub enum Status {
    /// The command of this stage is outstanding.
    Running(Stage),
    /// The end of the stream was seen after every buffered frame.
    Completed,
    /// The caller stopped the pipeline early.
    Cancelled,
    /// A fatal error stopped the pipeline.
    Failed(PipelineError),
}

/// The state of the pipeline driver.
#[derive(Clone, Copy, Debug, PartialEq, Eq)]
pub struct Pipeline {
    pub status: Status,
    /// The stream whose packets are decoded, once it is chosen.
    pub selected: Option<StreamDescriptor>,
    /// The converter's parameters, once the decoder is open.
    pub converter: Option<ConverterConfig>,
    pub decoder: Decoder,
    /// How many packets have been dealt with: the ordinal of the next one.
    /// Stays at the largest value once it is reached.
    pub packets: u64,
    /// How many frames the sink has taken: the index of the next one.
    pub frame_index: u64,
}

impl Pipeline {
    /// The pipeline before anything has happened: `OpenSource` is outstanding.
    pub open spec fn initial() -> Pipeline {
        Pipeline {
            status: Status::Running(Stage::Open),
            selected: None,
            converter: None,
            decoder: Decoder::fresh(),
            packets: 0,
            frame_index: 0,
        }
    }

    /// What holds of every pipeline that `new`, `step` and `cancel` lead to:
    /// the stream and the converter are known from the stage on at which they
    /// are fixed, the stream is a video stream, the converter is the one for
    /// its source, the decoder's phase fits the stage, and nothing is counted
    /// before the first packet is read.
    pub open spec fn well_formed(self) -> bool {
        match self.status {
            Status::Running(stage) => {
                let setting_up = !stage.counts_packets() && !stage.counts_frames();
                &&& (stage == Stage::Open || stage == Stage::Select) <==> self.selected is None
                &&& self.selected matches Some(d) ==> d.kind == MediaKind::Video
                &&& (stage == Stage::Open || stage == Stage::Select || stage == Stage::Prepare)
                    <==> self.converter is None
                &&& self.converter matches Some(c) ==> c == ConverterConfig::for_source(c.source)
                &&& (stage == Stage::Read || stage == Stage::Accept || stage == Stage::Flush) ==> self.decoder.phase
                    == Phase::Open
                &&& stage.counts_frames() ==> (self.decoder.phase == Phase::Flushing || (self.decoder.phase
                    == Phase::Open && self.decoder.primed))
                &&& setting_up ==> self.decoder == Decoder::fresh() && self.packets == 0 && self.frame_index == 0
            },
            Status::Completed => self.decoder.phase == Phase::Closed,
            Status::Cancelled => self.decoder.phase == Phase::Closed,
            Status::Failed(_) => true,
        }
    }

    /// The packet belongs to the chosen stream.
    pub open spec fn routes(self, stream: usize) -> bool {
        self.selected matches Some(d) && d.index == stream
    }

    /// The converter takes frames like `frame`.
    pub open spec fn converts(self, frame: FrameInfo) -> bool {
        self.converter matches Some(c) && c.admits(frame)
    }

    /// The converter is set up to produce frames like `frame`.
    pub open spec fn expects(self, frame: FrameInfo) -> bool {
        self.converter matches Some(c) && c.yields(frame)
    }

    /// The file that comes with the command given in answer to `event`, as
    /// name and contents: there is one where a frame that the converter was
    /// set up to produce, and that is valid, has just been converted.
    pub open spec fn product(self, event: Event) -> Option<(Seq<u8>, Seq<u8>)> {
        match event {
            Event::Converted(Ok(image)) => if self.status == Status::Running(Stage::Convert) && self.expects(
                image.info(),
            ) && image.valid() {
                Some((file_name(self.frame_index as nat), image.encoding()))
            } else {
                None
            },
            _ => None,
        }
    }

    /// The ordinal that an error at `stage` carries.
    pub open spec fn ordinal_at(self, stage: Stage) -> u64 {
        if stage.counts_packets() {
            self.packets
        } else if stage.counts_frames() {
            self.frame_index
        } else {
            0
        }
    }

    /// This pipeline, now waiting at `stage`, and the command of that stage.
    pub open spec fn wait(self, stage: Stage, command: Command) -> (Pipeline, Command) {
        (Pipeline { status: Status::Running(stage), ..self }, command)
    }

    /// This pipeline, failed at `stage` for `cause`.
    pub open spec fn fail(self, stage: Stage, cause: Cause) -> (Pipeline, Command) {
        let error = PipelineError { stage, ordinal: self.ordinal_at(stage), cause };
        (Pipeline { status: Status::Failed(error), ..self }, Command::Abort(error))
    }

    /// This pipeline with one more packet dealt with.
    pub open spec fn counted(self) -> Pipeline {
        Pipeline { packets: if self.packets < u64::MAX { (self.packets + 1) as u64 } else { self.packets }, ..self }
    }

    /// The step taken on `event` while the command of `stage` is outstanding.
    pub open spec fn advance(self, stage: Stage, event: Event) -> (Pipeline, Command) {
        match (stage, event) {
            (Stage::Open, Event::SourceOpened(Ok(_))) => self.wait(Stage::Select, Command::SelectStream),
            (Stage::Open, Event::SourceOpened(Err(e))) => self.fail(Stage::Open, Cause::Codec(e)),
            (Stage::Select, Event::StreamSelected(Some(d))) => if d.kind == MediaKind::Video {
                (Pipeline { selected: Some(d), ..self }).wait(Stage::Prepare, Command::OpenDecoder { stream: d.index })
            } else {
                self.fail(Stage::Select, Cause::StreamNotFound)
            },
            (Stage::Select, Event::StreamSelected(None)) => self.fail(Stage::Select, Cause::StreamNotFound),
            (Stage::Prepare, Event::DecoderOpened(Ok(native))) => {
                let config = ConverterConfig::for_source(native);
                (Pipeline { converter: Some(config), ..self }).wait(Stage::Configure, Command::BuildConverter(config))
            },
            (Stage::Prepare, Event::DecoderOpened(Err(e))) => self.fail(Stage::Prepare, Cause::Codec(e)),
            (Stage::Configure, Event::ConverterBuilt(Ok(_))) => self.wait(Stage::Read, Command::ReadPacket),
            (Stage::Configure, Event::ConverterBuilt(Err(e))) => self.fail(Stage::Configure, Cause::Codec(e)),
            (Stage::Read, Event::Packet { stream }) => if self.routes(stream) {
                self.wait(Stage::Accept, Command::Accept)
            } else {
                self.counted().wait(Stage::Read, Command::ReadPacket)
            },
            (Stage::Read, Event::EndOfPackets) => self.wait(Stage::Flush, Command::SignalEndOfInput),
            (Stage::Accept, Event::Accepted(reply)) => {
                let (decoder, answer) = self.decoder.after_accept(reply);
                let then = Pipeline { decoder, ..self };
                match answer {
                    Ok(_) => then.counted().wait(Stage::Emit, Command::TryEmit),
                    Err(e) => if e.is_recoverable() {
                        then.counted().wait(Stage::Read, Command::ReadPacket)
                    } else {
                        then.fail(Stage::Accept, Cause::of_accept(e))
                    },
                }
            },
            (Stage::Emit, Event::Emitted(reply)) => {
                let (decoder, answer) = self.decoder.after_try_emit(reply);
                let then = Pipeline { decoder, ..self };
                match answer {
                    Ok(Emit::Frame(frame)) => if then.converts(frame) {
                        then.wait(Stage::Convert, Command::Convert)
                    } else {
                        then.fail(Stage::Convert, Cause::FrameMismatch)
                    },
                    Ok(Emit::NotReady) => then.wait(Stage::Read, Command::ReadPacket),
                    Ok(Emit::EndOfStream) => (Pipeline { status: Status::Completed, ..then }, Command::Finish),
                    Err(e) => then.fail(Stage::Emit, Cause::of_emit(e)),
                }
            },
            (Stage::Convert, Event::Converted(Ok(image))) => if !self.expects(image.info()) {
                self.fail(Stage::Convert, Cause::FrameMismatch)
            } else {
                match image.defect() {
                    Some(e) => self.fail(Stage::Convert, Cause::Image(e)),
                    None => self.wait(Stage::Store, Command::Store { index: self.frame_index }),
                }
            },
            (Stage::Convert, Event::Converted(Err(e))) => self.fail(Stage::Convert, Cause::Codec(e)),
            (Stage::Store, Event::Stored(Ok(_))) => if self.frame_index < u64::MAX {
                (Pipeline { frame_index: (self.frame_index + 1) as u64, ..self }).wait(Stage::Emit, Command::TryEmit)
            } else {
                self.fail(Stage::Store, Cause::IndexExhausted)
            },
            (Stage::Store, Event::Stored(Err(e))) => self.fail(Stage::Store, Cause::Sink(e)),
            (Stage::Flush, Event::EndOfInputSignalled(reply)) => {
                let (decoder, answer) = self.decoder.after_signal(reply);
                let then = Pipeline { decoder, ..self };
                match answer {
                    Ok(_) => then.wait(Stage::Emit, Command::TryEmit),
                    Err(e) => then.fail(Stage::Flush, Cause::Codec(e)),
                }
            },
            _ => self.fail(stage, Cause::Unexpected),
        }
    }

    /// The pipeline after `event`, and the command it answers with. A pipeline
    /// that has stopped stays as it is and repeats its last word.
    pub open spec fn next(self, event: Event) -> (Pipeline, Command) {
        match self.status {
            Status::Running(stage) => self.advance(stage, event),
            Status::Completed => (self, Command::Finish),
            Status::Cancelled => (self, Command::Finish),
            Status::Failed(error) => (self, Command::Abort(error)),
        }
    }

    /// The pipeline has stopped, in good order or not.
    pub open spec fn stopped(self) -> bool {
        !(self.status is Running)
    }

    /// How the pipeline ended: nothing while it runs, `Ok` after a clean end,
    /// the error after a failure.
    pub open spec fn ending(self) -> Option<Result<(), PipelineError>> {
        match self.status {
            Status::Running(_) => None,
            Status::Completed => Some(Ok(())),
            Status::Cancelled => Some(Ok(())),
            Status::Failed(error) => Some(Err(error)),
        }
    }

    /// A new pipeline, and its first command: `OpenSource`.
    pub fn new() -> (start: (Pipeline, Command))
        ensures
            start.0 == Pipeline::initial(),
            start.0.well_formed(),
            start.1 == Command::OpenSource,
    {
        let pipeline = Pipeline {
            status: Status::Running(Stage::Open),
            selected: None,
            converter: None,
            decoder: Decoder::new(),
            packets: 0,
            frame_index: 0,
        };
        (pipeline, Command::OpenSource)
    }

    /// Whether the pipeline has stopped, in good order or not.
    pub fn is_stopped(&self) -> (b: bool)
        ensures
            b == self.stopped(),
    {
        match self.status {
            Status::Running(_) => false,
            _ => true,
        }
    }

    /// How the pipeline ended, if it has: a failure can always be told from a
    /// clean end.
    pub fn outcome(&self) -> (end: Option<Result<(), PipelineError>>)
        ensures
            end == self.ending(),
            end is None <==> !self.stopped(),
    {
        match self.status {
            Status::Running(_) => None,
            Status::Completed => Some(Ok(())),
            Status::Cancelled => Some(Ok(())),
            Status::Failed(error) => Some(Err(error)),
        }
    }

    fn ordinal(&self, stage: Stage) -> (n: u64)
        ensures
            n == self.ordinal_at(stage),
    {
        if stage.on_packets() {
            self.packets
        } else if stage.on_frames() {
            self.frame_index
        } else {
            0
        }
    }

    fn wait_at(&mut self, stage: Stage, command: Command) -> (out: Command)
        ensures
            (*final(self), out) == old(self).wait(stage, command),
    {
        self.status = Status::Running(stage);
        command
    }

    fn fail_at(&mut self, stage: Stage, cause: Cause) -> (out: Command)
        ensures
            (*final(self), out) == old(self).fail(stage, cause),
    {
        let error = PipelineError { stage, ordinal: self.ordinal(stage), cause };
        self.status = Status::Failed(error);
        Command::Abort(error)
    }

    fn count_packet(&mut self)
        ensures
            *final(self) == old(self).counted(),
    {
        if self.packets < u64::MAX {
            self.packets = self.packets + 1;
        }
    }

    fn is_selected(&self, stream: usize) -> (b: bool)
        ensures
            b == self.routes(stream),
    {
        match self.selected {
            Some(d) => d.index == stream,
            None => false,
        }
    }

    fn on_accepted(&mut self, reply: Result<(), CodecError>) -> (out: Command)
        ensures
            (*final(self), out) == old(self).advance(Stage::Accept, Event::Accepted(reply)),
    {
        match self.decoder.accept(reply) {
            Ok(_) => {
                self.count_packet();
                self.wait_at(Stage::Emit, Command::TryEmit)
            },
            Err(e) => if e.recoverable() {
                self.count_packet();
                self.wait_at(Stage::Read, Command::ReadPacket)
            } else {
                self.fail_at(Stage::Accept, Cause::from_accept(e))
            },
        }
    }

    fn on_emitted(&mut self, reply: Result<FrameInfo, CodecError>) -> (out: Command)
        ensures
            (*final(self), out) == old(self).advance(Stage::Emit, Event::Emitted(reply)),
    {
        match self.decoder.try_emit(reply) {
            Ok(Emit::Frame(frame)) => {
                let fits = match self.converter {
                    Some(c) => c.accepts_input(&frame),
                    None => false,
                };
                if fits {
                    self.wait_at(Stage::Convert, Command::Convert)
                } else {
                    self.fail_at(Stage::Convert, Cause::FrameMismatch)
                }
            },
            Ok(Emit::NotReady) => self.wait_at(Stage::Read, Command::ReadPacket),
            Ok(Emit::EndOfStream) => {
                self.status = Status::Completed;
                Command::Finish
            },
            Err(e) => self.fail_at(Stage::Emit, Cause::from_emit(e)),
        }
    }

    fn on_converted(&mut self, reply: Result<Image, CodecError>) -> (out: (Command, Option<RasterFile>))
        requires
            old(self).status == Status::Running(Stage::Convert),
        ensures
            (*final(self), out.0) == old(self).advance(Stage::Convert, Event::Converted(reply)),
            match out.1 {
                Some(file) => old(self).product(Event::Converted(reply)) == Some((file.name@, file.bytes@)),
                None => old(self).product(Event::Converted(reply)) is None,
            },
    {
        match reply {
            Ok(image) => {
                let shape = image.describe();
                let fits = match self.converter {
                    Some(c) => c.accepts_output(&shape),
                    None => false,
                };
                if !fits {
                    return (self.fail_at(Stage::Convert, Cause::FrameMismatch), None);
                }
                let index = self.frame_index;
                match image.to_file(index) {
                    Ok(file) => (self.wait_at(Stage::Store, Command::Store { index }), Some(file)),
                    Err(e) => (self.fail_at(Stage::Convert, Cause::Image(e)), None),
                }
            },
            Err(e) => (self.fail_at(Stage::Convert, Cause::Codec(e)), None),
        }
    }

    fn on_stored(&mut self, reply: Result<(), SinkError>) -> (out: Command)
        ensures
            (*final(self), out) == old(self).advance(Stage::Store, Event::Stored(reply)),
    {
        match reply {
            Ok(_) => if self.frame_index < u64::MAX {
                self.frame_index = self.frame_index + 1;
                self.wait_at(Stage::Emit, Command::TryEmit)
            } else {
                self.fail_at(Stage::Store, Cause::IndexExhausted)
            },
            Err(e) => self.fail_at(Stage::Store, Cause::Sink(e)),
        }
    }

    fn on_signalled(&mut self, reply: Result<(), CodecError>) -> (out: Command)
        ensures
            (*final(self), out) == old(self).advance(Stage::Flush, Event::EndOfInputSignalled(reply)),
    {
        match self.decoder.signal_end_of_input(reply) {
            Ok(_) => self.wait_at(Stage::Emit, Command::TryEmit),
            Err(e) => self.fail_at(Stage::Flush, Cause::Codec(e)),
        }
    }

    fn on_setup(&mut self, stage: Stage, event: Event) -> (out: Command)
        requires
            stage == Stage::Open || stage == Stage::Select || stage == Stage::Prepare || stage
                == Stage::Configure,
        ensures
            (*final(self), out) == old(self).advance(stage, event),
    {
        match (stage, event) {
            (Stage::Open, Event::SourceOpened(Ok(_))) => self.wait_at(Stage::Select, Command::SelectStream),
            (Stage::Open, Event::SourceOpened(Err(e))) => self.fail_at(Stage::Open, Cause::Codec(e)),
            (Stage::Select, Event::StreamSelected(Some(d))) => match d.kind {
                MediaKind::Video => {
                    self.selected = Some(d);
                    self.wait_at(Stage::Prepare, Command::OpenDecoder { stream: d.index })
                },
                _ => self.fail_at(Stage::Select, Cause::StreamNotFound),
            },
            (Stage::Select, Event::StreamSelected(None)) => self.fail_at(Stage::Select, Cause::StreamNotFound),
            (Stage::Prepare, Event::DecoderOpened(Ok(native))) => {
                let config = ConverterConfig::new(native);
                self.converter = Some(config);
                self.wait_at(Stage::Configure, Command::BuildConverter(config))
            },
            (Stage::Prepare, Event::DecoderOpened(Err(e))) => self.fail_at(Stage::Prepare, Cause::Codec(e)),
            (Stage::Configure, Event::ConverterBuilt(Ok(_))) => self.wait_at(Stage::Read, Command::ReadPacket),
            (Stage::Configure, Event::ConverterBuilt(Err(e))) => self.fail_at(Stage::Configure, Cause::Codec(e)),
            _ => self.fail_at(stage, Cause::Unexpected),
        }
    }

    fn on_read(&mut self, event: Event) -> (out: Command)
        ensures
            (*final(self), out) == old(self).advance(Stage::Read, event),
    {
        match event {
            Event::Packet { stream } => if self.is_selected(stream) {
                self.wait_at(Stage::Accept, Command::Accept)
            } else {
                self.count_packet();
                self.wait_at(Stage::Read, Command::ReadPacket)
            },
            Event::EndOfPackets => self.wait_at(Stage::Flush, Command::SignalEndOfInput),
            _ => self.fail_at(Stage::Read, Cause::Unexpected),
        }
    }

    fn on_running(&mut self, stage: Stage, event: Event) -> (out: Command)
        requires
            stage != Stage::Convert,
        ensures
            (*final(self), out) == old(self).advance(stage, event),
    {
        match stage {
            Stage::Open | Stage::Select | Stage::Prepare | Stage::Configure => self.on_setup(stage, event),
            Stage::Read => self.on_read(event),
            Stage::Accept => match event {
                Event::Accepted(reply) => self.on_accepted(reply),
                _ => self.fail_at(Stage::Accept, Cause::Unexpected),
            },
            Stage::Emit => match event {
                Event::Emitted(reply) => self.on_emitted(reply),
                _ => self.fail_at(Stage::Emit, Cause::Unexpected),
            },
            Stage::Store => match event {
                Event::Stored(reply) => self.on_stored(reply),
                _ => self.fail_at(Stage::Store, Cause::Unexpected),
            },
            _ => match event {
                Event::EndOfInputSignalled(reply) => self.on_signalled(reply),
                _ => self.fail_at(Stage::Flush, Cause::Unexpected),
            },
        }
    }

    /// Takes the answer to the outstanding command and gives the next command,
    /// and with a `Store` command the file to be stored.
    ///
    /// Packets of other streams are dropped unseen by the decoder. A packet
    /// that the codec finds corrupt is skipped. After each accepted packet,
    /// and after end of input, frames are asked for one at a time; each is
    /// converted and stored before the next is asked for. The file of frame
    /// `index` is named `frame<index>.ppm` and holds the frame's header and
    /// samples. Any other failure, and any event that does not answer the
    /// outstanding command, stops the pipeline with the stage and ordinal at
    /// which it arose.
    pub fn step(&mut self, event: Event) -> (out: (Command, Option<RasterFile>))
        ensures
            (*final(self), out.0) == old(self).next(event),
            out.1 is Some <==> old(self).product(event) is Some,
            out.1 matches Some(file) ==> old(self).product(event) == Some((file.name@, file.bytes@)),
            out.0 is Store <==> out.1 is Some,
            old(self).well_formed() ==> final(self).well_formed(),
    {
        match self.status {
            Status::Running(stage) => match stage {
                Stage::Convert => match event {
                    Event::Converted(reply) => self.on_converted(reply),
                    _ => (self.fail_at(Stage::Convert, Cause::Unexpected), None),
                },
                _ => (self.on_running(stage, event), None),
            },
            Status::Completed => (Command::Finish, None),
            Status::Cancelled => (Command::Finish, None),
            Status::Failed(error) => (Command::Abort(error), None),
        }
    }

    /// Stops a running pipeline early, without signalling end of input: the
    /// decoder is closed and what the codec still holds is dropped. This is a
    /// clean way out, and no error. A pipeline that has stopped stays as it is.
    pub fn cancel(&mut self)
        ensures
            old(self).well_formed() ==> final(self).well_formed(),
            old(self).stopped() ==> *final(self) == *old(self),
            !old(self).stopped() ==> *final(self) == (Pipeline {
                status: Status::Cancelled,
                decoder: Decoder { phase: Phase::Closed, ..old(self).decoder },
                ..*old(self)
            }),
    {
        if !self.is_stopped() {
            self.decoder.close();
            self.status = Status::Cancelled;
        }
    }
}

} // verus!
