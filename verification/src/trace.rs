//! Whole runs of the pipeline, and what holds of every run.
//!
//! A run is the sequence of events that the caller reports, one after the
//! other, to a pipeline. The functions here say what a run leaves behind; the
//! proofs say what is true of all runs, whatever the codec, the container and
//! the sink reply.

use vstd::prelude::*;
use crate::codec::CodecError;
use crate::converter::ConverterConfig;
use crate::decoder::{Emit, Phase};
use crate::failure::Stage;
use crate::pipeline::{Command, Event, Pipeline, Status};
use crate::ppm::{file_name, header, Image};

verus! {

/// The pipeline after all of `events`.
pub open spec fn run(p: Pipeline, events: Seq<Event>) -> Pipeline
    decreases events.len(),
{
    if events.len() == 0 {
        p
    } else {
        run(p.next(events.first()).0, events.drop_first())
    }
}

/// The commands given in answer to `events`, one for each.
pub open spec fn commands(p: Pipeline, events: Seq<Event>) -> Seq<Command>
    decreases events.len(),
{
    if events.len() == 0 {
        Seq::empty()
    } else {
        seq![p.next(events.first()).1] + commands(p.next(events.first()).0, events.drop_first())
    }
}

/// The indices of the `Store` commands among `commands`, in order.
pub open spec fn store_indices(commands: Seq<Command>) -> Seq<u64>
    decreases commands.len(),
{
    if commands.len() == 0 {
        Seq::empty()
    } else {
        match commands.first() {
            Command::Store { index } => seq![index] + store_indices(commands.drop_first()),
            _ => store_indices(commands.drop_first()),
        }
    }
}

/// How many of `commands` ask the codec for a frame.
pub open spec fn poll_count(commands: Seq<Command>) -> nat
    decreases commands.len(),
{
    if commands.len() == 0 {
        0
    } else if commands.first() == Command::TryEmit {
        1 + poll_count(commands.drop_first())
    } else {
        poll_count(commands.drop_first())
    }
}

/// How many of `commands` ask for a packet or hand one to the codec.
pub open spec fn input_count(commands: Seq<Command>) -> nat
    decreases commands.len(),
{
    if commands.len() == 0 {
        0
    } else if commands.first() == Command::ReadPacket || commands.first() == Command::Accept {
        1 + input_count(commands.drop_first())
    } else {
        input_count(commands.drop_first())
    }
}

/// With `event` the decoder hands out a frame.
pub open spec fn emits(p: Pipeline, event: Event) -> bool {
    &&& p.status == Status::Running(Stage::Emit)
    &&& event matches Event::Emitted(reply)
    &&& p.decoder.after_try_emit(reply).1 matches Ok(Emit::Frame(_))
}

/// How many frames the decoder hands out in the course of `events`.
pub open spec fn emitted(p: Pipeline, events: Seq<Event>) -> nat
    decreases events.len(),
{
    if events.len() == 0 {
        0
    } else {
        (if emits(p, events.first()) { 1nat } else { 0nat }) + emitted(p.next(events.first()).0, events.drop_first())
    }
}

/// The indices under which frames are handed to the sink in the course of
/// `events`, in order.
pub open spec fn stored(p: Pipeline, events: Seq<Event>) -> Seq<u64> {
    store_indices(commands(p, events))
}

/// How often the codec is asked for a frame in the course of `events`.
pub open spec fn polls(p: Pipeline, events: Seq<Event>) -> nat {
    poll_count(commands(p, events))
}

/// The files handed to the sink in the course of `events`, in order, each as
/// name and contents.
pub open spec fn files(p: Pipeline, events: Seq<Event>) -> Seq<(Seq<u8>, Seq<u8>)>
    decreases events.len(),
{
    if events.len() == 0 {
        Seq::empty()
    } else {
        let rest = files(p.next(events.first()).0, events.drop_first());
        match p.product(events.first()) {
            Some(file) => seq![file] + rest,
            None => rest,
        }
    }
}

/// Whether a frame has been emitted and not yet been taken by the sink.
pub open spec fn in_flight(p: Pipeline) -> nat {
    if p.status == Status::Running(Stage::Convert) || p.status == Status::Running(Stage::Store) {
        1
    } else {
        0
    }
}

/// The index that the next `Store` command will carry.
pub open spec fn next_store(p: Pipeline) -> int {
    if p.status == Status::Running(Stage::Store) {
        p.frame_index + 1
    } else {
        p.frame_index as int
    }
}

/// The two pipelines differ at most in how many packets they have counted,
/// and so at most in the packet ordinal of the error they stopped with.
pub open spec fn alike(a: Pipeline, b: Pipeline) -> bool {
    &&& a.selected == b.selected
    &&& a.converter == b.converter
    &&& a.decoder == b.decoder
    &&& a.frame_index == b.frame_index
    &&& match (a.status, b.status) {
        (Status::Failed(x), Status::Failed(y)) => {
            &&& x.stage == y.stage
            &&& x.cause == y.cause
            &&& (x.stage.counts_packets() || x.ordinal == y.ordinal)
        },
        (s, t) => s == t,
    }
}

/// A pipeline that has stopped stays stopped: whatever is reported to it, it
/// does not change, asks for nothing and hands nothing to the sink.
pub proof fn law_stopped_is_final(p: Pipeline, events: Seq<Event>)
    requires
        p.stopped(),
    ensures
        run(p, events) == p,
        store_indices(commands(p, events)) == Seq::<u64>::empty(),
        poll_count(commands(p, events)) == 0,
        input_count(commands(p, events)) == 0,
        emitted(p, events) == 0,
        files(p, events) == Seq::<(Seq<u8>, Seq<u8>)>::empty(),
    decreases events.len(),
{
    if events.len() > 0 {
        law_stopped_is_final(p, events.drop_first());
        assert(commands(p, events).drop_first() =~= commands(p, events.drop_first()));
    }
}

proof fn lemma_unfold(p: Pipeline, events: Seq<Event>)
    requires
        events.len() > 0,
    ensures
        commands(p, events).len() == events.len(),
        commands(p, events).first() == p.next(events.first()).1,
        commands(p, events).drop_first() == commands(p.next(events.first()).0, events.drop_first()),
    decreases events.len(),
{
    let q = p.next(events.first()).0;
    if events.drop_first().len() > 0 {
        lemma_unfold(q, events.drop_first());
    }
    assert(commands(p, events).drop_first() =~= commands(q, events.drop_first()));
}

proof fn lemma_single(p: Pipeline, event: Event)
    ensures
        run(p, seq![event]) == p.next(event).0,
        commands(p, seq![event]) == seq![p.next(event).1],
        emitted(p, seq![event]) == (if emits(p, event) { 1nat } else { 0nat }),
        files(p, seq![event]) == (match p.product(event) {
            Some(file) => seq![file],
            None => Seq::<(Seq<u8>, Seq<u8>)>::empty(),
        }),
{
    let after = p.next(event).0;
    let none = seq![event].drop_first();
    assert(run(after, none) == after);
    assert(commands(after, none) =~= Seq::<Command>::empty());
    assert(emitted(after, none) == 0);
    assert(files(after, none) =~= Seq::<(Seq<u8>, Seq<u8>)>::empty());
}

proof fn lemma_one_command(command: Command)
    ensures
        store_indices(seq![command]) == (match command {
            Command::Store { index } => seq![index],
            _ => Seq::<u64>::empty(),
        }),
        poll_count(seq![command]) == (if command == Command::TryEmit { 1nat } else { 0nat }),
{
    let none = seq![command].drop_first();
    assert(store_indices(none) =~= Seq::<u64>::empty());
    assert(poll_count(none) == 0);
}

proof fn lemma_join(p: Pipeline, head: Seq<Event>, tail: Seq<Event>)
    ensures
        run(p, head + tail) == run(run(p, head), tail),
        commands(p, head + tail) == commands(p, head) + commands(run(p, head), tail),
        emitted(p, head + tail) == emitted(p, head) + emitted(run(p, head), tail),
        files(p, head + tail) == files(p, head) + files(run(p, head), tail),
    decreases head.len(),
{
    if head.len() > 0 {
        assert((head + tail).drop_first() =~= head.drop_first() + tail);
        lemma_join(p.next(head.first()).0, head.drop_first(), tail);
    }
}

proof fn lemma_counts_join(a: Seq<Command>, b: Seq<Command>)
    ensures
        store_indices(a + b) == store_indices(a) + store_indices(b),
        poll_count(a + b) == poll_count(a) + poll_count(b),
        input_count(a + b) == input_count(a) + input_count(b),
    decreases a.len(),
{
    if a.len() > 0 {
        assert((a + b).drop_first() =~= a.drop_first() + b);
        lemma_counts_join(a.drop_first(), b);
    }
}

/// A run from the start leads only to well-formed pipelines.
pub proof fn law_runs_are_well_formed(events: Seq<Event>)
    ensures
        run(Pipeline::initial(), events).well_formed(),
{
    lemma_run_well_formed(Pipeline::initial(), events);
}

proof fn lemma_run_well_formed(p: Pipeline, events: Seq<Event>)
    requires
        p.well_formed(),
    ensures
        run(p, events).well_formed(),
    decreases events.len(),
{
    if events.len() > 0 {
        lemma_run_well_formed(p.next(events.first()).0, events.drop_first());
    }
}

proof fn lemma_indices(p: Pipeline, events: Seq<Event>)
    ensures
        forall|k: int| 0 <= k < stored(p, events).len() ==> #[trigger] stored(p, events)[k] == next_store(p) + k,
        !(run(p, events).status is Failed) ==> next_store(run(p, events)) == next_store(p) + stored(p, events).len(),
        !(run(p, events).status is Failed) ==> run(p, events).frame_index + in_flight(run(p, events))
            == p.frame_index + in_flight(p) + emitted(p, events),
        files(p, events).len() == stored(p, events).len(),
        forall|k: int| 0 <= k < files(p, events).len() ==> (#[trigger] files(p, events)[k]).0 == file_name(
            stored(p, events)[k] as nat,
        ),
    decreases events.len(),
{
    if events.len() > 0 {
        let after = p.next(events.first()).0;
        lemma_unfold(p, events);
        lemma_indices(after, events.drop_first());
        if after.stopped() {
            law_stopped_is_final(after, events.drop_first());
        }
    }
}

/// Frames reach the sink in the order in which the decoder emits them, under
/// the indices 0, 1, 2 and so on without a gap.
///
/// Of every run from the start: the `Store` commands carry the indices from 0
/// upwards in order. As long as the pipeline has not failed, the frames
/// emitted so far are those that the sink has taken and, at most, one that is
/// still being converted or stored, so that no frame overtakes another. When
/// the run has completed, every emitted frame has been stored: with `K`
/// frames emitted, the indices are `0` to `K - 1`. With each `Store` command
/// comes one file, named after the index.
pub proof fn law_frames_are_stored_in_order(events: Seq<Event>)
    ensures
        stored(Pipeline::initial(), events) == Seq::new(
            stored(Pipeline::initial(), events).len(),
            |k: int| k as u64,
        ),
        files(Pipeline::initial(), events).len() == stored(Pipeline::initial(), events).len(),
        forall|k: int|
            0 <= k < files(Pipeline::initial(), events).len() ==> (#[trigger] files(Pipeline::initial(), events)[k]).0
                == file_name(k as nat),
        !(run(Pipeline::initial(), events).status is Failed) ==> {
            &&& emitted(Pipeline::initial(), events) == run(Pipeline::initial(), events).frame_index + in_flight(
                run(Pipeline::initial(), events),
            )
            &&& stored(Pipeline::initial(), events).len() == next_store(run(Pipeline::initial(), events))
        },
        run(Pipeline::initial(), events).status == Status::Completed ==> {
            &&& stored(Pipeline::initial(), events).len() == emitted(Pipeline::initial(), events)
            &&& run(Pipeline::initial(), events).frame_index == emitted(Pipeline::initial(), events)
        },
{
    lemma_indices(Pipeline::initial(), events);
}

proof fn lemma_alike_step(a: Pipeline, b: Pipeline, event: Event)
    requires
        alike(a, b),
    ensures
        alike(a.next(event).0, b.next(event).0),
        emits(a, event) == emits(b, event),
        a.product(event) == b.product(event),
        a.next(event).1 is Abort <==> b.next(event).1 is Abort,
        !(a.next(event).1 is Abort) ==> a.next(event).1 == b.next(event).1,
{
}

proof fn lemma_alike_run(a: Pipeline, b: Pipeline, events: Seq<Event>)
    requires
        alike(a, b),
    ensures
        alike(run(a, events), run(b, events)),
        stored(a, events) == stored(b, events),
        polls(a, events) == polls(b, events),
        emitted(a, events) == emitted(b, events),
        files(a, events) == files(b, events),
    decreases events.len(),
{
    if events.len() > 0 {
        let e = events.first();
        lemma_alike_step(a, b, e);
        lemma_unfold(a, events);
        lemma_unfold(b, events);
        lemma_alike_run(a.next(e).0, b.next(e).0, events.drop_first());
    }
}

/// A corrupt packet is skipped and changes nothing else.
///
/// Wherever the pipeline waits for a packet, let the next packet be one of
/// the chosen stream that the codec rejects as invalid data. The pipeline
/// hands it to the codec, counts it and asks for the next packet; it does not
/// stop, and apart from the count of packets it is as it was. Whatever
/// follows, the same frames are emitted and the same files are stored under
/// the same indices as without that packet, and the run ends in the same way.
pub proof fn law_corrupt_packet_is_skipped(p: Pipeline, rest: Seq<Event>)
    requires
        p.well_formed(),
        p.status == Status::Running(Stage::Read),
    ensures
        ({
            let corrupt = seq![
                Event::Packet { stream: p.selected->Some_0.index },
                Event::Accepted(Err(CodecError::InvalidData)),
            ];
            &&& commands(p, corrupt) == seq![Command::Accept, Command::ReadPacket]
            &&& run(p, corrupt) == p.counted()
            &&& stored(p, corrupt + rest) == stored(p, rest)
            &&& files(p, corrupt + rest) == files(p, rest)
            &&& emitted(p, corrupt + rest) == emitted(p, rest)
            &&& alike(run(p, corrupt + rest), run(p, rest))
        }),
{
    let first = Event::Packet { stream: p.selected->Some_0.index };
    let second = Event::Accepted(Err(CodecError::InvalidData));
    let corrupt = seq![first, second];
    let q = p.next(first).0;
    assert(corrupt =~= seq![first] + seq![second]);
    lemma_single(p, first);
    lemma_single(q, second);
    lemma_join(p, seq![first], seq![second]);
    lemma_join(p, corrupt, rest);
    lemma_counts_join(commands(p, corrupt), commands(p.counted(), rest));
    lemma_counts_join(seq![Command::Accept], seq![Command::ReadPacket]);
    lemma_one_command(Command::Accept);
    lemma_one_command(Command::ReadPacket);
    lemma_alike_run(p.counted(), p, rest);
}

/// The credit of a draining pipeline: how many requests for a frame it may
/// still make before the codec releases another frame.
spec fn drain_credit(p: Pipeline) -> nat {
    match p.status {
        Status::Running(Stage::Flush) => 1,
        Status::Running(Stage::Convert) => 1,
        Status::Running(Stage::Store) => 1,
        _ => 0,
    }
}

spec fn draining(p: Pipeline) -> bool {
    match p.status {
        Status::Running(Stage::Flush) => true,
        Status::Running(stage) => stage.counts_frames() && p.decoder.phase != Phase::Open,
        _ => true,
    }
}

proof fn lemma_drain(p: Pipeline, events: Seq<Event>)
    requires
        draining(p),
    ensures
        polls(p, events) <= emitted(p, events) + drain_credit(p),
        input_count(commands(p, events)) == 0,
        draining(run(p, events)),
    decreases events.len(),
{
    if events.len() > 0 {
        lemma_unfold(p, events);
        lemma_drain(p.next(events.first()).0, events.drop_first());
    }
}

/// Flushing ends, and asks the codec no more often than it must.
///
/// Once the pipeline has given the command to signal end of input, it never
/// asks for a packet again, and it asks the codec for a frame at most once
/// more than the codec releases frames: once to begin with, and once after
/// each frame has been stored. A codec that holds `n` frames at the end of
/// its input is asked at most `n + 1` times. The pipeline never asks again
/// after an answer that is not a frame: `NotReady` while flushing is an
/// error, and the end of the stream completes the run.
pub proof fn law_flush_is_bounded(p: Pipeline, events: Seq<Event>)
    requires
        p.status == Status::Running(Stage::Flush),
    ensures
        polls(p, events) <= emitted(p, events) + 1,
        input_count(commands(p, events)) == 0,
        run(p, events).status is Running ==> run(p, events).status == Status::Running(Stage::Flush) || run(
            p,
            events,
        ).decoder.phase != Phase::Open,
{
    lemma_drain(p, events);
}

/// What the caller reports while a pipeline drains a codec that holds as many
/// frames as there are `images`, with a converter that turns them into
/// `images` and a sink that does its work: for each image a frame, its
/// conversion and its storing, then the end of the stream.
pub open spec fn drain_events(config: ConverterConfig, images: Seq<Image>) -> Seq<Event>
    decreases images.len(),
{
    if images.len() == 0 {
        seq![Event::Emitted(Err(CodecError::EndOfFile))]
    } else {
        seq![Event::Emitted(Ok(config.source)), Event::Converted(Ok(images.first())), Event::Stored(Ok(()))]
            + drain_events(config, images.drop_first())
    }
}

/// The files of `images`, numbered from `first` on.
pub open spec fn files_of(first: nat, images: Seq<Image>) -> Seq<(Seq<u8>, Seq<u8>)> {
    Seq::new(images.len(), |k: int| (file_name(first + k as nat), images[k].encoding()))
}

/// Each of `images` is what a converter with these parameters produces, and
/// can be written.
pub open spec fn well_converted(config: ConverterConfig, images: Seq<Image>) -> bool {
    forall|i: int| 0 <= i < images.len() ==> (#[trigger] images[i]).valid() && config.yields(images[i].info())
}

proof fn lemma_first(p: Pipeline, event: Event, rest: Seq<Event>)
    ensures
        run(p, seq![event] + rest) == run(p.next(event).0, rest),
        commands(p, seq![event] + rest) == seq![p.next(event).1] + commands(p.next(event).0, rest),
        stored(p, seq![event] + rest) == store_indices(seq![p.next(event).1]) + stored(p.next(event).0, rest),
        polls(p, seq![event] + rest) == poll_count(seq![p.next(event).1]) + polls(p.next(event).0, rest),
        emitted(p, seq![event] + rest) == (if emits(p, event) { 1nat } else { 0nat }) + emitted(
            p.next(event).0,
            rest,
        ),
        files(p, seq![event] + rest) == (match p.product(event) {
            Some(file) => seq![file],
            None => Seq::<(Seq<u8>, Seq<u8>)>::empty(),
        }) + files(p.next(event).0, rest),
{
    lemma_single(p, event);
    lemma_join(p, seq![event], rest);
    lemma_counts_join(seq![p.next(event).1], commands(p.next(event).0, rest));
}

proof fn lemma_drain_completes(p: Pipeline, images: Seq<Image>)
    requires
        p.well_formed(),
        p.status == Status::Running(Stage::Emit),
        p.decoder.phase == Phase::Flushing,
        p.frame_index + images.len() <= u64::MAX,
        well_converted(p.converter->Some_0, images),
    ensures
        ({
            let events = drain_events(p.converter->Some_0, images);
            &&& run(p, events).status == Status::Completed
            &&& run(p, events).frame_index == p.frame_index + images.len()
            &&& polls(p, events) == images.len()
            &&& emitted(p, events) == images.len()
            &&& stored(p, events) == Seq::new(images.len(), |k: int| (p.frame_index + k) as u64)
            &&& files(p, events) == files_of(p.frame_index as nat, images)
        }),
    decreases images.len(),
{
    let config = p.converter->Some_0;
    let events = drain_events(config, images);
    if images.len() == 0 {
        lemma_single(p, Event::Emitted(Err(CodecError::EndOfFile)));
        lemma_one_command(Command::Finish);
    } else {
        let frame = Event::Emitted(Ok(config.source));
        let picture = Event::Converted(Ok(images.first()));
        let taken = Event::Stored(Ok(()));
        let rest = drain_events(config, images.drop_first());
        let emitting = p.next(frame).0;
        let storing = emitting.next(picture).0;
        let polling = storing.next(taken).0;
        assert(well_converted(config, images.drop_first()));
        assert(events =~= seq![frame] + (seq![picture] + (seq![taken] + rest)));
        lemma_first(p, frame, seq![picture] + (seq![taken] + rest));
        lemma_first(emitting, picture, seq![taken] + rest);
        lemma_first(storing, taken, rest);
        lemma_one_command(Command::Convert);
        lemma_one_command(Command::Store { index: p.frame_index });
        lemma_one_command(Command::TryEmit);
        lemma_drain_completes(polling, images.drop_first());
        assert(files(p, events) =~= files_of(p.frame_index as nat, images));
    }
}

/// Flushing reaches the end of the stream.
///
/// Let the pipeline have given the command to signal end of input, let the
/// codec hold `n` frames and everything work. Then the run completes after
/// `n + 1` requests for a frame, the last of which is answered by the end of
/// the stream; the `n` frames are stored under the next `n` indices, each as
/// the file of its converted image.
pub proof fn law_flush_completes(p: Pipeline, images: Seq<Image>)
    requires
        p.well_formed(),
        p.status == Status::Running(Stage::Flush),
        p.frame_index + images.len() <= u64::MAX,
        well_converted(p.converter->Some_0, images),
    ensures
        ({
            let events = seq![Event::EndOfInputSignalled(Ok(()))] + drain_events(p.converter->Some_0, images);
            &&& run(p, events).status == Status::Completed
            &&& run(p, events).frame_index == p.frame_index + images.len()
            &&& polls(p, events) == images.len() + 1
            &&& emitted(p, events) == images.len()
            &&& stored(p, events) == Seq::new(images.len(), |k: int| (p.frame_index + k) as u64)
            &&& files(p, events) == files_of(p.frame_index as nat, images)
        }),
{
    let signal = Event::EndOfInputSignalled(Ok(()));
    lemma_first(p, signal, drain_events(p.converter->Some_0, images));
    lemma_one_command(Command::TryEmit);
    lemma_drain_completes(p.next(signal).0, images);
    assert(stored(p, seq![signal] + drain_events(p.converter->Some_0, images)) =~= Seq::new(
        images.len(),
        |k: int| (p.frame_index + k) as u64,
    ));
    assert(files(p, seq![signal] + drain_events(p.converter->Some_0, images)) =~= files_of(
        p.frame_index as nat,
        images,
    ));
}

/// Every `Store` command comes with a file, and the file is whole.
///
/// A file comes with a command exactly when the command is `Store`. The file
/// is named after the index that the command carries, which is the number of
/// frames stored before. Its contents are the header for the picture size
/// that the decoder announced, followed by three bytes for each pixel and not
/// one byte more.
pub proof fn law_stored_file_is_whole(p: Pipeline, event: Event)
    requires
        p.well_formed(),
    ensures
        p.next(event).1 is Store <==> p.product(event) is Some,
        p.product(event) matches Some(file) ==> {
            let native = p.converter->Some_0.source;
            let head = header(native.width as nat, native.height as nat);
            &&& p.next(event).1 == Command::Store { index: p.frame_index }
            &&& file.0 == file_name(p.frame_index as nat)
            &&& file.1.len() == head.len() + 3 * native.width * native.height
            &&& file.1.subrange(0, head.len() as int) == head
        },
{
    match event {
        Event::Converted(Ok(image)) => {
            if p.product(event) is Some {
                let native = p.converter->Some_0.source;
                assert(image.row_len() * image.height == 3 * native.width * native.height) by (nonlinear_arith)
                    requires
                        image.row_len() == 3 * native.width,
                        image.height == native.height,
                ;
            }
        },
        _ => {},
    }
}

/// How many of `commands` set up a converter.
pub open spec fn build_count(commands: Seq<Command>) -> nat
    decreases commands.len(),
{
    if commands.len() == 0 {
        0
    } else if commands.first() is BuildConverter {
        1 + build_count(commands.drop_first())
    } else {
        build_count(commands.drop_first())
    }
}

proof fn lemma_builds(p: Pipeline, events: Seq<Event>)
    ensures
        build_count(commands(p, events)) <= (if p.status == Status::Running(Stage::Open) || p.status
            == Status::Running(Stage::Select) || p.status == Status::Running(Stage::Prepare) {
            1nat
        } else {
            0nat
        }),
        !(p.status == Status::Running(Stage::Open) || p.status == Status::Running(Stage::Select) || p.status
            == Status::Running(Stage::Prepare)) ==> run(p, events).converter == p.converter,
    decreases events.len(),
{
    if events.len() > 0 {
        lemma_unfold(p, events);
        lemma_builds(p.next(events.first()).0, events.drop_first());
    }
}

/// The converter is set up once and then stays as it is.
///
/// In every run from the start at most one command asks for a converter, and
/// the parameters it names are those under which every later frame is
/// converted: whatever follows, they do not change.
pub proof fn law_converter_is_set_up_once(events: Seq<Event>, more: Seq<Event>)
    ensures
        build_count(commands(Pipeline::initial(), events)) <= 1,
        run(Pipeline::initial(), events).converter is Some ==> run(Pipeline::initial(), events + more).converter
            == run(Pipeline::initial(), events).converter,
{
    let p = Pipeline::initial();
    lemma_builds(p, events);
    lemma_join(p, events, more);
    lemma_run_well_formed(p, events);
    lemma_builds(run(p, events), more);
}

/// What is handed to the sink depends on nothing but the frame and the state
/// of the pipeline.
///
/// Two converted frames with the same format, size, stride and samples lead,
/// from the same pipeline, to the same command, the same next state and the
/// same file, byte for byte.
pub proof fn law_same_frame_same_file(p: Pipeline, a: Image, b: Image)
    requires
        a.info() == b.info(),
        a.stride == b.stride,
        a.data@ == b.data@,
    ensures
        p.next(Event::Converted(Ok(a))) == p.next(Event::Converted(Ok(b))),
        p.product(Event::Converted(Ok(a))) == p.product(Event::Converted(Ok(b))),
{
}

proof fn lemma_counters(p: Pipeline, events: Seq<Event>)
    ensures
        p.frame_index <= run(p, events).frame_index,
        p.packets <= run(p, events).packets,
    decreases events.len(),
{
    if events.len() > 0 {
        lemma_counters(p.next(events.first()).0, events.drop_first());
    }
}

/// The frame index and the count of packets never go back.
pub proof fn law_counters_only_grow(p: Pipeline, events: Seq<Event>, more: Seq<Event>)
    ensures
        run(p, events).frame_index <= run(p, events + more).frame_index,
        run(p, events).packets <= run(p, events + more).packets,
{
    lemma_join(p, events, more);
    lemma_counters(run(p, events), more);
}

} // verus!
