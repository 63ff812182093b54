//! The decisions of a decode session.
//!
//! The session does no native work itself. It issues one command at a time;
//! whoever drives it performs the command against the demuxer and decoder
//! and reports what came of it, and the session answers with the next
//! command. It also keeps account of the native resources that the commands
//! acquired, so that all of them can be released once at the end, however
//! the session ended.

use crate::error::{full_stop, Error};
use vstd::prelude::*;

verus! {

/// A native resource that a session acquires.
#[derive(Clone, Copy, Debug, PartialEq, Eq, Structural)]
pub enum Resource {
    /// The buffer that every decoded frame is received in.
    InputFrame,
    /// The opened source.
    FormatContext,
    /// The buffer that every compressed packet is read in.
    Packet,
    /// The decoder.
    CodecContext,
    /// The context that converts frames to the working layout.
    ScaleContext,
    /// The buffer that holds the converted frame.
    WorkingFrame,
}

/// What the driver of a session is to do next.
#[derive(Clone, Copy, Debug, PartialEq, Eq)]
pub enum Command {
    /// Allocate the buffer for decoded frames; gives a handle.
    AllocateInputFrame,
    /// Allocate the context of the source; gives a handle.
    AllocateFormatContext,
    /// Open the source; gives a result code. A failed open gives the
    /// source's context up itself.
    OpenInput,
    /// Allocate the buffer for packets; gives a handle.
    AllocatePacket,
    /// Find the best video stream; the result code is its index.
    FindVideoStream,
    /// Find a decoder for the stream; gives a handle.
    FindDecoder,
    /// Allocate the decoder's context; gives a handle.
    AllocateCodecContext,
    /// Copy the stream's parameters to the decoder's context; gives a
    /// result code.
    CopyParameters,
    /// Start the decoder; gives a result code.
    OpenCodec,
    /// Read the next packet from the source; gives a result code.
    ReadPacket,
    /// Report, as a result code, the index of the stream that the packet
    /// belongs to.
    PacketStream,
    /// Send the packet to the decoder; gives a result code.
    SendPacket,
    /// Receive the next frame from the decoder; gives a result code.
    ReceiveFrame,
    /// Convert the received frame to the working layout and hand it on;
    /// gives the result code of the conversion, or no handle where the
    /// means of converting could not be had.
    Present,
    /// Stop: the source has no more packets.
    Finish,
    /// Stop: the session failed.
    Fail(Error),
}

/// What came of a command.
#[derive(Clone, Copy, Debug, PartialEq, Eq)]
pub enum Outcome {
    /// The result code of a call that gives one: negative where it failed.
    Code(i32),
    /// A call that gives a handle gave one.
    Found,
    /// A call that gives a handle gave none.
    Missing,
}

impl Outcome {
    /// Whether the command failed: its code is negative, or its handle
    /// missing.
    pub open spec fn failed(self) -> bool {
        match self {
            Outcome::Code(code) => code < 0,
            Outcome::Found => false,
            Outcome::Missing => true,
        }
    }

    /// The result code, where the command gave one.
    pub open spec fn code(self) -> Option<i32> {
        match self {
            Outcome::Code(code) => Some(code),
            _ => None,
        }
    }

    /// Whether the command failed.
    pub fn is_failure(&self) -> (failed: bool)
        ensures
            failed == self.failed(),
    {
        match self {
            Outcome::Code(code) => *code < 0,
            Outcome::Found => false,
            Outcome::Missing => true,
        }
    }

    /// The result code, where the command gave one.
    pub fn result_code(&self) -> (code: Option<i32>)
        ensures
            code == self.code(),
    {
        match self {
            Outcome::Code(code) => Some(*code),
            _ => None,
        }
    }
}

/// The size and pixel format of a decoded frame, as the decoder reports
/// them.
#[derive(Clone, Copy, Debug, PartialEq, Eq, Structural)]
pub struct Geometry {
    pub width: i32,
    pub height: i32,
    pub format: i32,
}

/// What is to be done about the conversion context before a frame is
/// converted.
#[derive(Clone, Copy, Debug, PartialEq, Eq, Structural)]
pub enum ConversionPlan {
    /// There is no context yet: create one, and the working frame.
    Create,
    /// The context fits the frame: convert with it.
    Reuse,
    /// The context was made for frames of another geometry: release it and
    /// the working frame, and create both anew.
    Recreate,
}

/// Which resources a session holds.
#[derive(Clone, Copy, Debug, PartialEq, Eq, Structural)]
pub struct Held {
    pub input_frame: bool,
    pub format_context: bool,
    pub packet: bool,
    pub codec_context: bool,
    pub scale_context: bool,
    pub working_frame: bool,
}

impl Held {
    /// No resource at all.
    pub open spec fn nothing() -> Held {
        Held {
            input_frame: false,
            format_context: false,
            packet: false,
            codec_context: false,
            scale_context: false,
            working_frame: false,
        }
    }

    /// Whether `resource` is held.
    pub open spec fn holds(self, resource: Resource) -> bool {
        match resource {
            Resource::InputFrame => self.input_frame,
            Resource::FormatContext => self.format_context,
            Resource::Packet => self.packet,
            Resource::CodecContext => self.codec_context,
            Resource::ScaleContext => self.scale_context,
            Resource::WorkingFrame => self.working_frame,
        }
    }

    /// With `resource` held besides.
    pub open spec fn with(self, resource: Resource) -> Held {
        match resource {
            Resource::InputFrame => Held { input_frame: true, ..self },
            Resource::FormatContext => Held { format_context: true, ..self },
            Resource::Packet => Held { packet: true, ..self },
            Resource::CodecContext => Held { codec_context: true, ..self },
            Resource::ScaleContext => Held { scale_context: true, ..self },
            Resource::WorkingFrame => Held { working_frame: true, ..self },
        }
    }

    /// With what the command `done` acquires where it ends in `outcome`: a
    /// command that fails acquires nothing, and a failed `OpenInput` gives
    /// the source's context up.
    pub open spec fn after(self, done: Command, outcome: Outcome) -> Held {
        match acquired_by(done) {
            Some(resource) => if outcome.failed() {
                self
            } else {
                self.with(resource)
            },
            None => if done is OpenInput && outcome.failed() {
                Held { format_context: false, ..self }
            } else {
                self
            },
        }
    }

    /// The held resources in the order of their release: the latest
    /// acquired first.
    pub open spec fn release_order(self) -> Seq<Resource> {
        only_if(self.working_frame, Resource::WorkingFrame) + only_if(
            self.scale_context,
            Resource::ScaleContext,
        ) + only_if(self.codec_context, Resource::CodecContext) + only_if(
            self.packet,
            Resource::Packet,
        ) + only_if(self.format_context, Resource::FormatContext) + only_if(
            self.input_frame,
            Resource::InputFrame,
        )
    }
}

/// The resource that a command acquires where it succeeds, if it acquires
/// one.
pub open spec fn acquired_by(command: Command) -> Option<Resource> {
    match command {
        Command::AllocateInputFrame => Some(Resource::InputFrame),
        Command::AllocateFormatContext => Some(Resource::FormatContext),
        Command::AllocatePacket => Some(Resource::Packet),
        Command::AllocateCodecContext => Some(Resource::CodecContext),
        _ => None,
    }
}

/// Whether a command is a step of opening the source and its decoder.
pub open spec fn opening(command: Command) -> bool {
    command is AllocateInputFrame || command is AllocateFormatContext || command is OpenInput
        || command is AllocatePacket || command is FindVideoStream || command is FindDecoder
        || command is AllocateCodecContext || command is CopyParameters || command is OpenCodec
}

/// The command that follows `done` in order where `done` succeeded: the
/// steps of opening one after the other, then packet by packet reading,
/// sending and receiving, and after each frame shown the next frame of the
/// same packet.
pub open spec fn follows(done: Command) -> Command {
    match done {
        Command::AllocateInputFrame => Command::AllocateFormatContext,
        Command::AllocateFormatContext => Command::OpenInput,
        Command::OpenInput => Command::AllocatePacket,
        Command::AllocatePacket => Command::FindVideoStream,
        Command::FindVideoStream => Command::FindDecoder,
        Command::FindDecoder => Command::AllocateCodecContext,
        Command::AllocateCodecContext => Command::CopyParameters,
        Command::CopyParameters => Command::OpenCodec,
        Command::OpenCodec => Command::ReadPacket,
        Command::ReadPacket => Command::PacketStream,
        Command::PacketStream => Command::SendPacket,
        Command::SendPacket => Command::ReceiveFrame,
        Command::ReceiveFrame => Command::Present,
        Command::Present => Command::ReceiveFrame,
        Command::Finish => Command::Finish,
        Command::Fail(e) => Command::Fail(e),
    }
}

/// The failure that `failed` amounts to where it did not succeed: the
/// failure named after the command, with the result code where the command
/// gave one.
pub open spec fn failure_of(failed: Command, code: Option<i32>) -> Error {
    match failed {
        Command::AllocateInputFrame => Error::InputFrame(code),
        Command::AllocateFormatContext => Error::FormatContext(code),
        Command::OpenInput => Error::OpenInput(code),
        Command::AllocatePacket => Error::Packet(code),
        Command::FindVideoStream => Error::NoVideoStream(code),
        Command::FindDecoder => Error::NoDecoder(code),
        Command::AllocateCodecContext => Error::CodecContext(code),
        Command::CopyParameters => Error::CodecParameters(code),
        Command::OpenCodec => Error::OpenCodec(code),
        Command::SendPacket => Error::SendPacket(code),
        Command::Present => Error::Conversion(code),
        Command::Fail(e) => e,
        _ => Error::ReceiveFrame(code),
    }
}

/// The resource alone where `held`, else nothing.
pub open spec fn only_if(held: bool, resource: Resource) -> Seq<Resource> {
    if held {
        seq![resource]
    } else {
        Seq::empty()
    }
}

/// The plan for a frame of `geometry` where the context, if any, was made
/// for `converted`.
pub open spec fn plan_of(converted: Option<Geometry>, geometry: Geometry) -> ConversionPlan {
    match converted {
        None => ConversionPlan::Create,
        Some(g) => if g == geometry {
            ConversionPlan::Reuse
        } else {
            ConversionPlan::Recreate
        },
    }
}

/// The state of a session.
#[derive(Clone, Copy, Debug, PartialEq, Eq)]
pub struct DecoderState {
    /// The command whose result is awaited.
    pub pending: Command,
    /// The index of the selected video stream, once it is found.
    pub video_stream: i32,
    /// The resources acquired and not yet released.
    pub held: Held,
    /// The geometry that the conversion context was made for, if there is
    /// one.
    pub converted: Option<Geometry>,
    /// The decoder's result code for "needs more input".
    pub again: i32,
    /// The decoder's result code for "end of stream".
    pub end_of_stream: i32,
}

impl DecoderState {
    /// A session that has done nothing yet and awaits the first step of
    /// opening the source.
    pub open spec fn initial(again: i32, end_of_stream: i32) -> DecoderState {
        DecoderState {
            pending: Command::AllocateInputFrame,
            video_stream: 0,
            held: Held::nothing(),
            converted: None,
            again,
            end_of_stream,
        }
    }

    /// Whether the session has stopped.
    pub open spec fn stopped(self) -> bool {
        self.pending is Finish || self.pending is Fail
    }

    /// While the session runs it holds what the steps of opening before
    /// the awaited command acquired, and nothing that a later step is yet to
    /// acquire; the conversion resources are held exactly while a context
    /// exists.
    pub open spec fn wf(self) -> bool {
        &&& self.held.scale_context == (self.converted is Some)
        &&& self.held.working_frame == (self.converted is Some)
        &&& !self.stopped() ==> {
            &&& self.held.input_frame == !(self.pending is AllocateInputFrame)
            &&& self.held.format_context == !(self.pending is AllocateInputFrame
                || self.pending is AllocateFormatContext)
            &&& self.held.packet == !(self.pending is AllocateInputFrame
                || self.pending is AllocateFormatContext || self.pending is OpenInput
                || self.pending is AllocatePacket)
            &&& self.held.codec_context == !(self.pending is AllocateInputFrame
                || self.pending is AllocateFormatContext || self.pending is OpenInput
                || self.pending is AllocatePacket || self.pending is FindVideoStream
                || self.pending is FindDecoder || self.pending is AllocateCodecContext)
        }
    }

    /// Whether `outcome` is one of the decoder's two benign signals: a
    /// failure whose code is that of "needs more input" or of "end of
    /// stream".
    pub open spec fn benign(self, outcome: Outcome) -> bool {
        outcome.failed() && (outcome == Outcome::Code(self.again) || outcome == Outcome::Code(
            self.end_of_stream,
        ))
    }

    /// The command that follows the awaited one where that ends in
    /// `outcome`.
    ///
    /// A stopped session stays as it is. The stream index of a packet sends
    /// the packet to the decoder where it is the selected stream, and drops
    /// it for the next packet where it is not. A command that did not fail
    /// leads to the command that follows in order. A read that fails ends
    /// the session in good order, and a benign signal in answer to
    /// `ReceiveFrame` sends it back to reading; every other failure fails
    /// it.
    pub open spec fn next_command(self, outcome: Outcome) -> Command {
        if self.stopped() {
            self.pending
        } else if self.pending is PacketStream {
            if outcome == Outcome::Code(self.video_stream) {
                Command::SendPacket
            } else {
                Command::ReadPacket
            }
        } else if !outcome.failed() {
            follows(self.pending)
        } else if self.pending is ReadPacket {
            Command::Finish
        } else if self.pending is ReceiveFrame && self.benign(outcome) {
            Command::ReadPacket
        } else {
            Command::Fail(failure_of(self.pending, outcome.code()))
        }
    }

    /// The session after the awaited command ended in `outcome`.
    pub open spec fn step(self, outcome: Outcome) -> DecoderState {
        DecoderState {
            pending: self.next_command(outcome),
            video_stream: match outcome {
                Outcome::Code(index) if self.pending is FindVideoStream && index >= 0 => index,
                _ => self.video_stream,
            },
            held: if self.stopped() {
                self.held
            } else {
                self.held.after(self.pending, outcome)
            },
            ..self
        }
    }

    /// The session once a frame of `geometry` has a conversion context.
    pub open spec fn formatted(self, geometry: Geometry) -> DecoderState {
        DecoderState {
            held: Held { scale_context: true, working_frame: true, ..self.held },
            converted: Some(geometry),
            ..self
        }
    }

    /// The session once all it held is released: it holds nothing, has no
    /// conversion context, and has stopped.
    pub open spec fn torn_down(self) -> DecoderState {
        DecoderState {
            pending: if self.pending is Fail {
                self.pending
            } else {
                Command::Finish
            },
            held: Held::nothing(),
            converted: None,
            ..self
        }
    }
}

/// A new session is well-formed.
pub proof fn lemma_new_session_is_well_formed(again: i32, end_of_stream: i32)
    ensures
        DecoderState::initial(again, end_of_stream).wf(),
        !DecoderState::initial(again, end_of_stream).stopped(),
        forall|r: Resource| !(#[trigger] DecoderState::initial(again, end_of_stream).held.holds(r)),
{
}

/// A session keeps the resources that its next command works on: every
/// step, every conversion and the teardown lead from a well-formed state to
/// a well-formed one.
pub proof fn lemma_session_stays_well_formed(s: DecoderState, outcome: Outcome, geometry: Geometry)
    requires
        s.wf(),
    ensures
        s.step(outcome).wf(),
        s.formatted(geometry).wf(),
        s.torn_down().wf(),
{
}

/// Nothing is acquired twice: the command that a well-formed session
/// awaits acquires no resource that the session holds, and a conversion
/// context is created only where none is held.
pub proof fn lemma_nothing_is_acquired_twice(s: DecoderState, geometry: Geometry)
    requires
        s.wf(),
    ensures
        acquired_by(s.pending) matches Some(r) ==> !s.held.holds(r),
        plan_of(s.converted, geometry) is Create <==> !s.held.holds(Resource::ScaleContext),
        plan_of(s.converted, geometry) is Create <==> !s.held.holds(Resource::WorkingFrame),
{
}

/// Nothing is lost on the way: what a session holds it still holds after
/// every step and every conversion, but for the source's context, which a
/// failed `OpenInput` gives up; and what a step adds is what its command
/// acquired, and only where the command did not fail.
pub proof fn lemma_held_until_teardown(
    s: DecoderState,
    outcome: Outcome,
    geometry: Geometry,
    r: Resource,
)
    ensures
        s.held.holds(r) ==> s.formatted(geometry).held.holds(r),
        s.held.holds(r) && !s.step(outcome).held.holds(r) ==> r == Resource::FormatContext
            && s.pending is OpenInput && outcome.failed(),
        s.step(outcome).held.holds(r) && !s.held.holds(r) ==> !outcome.failed() && acquired_by(
            s.pending,
        ) == Some(r),
        !s.stopped() && !outcome.failed() && acquired_by(s.pending) == Some(r) ==> s.step(
            outcome,
        ).held.holds(r),
        s.formatted(geometry).held.holds(r) && !s.held.holds(r) ==> r == Resource::ScaleContext
            || r == Resource::WorkingFrame,
{
}

/// No failure is swallowed but those that the session is meant to take: a
/// failed command fails a running session unless it is the end of the
/// packets, or one of the decoder's two benign signals in answer to
/// `ReceiveFrame`; the failure is the one named after the command, and
/// carries the result code where there was one. A command that did not
/// fail never fails the session, whatever the codes of the benign signals
/// are.
pub proof fn lemma_failures_surface(s: DecoderState, outcome: Outcome)
    requires
        !s.stopped(),
    ensures
        s.next_command(outcome) is Fail <==> outcome.failed() && !(s.pending is ReadPacket)
            && !(s.pending is PacketStream) && !(s.pending is ReceiveFrame && s.benign(outcome)),
        s.next_command(outcome) matches Command::Fail(e) ==> e == failure_of(
            s.pending,
            outcome.code(),
        ) && e.spec_code() == outcome.code(),
        s.next_command(outcome) is Finish <==> s.pending is ReadPacket && outcome.failed(),
        !outcome.failed() && !(s.pending is PacketStream) ==> s.next_command(outcome) == follows(
            s.pending,
        ),
{
}

/// The message of every failure of a session on the source called
/// `source`: the words of the command that failed, behind them the source's
/// name where the source could not be opened, and before them the
/// decoder's diagnostic text and a full stop where the command gave a
/// result code.
pub proof fn lemma_failure_messages(
    s: DecoderState,
    outcome: Outcome,
    diagnostic: Seq<char>,
    source: Seq<char>,
)
    requires
        !s.stopped(),
        s.next_command(outcome) is Fail,
    ensures
        ({
            let e = s.next_command(outcome)->Fail_0;
            let words = e.spec_words();
            let context = if s.pending is OpenInput {
                words + source
            } else {
                words
            };
            &&& e.spec_describe(diagnostic, source) == if outcome is Code {
                diagnostic + full_stop() + context
            } else {
                context
            }
            &&& words == match s.pending {
                Command::AllocateInputFrame => "Could not acquire a frame"@,
                Command::AllocateFormatContext => "Could not aquire format context"@,
                Command::OpenInput => "could not open file : "@,
                Command::AllocatePacket => "Could not aquire a pkt"@,
                Command::FindVideoStream => "could not find video stream"@,
                Command::FindDecoder => "Could not aquire a codec"@,
                Command::AllocateCodecContext => "Could not aquire a codec context"@,
                Command::CopyParameters => "Could not copy codec parameters"@,
                Command::OpenCodec => "Could not open codec"@,
                Command::SendPacket => "Could not send packet to the AVCodec of the decoder"@,
                Command::Present => "could not change format"@,
                _ => "an error happened while receiving the frame"@,
            }
        }),
{
}

/// A stopped session stays stopped and acquires nothing more, whatever is
/// reported to it.
pub proof fn lemma_stopped_is_final(s: DecoderState, outcome: Outcome)
    requires
        s.stopped(),
    ensures
        s.step(outcome) == s,
{
}

/// Behind a list without repeats that lacks `resource`, `only_if` adds it
/// where it is held and nothing else, and the list stays without repeats.
proof fn lemma_release_next(before: Seq<Resource>, held: bool, resource: Resource)
    requires
        before.no_duplicates(),
        !before.contains(resource),
    ensures
        (before + only_if(held, resource)).no_duplicates(),
        forall|r: Resource| #[trigger]
            (before + only_if(held, resource)).contains(r) <==> before.contains(r) || (held && r
                == resource),
{
    let after = before + only_if(held, resource);
    if held {
        assert(after =~= before.push(resource));
        assert(after[before.len() as int] == resource);
        assert forall|r: Resource| before.contains(r) implies #[trigger] after.contains(r) by {
            let i = choose|i: int| 0 <= i < before.len() && before[i] == r;
            assert(after[i] == r);
        }
    } else {
        assert(after =~= before);
    }
}

/// Teardown releases every held resource once and no other: the release
/// order has no resource twice and holds exactly the held ones. After it
/// nothing is held, so that a second teardown releases nothing.
pub proof fn lemma_teardown_releases_once(s: DecoderState)
    ensures
        s.held.release_order().no_duplicates(),
        forall|r: Resource| #[trigger] s.held.release_order().contains(r) <==> s.held.holds(r),
        forall|r: Resource| !(#[trigger] s.torn_down().held.holds(r)),
        s.torn_down().held.release_order() == Seq::<Resource>::empty(),
        s.torn_down().stopped(),
{
    let h = s.held;
    let none = Seq::<Resource>::empty();
    let one = none + only_if(h.working_frame, Resource::WorkingFrame);
    let two = one + only_if(h.scale_context, Resource::ScaleContext);
    let three = two + only_if(h.codec_context, Resource::CodecContext);
    let four = three + only_if(h.packet, Resource::Packet);
    let five = four + only_if(h.format_context, Resource::FormatContext);
    let six = five + only_if(h.input_frame, Resource::InputFrame);
    lemma_release_next(none, h.working_frame, Resource::WorkingFrame);
    lemma_release_next(one, h.scale_context, Resource::ScaleContext);
    lemma_release_next(two, h.codec_context, Resource::CodecContext);
    lemma_release_next(three, h.packet, Resource::Packet);
    lemma_release_next(four, h.format_context, Resource::FormatContext);
    lemma_release_next(five, h.input_frame, Resource::InputFrame);
    assert(one =~= only_if(h.working_frame, Resource::WorkingFrame));
    assert(six == h.release_order());
    assert forall|r: Resource| #[trigger] h.release_order().contains(r) <==> h.holds(r) by {
        assert(six.contains(r) <==> five.contains(r) || (h.input_frame && r
            == Resource::InputFrame));
        assert(five.contains(r) <==> four.contains(r) || (h.format_context && r
            == Resource::FormatContext));
        assert(four.contains(r) <==> three.contains(r) || (h.packet && r == Resource::Packet));
        assert(three.contains(r) <==> two.contains(r) || (h.codec_context && r
            == Resource::CodecContext));
        assert(two.contains(r) <==> one.contains(r) || (h.scale_context && r
            == Resource::ScaleContext));
        assert(one.contains(r) <==> none.contains(r) || (h.working_frame && r
            == Resource::WorkingFrame));
        assert(!none.contains(r));
    }
    assert(s.torn_down().held.release_order() =~= Seq::<Resource>::empty());
}

/// A decode session.
#[derive(Clone, Copy, Debug)]
pub struct VideoDecoder {
    state: DecoderState,
}

impl View for VideoDecoder {
    type V = DecoderState;

    closed spec fn view(&self) -> DecoderState {
        self.state
    }
}

impl VideoDecoder {
    /// A session that awaits the first step of opening its source. `again`
    /// and `end_of_stream` are the decoder's result codes for its two
    /// benign signals.
    pub fn new(again: i32, end_of_stream: i32) -> (decoder: VideoDecoder)
        ensures
            decoder@ == DecoderState::initial(again, end_of_stream),
            decoder@.wf(),
    {
        VideoDecoder {
            state: DecoderState {
                pending: Command::AllocateInputFrame,
                video_stream: 0,
                held: Held {
                    input_frame: false,
                    format_context: false,
                    packet: false,
                    codec_context: false,
                    scale_context: false,
                    working_frame: false,
                },
                converted: None,
                again,
                end_of_stream,
            },
        }
    }

    /// The session's state.
    pub fn state(&self) -> (state: DecoderState)
        ensures
            state == self@,
    {
        self.state
    }

    /// The command whose result the session awaits.
    pub fn command(&self) -> (command: Command)
        ensures
            command == self@.pending,
    {
        self.state.pending
    }

    /// The index of the selected video stream.
    pub fn video_stream(&self) -> (index: i32)
        ensures
            index == self@.video_stream,
    {
        self.state.video_stream
    }

    /// Whether the session holds `resource`.
    pub fn holds(&self, resource: Resource) -> (held: bool)
        ensures
            held == self@.held.holds(resource),
    {
        match resource {
            Resource::InputFrame => self.state.held.input_frame,
            Resource::FormatContext => self.state.held.format_context,
            Resource::Packet => self.state.held.packet,
            Resource::CodecContext => self.state.held.codec_context,
            Resource::ScaleContext => self.state.held.scale_context,
            Resource::WorkingFrame => self.state.held.working_frame,
        }
    }

    /// Whether the session is still opening its source and decoder.
    pub fn is_opening(&self) -> (still: bool)
        ensures
            still == opening(self@.pending),
    {
        match self.state.pending {
            Command::AllocateInputFrame
            | Command::AllocateFormatContext
            | Command::OpenInput
            | Command::AllocatePacket
            | Command::FindVideoStream
            | Command::FindDecoder
            | Command::AllocateCodecContext
            | Command::CopyParameters
            | Command::OpenCodec => true,
            _ => false,
        }
    }

    /// Takes what came of the awaited command and answers with the command
    /// that follows. Driving the session is to perform each command and
    /// call this with its outcome, until the answer is `Finish` or `Fail`.
    pub fn decode_frames(&mut self, outcome: Outcome) -> (command: Command)
        ensures
            final(self)@ == old(self)@.step(outcome),
            command == old(self)@.next_command(outcome),
            old(self)@.wf() ==> final(self)@.wf(),
    {
        let pending: Command = self.state.pending;
        let failed: bool = outcome.is_failure();
        let code: Option<i32> = outcome.result_code();
        let next: Command = match pending {
            Command::Finish => Command::Finish,
            Command::Fail(e) => Command::Fail(e),
            Command::PacketStream => match code {
                Some(index) if index == self.state.video_stream => Command::SendPacket,
                _ => Command::ReadPacket,
            },
            _ if !failed => {
                match pending {
                    Command::AllocateInputFrame => {
                        self.state.held.input_frame = true;
                        Command::AllocateFormatContext
                    },
                    Command::AllocateFormatContext => {
                        self.state.held.format_context = true;
                        Command::OpenInput
                    },
                    Command::OpenInput => Command::AllocatePacket,
                    Command::AllocatePacket => {
                        self.state.held.packet = true;
                        Command::FindVideoStream
                    },
                    Command::FindVideoStream => {
                        match code {
                            Some(index) => {
                                self.state.video_stream = index;
                            },
                            None => {},
                        }
                        Command::FindDecoder
                    },
                    Command::FindDecoder => Command::AllocateCodecContext,
                    Command::AllocateCodecContext => {
                        self.state.held.codec_context = true;
                        Command::CopyParameters
                    },
                    Command::CopyParameters => Command::OpenCodec,
                    Command::OpenCodec => Command::ReadPacket,
                    Command::ReadPacket => Command::PacketStream,
                    Command::SendPacket => Command::ReceiveFrame,
                    Command::ReceiveFrame => Command::Present,
                    _ => Command::ReceiveFrame,
                }
            },
            Command::ReadPacket => Command::Finish,
            Command::ReceiveFrame => {
                let benign: bool = match code {
                    Some(signal) => signal == self.state.again || signal
                        == self.state.end_of_stream,
                    None => false,
                };
                if benign {
                    Command::ReadPacket
                } else {
                    Command::Fail(Error::ReceiveFrame(code))
                }
            },
            Command::OpenInput => {
                self.state.held.format_context = false;
                Command::Fail(Error::OpenInput(code))
            },
            Command::AllocateInputFrame => Command::Fail(Error::InputFrame(code)),
            Command::AllocateFormatContext => Command::Fail(Error::FormatContext(code)),
            Command::AllocatePacket => Command::Fail(Error::Packet(code)),
            Command::FindVideoStream => Command::Fail(Error::NoVideoStream(code)),
            Command::FindDecoder => Command::Fail(Error::NoDecoder(code)),
            Command::AllocateCodecContext => Command::Fail(Error::CodecContext(code)),
            Command::CopyParameters => Command::Fail(Error::CodecParameters(code)),
            Command::OpenCodec => Command::Fail(Error::OpenCodec(code)),
            Command::SendPacket => Command::Fail(Error::SendPacket(code)),
            Command::Present => Command::Fail(Error::Conversion(code)),
        };
        self.state.pending = next;
        next
    }

    /// Decides what becomes of the conversion context for a frame of
    /// `geometry`, and records that the context now fits that geometry. A
    /// stream that changes its geometry has its context made anew. From
    /// this call on the session counts the context and the working frame
    /// as held, so that their release is owed at teardown even where the
    /// driver then fails to create one of them.
    pub fn format_video(&mut self, geometry: Geometry) -> (plan: ConversionPlan)
        ensures
            plan == plan_of(old(self)@.converted, geometry),
            final(self)@ == old(self)@.formatted(geometry),
            old(self)@.wf() ==> final(self)@.wf(),
    {
        let plan: ConversionPlan = match self.state.converted {
            None => ConversionPlan::Create,
            Some(g) => if g.width == geometry.width && g.height == geometry.height && g.format
                == geometry.format {
                ConversionPlan::Reuse
            } else {
                ConversionPlan::Recreate
            },
        };
        self.state.converted = Some(geometry);
        self.state.held.scale_context = true;
        self.state.held.working_frame = true;
        plan
    }

    /// Ends the session and says what is to be released: every resource
    /// that the session holds, once, the latest acquired first. The session
    /// then holds nothing.
    pub fn teardown(&mut self) -> (released: Vec<Resource>)
        ensures
            released@ == old(self)@.held.release_order(),
            final(self)@ == old(self)@.torn_down(),
    {
        let mut released: Vec<Resource> = Vec::new();
        if self.state.held.working_frame {
            released.push(Resource::WorkingFrame);
        }
        if self.state.held.scale_context {
            released.push(Resource::ScaleContext);
        }
        if self.state.held.codec_context {
            released.push(Resource::CodecContext);
        }
        if self.state.held.packet {
            released.push(Resource::Packet);
        }
        if self.state.held.format_context {
            released.push(Resource::FormatContext);
        }
        if self.state.held.input_frame {
            released.push(Resource::InputFrame);
        }
        assert(released@ =~= old(self)@.held.release_order());
        self.state.held = Held {
            input_frame: false,
            format_context: false,
            packet: false,
            codec_context: false,
            scale_context: false,
            working_frame: false,
        };
        self.state.converted = None;
        self.state.pending = match self.state.pending {
            Command::Fail(e) => Command::Fail(e),
            _ => Command::Finish,
        };
        released
    }
}

} // verus!
