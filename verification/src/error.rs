//! The failures of a session and of the rendering pipeline.

use vstd::prelude::*;
use vstd::string::StringExecFns;

verus! {

/// Why a session ended early: one variant for each thing that can go
/// wrong. A failure of native work carries the result code of the call that
/// failed, where that call gave one.
#[derive(Clone, Copy, Debug, PartialEq, Eq)]
pub enum Error {
    /// The buffer for decoded frames could not be had.
    InputFrame(Option<i32>),
    /// The context of the source could not be had.
    FormatContext(Option<i32>),
    /// The source could not be opened.
    OpenInput(Option<i32>),
    /// The buffer for packets could not be had.
    Packet(Option<i32>),
    /// The source holds no video stream.
    NoVideoStream(Option<i32>),
    /// No decoder exists for the stream.
    NoDecoder(Option<i32>),
    /// The decoder's context could not be had.
    CodecContext(Option<i32>),
    /// The stream's parameters could not be given to the decoder.
    CodecParameters(Option<i32>),
    /// The decoder did not start.
    OpenCodec(Option<i32>),
    /// The decoder did not take a packet.
    SendPacket(Option<i32>),
    /// The decoder failed to give a frame, with something other than a
    /// benign signal.
    ReceiveFrame(Option<i32>),
    /// The frame could not be brought into the working layout.
    Conversion(Option<i32>),
    /// The terminal's dimensions are not available.
    Environment,
    /// The terminal grid has no cells, or more cells along one axis than the
    /// source has pixels, so that no sampling ratio of at least one exists.
    Grid,
}

/// The kinds that failures fall in.
#[derive(Clone, Copy, Debug, PartialEq, Eq, Structural)]
pub enum ErrorKind {
    /// The source cannot be opened.
    Open,
    /// The source has no suitable stream.
    NoVideoStream,
    /// The decoder is not available or does not start.
    Codec,
    /// Decoding failed.
    Decode,
    /// The pixel format could not be converted.
    Conversion,
    /// The terminal's dimensions are not available.
    Environment,
    /// The terminal grid does not fit the source.
    Grid,
}

/// What stands between the diagnostic and the context of a message.
pub open spec fn full_stop() -> Seq<char> {
    seq!['.', ' ']
}

/// A diagnostic and a context, joined by a full stop and a space.
pub open spec fn failure_text(diagnostic: Seq<char>, context: Seq<char>) -> Seq<char> {
    diagnostic + full_stop() + context
}

/// Joins a diagnostic and a context into one message.
pub fn join_failure(diagnostic: &str, context: &str) -> (message: String)
    ensures
        message@ == failure_text(diagnostic@, context@),
{
    let mut message = String::from_str(diagnostic);
    proof {
        reveal_strlit(". ");
        assert(". "@ =~= full_stop());
    }
    message.append(". ");
    message.append(context);
    message
}

impl Error {
    /// The kind that the failure falls in.
    pub open spec fn spec_kind(self) -> ErrorKind {
        match self {
            Error::InputFrame(_)
            | Error::FormatContext(_)
            | Error::OpenInput(_)
            | Error::Packet(_) => ErrorKind::Open,
            Error::NoVideoStream(_) => ErrorKind::NoVideoStream,
            Error::NoDecoder(_)
            | Error::CodecContext(_)
            | Error::CodecParameters(_)
            | Error::OpenCodec(_) => ErrorKind::Codec,
            Error::SendPacket(_) | Error::ReceiveFrame(_) => ErrorKind::Decode,
            Error::Conversion(_) => ErrorKind::Conversion,
            Error::Environment => ErrorKind::Environment,
            Error::Grid => ErrorKind::Grid,
        }
    }

    /// The kind that the failure falls in.
    pub fn kind(&self) -> (kind: ErrorKind)
        ensures
            kind == self.spec_kind(),
    {
        match self {
            Error::InputFrame(_)
            | Error::FormatContext(_)
            | Error::OpenInput(_)
            | Error::Packet(_) => ErrorKind::Open,
            Error::NoVideoStream(_) => ErrorKind::NoVideoStream,
            Error::NoDecoder(_)
            | Error::CodecContext(_)
            | Error::CodecParameters(_)
            | Error::OpenCodec(_) => ErrorKind::Codec,
            Error::SendPacket(_) | Error::ReceiveFrame(_) => ErrorKind::Decode,
            Error::Conversion(_) => ErrorKind::Conversion,
            Error::Environment => ErrorKind::Environment,
            Error::Grid => ErrorKind::Grid,
        }
    }

    /// The native result code of the failure, where there is one.
    pub open spec fn spec_code(self) -> Option<i32> {
        match self {
            Error::InputFrame(code)
            | Error::FormatContext(code)
            | Error::OpenInput(code)
            | Error::Packet(code)
            | Error::NoVideoStream(code)
            | Error::NoDecoder(code)
            | Error::CodecContext(code)
            | Error::CodecParameters(code)
            | Error::OpenCodec(code)
            | Error::SendPacket(code)
            | Error::ReceiveFrame(code)
            | Error::Conversion(code) => code,
            Error::Environment | Error::Grid => None,
        }
    }

    /// The native result code of the failure, where there is one.
    pub fn code(&self) -> (code: Option<i32>)
        ensures
            code == self.spec_code(),
    {
        match self {
            Error::InputFrame(code)
            | Error::FormatContext(code)
            | Error::OpenInput(code)
            | Error::Packet(code)
            | Error::NoVideoStream(code)
            | Error::NoDecoder(code)
            | Error::CodecContext(code)
            | Error::CodecParameters(code)
            | Error::OpenCodec(code)
            | Error::SendPacket(code)
            | Error::ReceiveFrame(code)
            | Error::Conversion(code) => *code,
            Error::Environment | Error::Grid => None,
        }
    }

    /// What was being done, in fixed words. A source that could not be
    /// opened is named behind them.
    pub open spec fn spec_words(self) -> Seq<char> {
        match self {
            Error::InputFrame(_) => "Could not acquire a frame"@,
            Error::FormatContext(_) => "Could not aquire format context"@,
            Error::OpenInput(_) => "could not open file : "@,
            Error::Packet(_) => "Could not aquire a pkt"@,
            Error::NoVideoStream(_) => "could not find video stream"@,
            Error::NoDecoder(_) => "Could not aquire a codec"@,
            Error::CodecContext(_) => "Could not aquire a codec context"@,
            Error::CodecParameters(_) => "Could not copy codec parameters"@,
            Error::OpenCodec(_) => "Could not open codec"@,
            Error::SendPacket(_) => "Could not send packet to the AVCodec of the decoder"@,
            Error::ReceiveFrame(_) => "an error happened while receiving the frame"@,
            Error::Conversion(_) => "could not change format"@,
            Error::Environment => "Could not acquire terminal dimensions"@,
            Error::Grid => "the terminal grid does not fit the source"@,
        }
    }

    /// What was being done, in fixed words.
    pub fn words(&self) -> (text: &'static str)
        ensures
            text@ == self.spec_words(),
    {
        match self {
            Error::InputFrame(_) => "Could not acquire a frame",
            Error::FormatContext(_) => "Could not aquire format context",
            Error::OpenInput(_) => "could not open file : ",
            Error::Packet(_) => "Could not aquire a pkt",
            Error::NoVideoStream(_) => "could not find video stream",
            Error::NoDecoder(_) => "Could not aquire a codec",
            Error::CodecContext(_) => "Could not aquire a codec context",
            Error::CodecParameters(_) => "Could not copy codec parameters",
            Error::OpenCodec(_) => "Could not open codec",
            Error::SendPacket(_) => "Could not send packet to the AVCodec of the decoder",
            Error::ReceiveFrame(_) => "an error happened while receiving the frame",
            Error::Conversion(_) => "could not change format",
            Error::Environment => "Could not acquire terminal dimensions",
            Error::Grid => "the terminal grid does not fit the source",
        }
    }

    /// What went wrong with the source called `source`: the fixed words of
    /// the failure, and behind them the source's name where it is the source
    /// that could not be opened.
    pub open spec fn spec_context(self, source: Seq<char>) -> Seq<char> {
        if self is OpenInput {
            self.spec_words() + source
        } else {
            self.spec_words()
        }
    }

    /// What went wrong with the source called `source`.
    pub fn context(&self, source: &str) -> (text: String)
        ensures
            text@ == self.spec_context(source@),
    {
        let mut text = String::from_str(self.words());
        match self {
            Error::OpenInput(_) => {
                text.append(source);
            },
            _ => {},
        }
        text
    }

    /// The message of a failure: where it has a native code, the decoder's
    /// diagnostic text for the code, a full stop and the context; else the
    /// context alone.
    pub open spec fn spec_describe(self, diagnostic: Seq<char>, source: Seq<char>) -> Seq<char> {
        if self.spec_code() is Some {
            failure_text(diagnostic, self.spec_context(source))
        } else {
            self.spec_context(source)
        }
    }

    /// Builds the message of this failure. `diagnostic` is the decoder's
    /// text for the native code, and is not read where there is no code;
    /// `source` is the name of the session's source.
    pub fn describe(&self, diagnostic: &str, source: &str) -> (message: String)
        ensures
            message@ == self.spec_describe(diagnostic@, source@),
    {
        let context: String = self.context(source);
        match self.code() {
            Some(_) => join_failure(diagnostic, context.as_str()),
            None => context,
        }
    }
}

} // verus!
