use term_video::decoder::{
    Command, ConversionPlan, DecoderState, Geometry, Held, Outcome, Resource, VideoDecoder,
};
use term_video::error::{Error, ErrorKind};

const AGAIN: i32 = -11;
const END: i32 = -541478725;

const ALL: [Resource; 6] = [
    Resource::InputFrame,
    Resource::FormatContext,
    Resource::Packet,
    Resource::CodecContext,
    Resource::ScaleContext,
    Resource::WorkingFrame,
];

/// Stands for the native side: answers each command from a script and
/// counts what is acquired and released.
struct Tracker {
    script: Vec<Outcome>,
    at: usize,
    acquired: Vec<Resource>,
    released: Vec<Resource>,
    performed: Vec<Command>,
    presented: usize,
}

fn tracker(script: Vec<Outcome>) -> Tracker {
    Tracker {
        script,
        at: 0,
        acquired: Vec::new(),
        released: Vec::new(),
        performed: Vec::new(),
        presented: 0,
    }
}

fn perform(t: &mut Tracker, decoder: &mut VideoDecoder, command: Command) -> Outcome {
    let outcome: Outcome = t.script[t.at];
    t.at += 1;
    t.performed.push(command);
    if !outcome.is_failure() {
        match command {
            Command::AllocateInputFrame => t.acquired.push(Resource::InputFrame),
            Command::AllocateFormatContext => t.acquired.push(Resource::FormatContext),
            Command::AllocatePacket => t.acquired.push(Resource::Packet),
            Command::AllocateCodecContext => t.acquired.push(Resource::CodecContext),
            _ => {}
        }
    } else if command == Command::OpenInput {
        // The failed open releases the context itself.
        t.released.push(Resource::FormatContext);
    }
    if command == Command::Present {
        let geometry = Geometry { width: 4, height: 4, format: 0 };
        match decoder.format_video(geometry) {
            ConversionPlan::Create => {
                t.acquired.push(Resource::ScaleContext);
                t.acquired.push(Resource::WorkingFrame);
            }
            ConversionPlan::Reuse => {}
            ConversionPlan::Recreate => panic!("the geometry did not change"),
        }
        if !outcome.is_failure() {
            t.presented += 1;
        }
    }
    outcome
}

fn run_with(t: &mut Tracker, again: i32, end_of_stream: i32) -> (VideoDecoder, Command) {
    let mut decoder = VideoDecoder::new(again, end_of_stream);
    let mut command: Command = decoder.command();
    loop {
        match command {
            Command::Finish | Command::Fail(_) => break,
            _ => {
                let outcome: Outcome = perform(t, &mut decoder, command);
                command = decoder.decode_frames(outcome);
            }
        }
    }
    (decoder, command)
}

fn run(t: &mut Tracker) -> (VideoDecoder, Command) {
    run_with(t, AGAIN, END)
}

fn release(t: &mut Tracker, decoder: &mut VideoDecoder) {
    for resource in decoder.teardown() {
        t.released.push(resource);
    }
}

fn count(list: &[Resource], resource: Resource) -> usize {
    list.iter().filter(|r| **r == resource).count()
}

fn assert_released_once(t: &Tracker) {
    for resource in ALL {
        assert!(count(&t.acquired, resource) <= 1);
        assert_eq!(count(&t.released, resource), count(&t.acquired, resource));
    }
}

fn c(code: i32) -> Outcome {
    Outcome::Code(code)
}

const OPENING: [Outcome; 9] = [
    Outcome::Found,
    Outcome::Found,
    Outcome::Code(0),
    Outcome::Found,
    Outcome::Code(1),
    Outcome::Found,
    Outcome::Found,
    Outcome::Code(0),
    Outcome::Code(0),
];

fn script(decoding: &[Outcome]) -> Vec<Outcome> {
    let mut s: Vec<Outcome> = OPENING.to_vec();
    s.extend_from_slice(decoding);
    s
}

#[test]
fn outcome_fails_on_a_negative_code_or_a_missing_handle() {
    assert!(c(-1).is_failure());
    assert!(c(i32::MIN).is_failure());
    assert!(!c(0).is_failure());
    assert!(!c(7).is_failure());
    assert!(!Outcome::Found.is_failure());
    assert!(Outcome::Missing.is_failure());
    assert_eq!(c(-5).result_code(), Some(-5));
    assert_eq!(c(3).result_code(), Some(3));
    assert_eq!(Outcome::Found.result_code(), None);
    assert_eq!(Outcome::Missing.result_code(), None);
}

#[test]
fn new_session_awaits_the_first_step_and_holds_nothing() {
    let decoder = VideoDecoder::new(AGAIN, END);
    assert_eq!(decoder.command(), Command::AllocateInputFrame);
    assert!(decoder.is_opening());
    for resource in ALL {
        assert!(!decoder.holds(resource));
    }
    let state: DecoderState = decoder.state();
    assert_eq!(state.again, AGAIN);
    assert_eq!(state.end_of_stream, END);
    assert_eq!(state.converted, None);
}

#[test]
fn opening_goes_through_its_steps_in_order() {
    let mut t = tracker(script(&[c(-1)]));
    let (decoder, last) = run(&mut t);
    assert_eq!(last, Command::Finish);
    assert!(!decoder.is_opening());
    assert_eq!(
        t.performed,
        vec![
            Command::AllocateInputFrame,
            Command::AllocateFormatContext,
            Command::OpenInput,
            Command::AllocatePacket,
            Command::FindVideoStream,
            Command::FindDecoder,
            Command::AllocateCodecContext,
            Command::CopyParameters,
            Command::OpenCodec,
            Command::ReadPacket,
        ]
    );
    assert_eq!(decoder.video_stream(), 1);
    assert!(decoder.holds(Resource::InputFrame));
    assert!(decoder.holds(Resource::FormatContext));
    assert!(decoder.holds(Resource::Packet));
    assert!(decoder.holds(Resource::CodecContext));
    assert!(!decoder.holds(Resource::ScaleContext));
    assert!(!decoder.holds(Resource::WorkingFrame));
}

#[test]
fn successful_run_releases_every_resource_once() {
    // Two packets of the video stream around one of another stream; the
    // first gives two frames, the second one.
    let mut t = tracker(script(&[
        // read, stream 1, send, frame, shown, frame, shown, again
        c(0), c(1), c(0), c(0), c(0), c(0), c(0), c(AGAIN),
        // read, stream 0: dropped
        c(0), c(0),
        // read, stream 1, send, frame, shown, end of stream
        c(0), c(1), c(0), c(0), c(0), c(END),
        // read fails: no more packets
        c(-1),
    ]));
    let (mut decoder, last) = run(&mut t);
    assert_eq!(last, Command::Finish);
    assert_eq!(t.presented, 3);
    assert_eq!(t.at, t.script.len());
    assert_eq!(t.acquired.len(), 6);
    release(&mut t, &mut decoder);
    assert_released_once(&t);
    assert_eq!(
        t.released,
        vec![
            Resource::WorkingFrame,
            Resource::ScaleContext,
            Resource::CodecContext,
            Resource::Packet,
            Resource::FormatContext,
            Resource::InputFrame,
        ]
    );
    release(&mut t, &mut decoder);
    assert_released_once(&t);
    assert_eq!(decoder.command(), Command::Finish);
}

#[test]
fn early_decode_error_releases_every_resource_once() {
    let mut t = tracker(script(&[c(0), c(1), c(0), c(0), c(0), c(-22)]));
    let (mut decoder, last) = run(&mut t);
    assert_eq!(last, Command::Fail(Error::ReceiveFrame(Some(-22))));
    assert_eq!(t.presented, 1);
    assert_eq!(t.acquired.len(), 6);
    release(&mut t, &mut decoder);
    assert_released_once(&t);
    assert_eq!(t.released.len(), 6);
    assert_eq!(decoder.teardown(), Vec::<Resource>::new());
    assert_eq!(decoder.command(), Command::Fail(Error::ReceiveFrame(Some(-22))));
}

#[test]
fn decode_error_before_any_frame_releases_what_was_opened() {
    let mut t = tracker(script(&[c(0), c(1), c(-1094995529)]));
    let (mut decoder, last) = run(&mut t);
    assert_eq!(last, Command::Fail(Error::SendPacket(Some(-1094995529))));
    assert_eq!(t.presented, 0);
    assert_eq!(t.performed.last(), Some(&Command::SendPacket));
    release(&mut t, &mut decoder);
    assert_released_once(&t);
    assert_eq!(
        t.released,
        vec![
            Resource::CodecContext,
            Resource::Packet,
            Resource::FormatContext,
            Resource::InputFrame,
        ]
    );
}

#[test]
fn failed_opening_steps_give_their_errors() {
    let cases: [(usize, Outcome, Error, ErrorKind, usize); 9] = [
        (0, Outcome::Missing, Error::InputFrame(None), ErrorKind::Open, 0),
        (1, Outcome::Missing, Error::FormatContext(None), ErrorKind::Open, 1),
        (2, c(-2), Error::OpenInput(Some(-2)), ErrorKind::Open, 1),
        (3, Outcome::Missing, Error::Packet(None), ErrorKind::Open, 2),
        (4, c(-12), Error::NoVideoStream(Some(-12)), ErrorKind::NoVideoStream, 3),
        (5, Outcome::Missing, Error::NoDecoder(None), ErrorKind::Codec, 3),
        (6, Outcome::Missing, Error::CodecContext(None), ErrorKind::Codec, 3),
        (7, c(-22), Error::CodecParameters(Some(-22)), ErrorKind::Codec, 4),
        (8, c(-22), Error::OpenCodec(Some(-22)), ErrorKind::Codec, 4),
    ];
    for (step, outcome, expected, kind, held) in cases {
        let mut s: Vec<Outcome> = OPENING[0..step].to_vec();
        s.push(outcome);
        let mut t = tracker(s);
        let (mut decoder, last) = run(&mut t);
        assert_eq!(last, Command::Fail(expected));
        assert_eq!(expected.kind(), kind);
        assert!(!decoder.is_opening());
        let still: usize = ALL.iter().filter(|r| decoder.holds(**r)).count();
        assert_eq!(still, held);
        release(&mut t, &mut decoder);
        assert_released_once(&t);
        assert_eq!(decoder.teardown(), Vec::<Resource>::new());
    }
}

#[test]
fn failed_open_gives_the_context_of_the_source_up() {
    let mut s: Vec<Outcome> = OPENING[0..2].to_vec();
    s.push(c(-2));
    let mut t = tracker(s);
    let (mut decoder, last) = run(&mut t);
    assert_eq!(last, Command::Fail(Error::OpenInput(Some(-2))));
    assert!(decoder.holds(Resource::InputFrame));
    assert!(!decoder.holds(Resource::FormatContext));
    assert_eq!(decoder.teardown(), vec![Resource::InputFrame]);
}

#[test]
fn failures_have_the_messages_of_their_commands() {
    let cases: [(usize, Outcome, &str); 9] = [
        (0, Outcome::Missing, "Could not acquire a frame"),
        (1, Outcome::Missing, "Could not aquire format context"),
        (2, c(-2), "No such file. could not open file : film.mp4"),
        (3, Outcome::Missing, "Could not aquire a pkt"),
        (4, c(-12), "No such file. could not find video stream"),
        (5, Outcome::Missing, "Could not aquire a codec"),
        (6, Outcome::Missing, "Could not aquire a codec context"),
        (7, c(-22), "No such file. Could not copy codec parameters"),
        (8, c(-22), "No such file. Could not open codec"),
    ];
    for (step, outcome, expected) in cases {
        let mut s: Vec<Outcome> = OPENING[0..step].to_vec();
        s.push(outcome);
        let (_, last) = run(&mut tracker(s));
        match last {
            Command::Fail(error) => {
                assert_eq!(error.describe("No such file", "film.mp4"), expected)
            }
            _ => panic!("the session did not fail"),
        }
    }
    let decoding: [(Vec<Outcome>, &str); 4] = [
        (
            vec![c(0), c(1), c(-5)],
            "Invalid data. Could not send packet to the AVCodec of the decoder",
        ),
        (
            vec![c(0), c(1), c(0), c(-5)],
            "Invalid data. an error happened while receiving the frame",
        ),
        (vec![c(0), c(1), c(0), c(0), c(-5)], "Invalid data. could not change format"),
        (vec![c(0), c(1), c(0), c(0), Outcome::Missing], "could not change format"),
    ];
    for (outcomes, expected) in decoding {
        let (_, last) = run(&mut tracker(script(&outcomes)));
        match last {
            Command::Fail(error) => {
                assert_eq!(error.describe("Invalid data", "film.mp4"), expected)
            }
            _ => panic!("the session did not fail"),
        }
    }
}

#[test]
fn signal_codes_that_are_not_negative_are_no_signals() {
    let mut t = tracker(script(&[c(0), c(1), c(0), c(0), c(0), c(0), c(0), c(-1)]));
    let (_, last) = run_with(&mut t, 0, 0);
    assert_eq!(last, Command::Fail(Error::ReceiveFrame(Some(-1))));
    assert_eq!(t.presented, 2);
    assert_eq!(
        t.performed[9..].to_vec(),
        vec![
            Command::ReadPacket,
            Command::PacketStream,
            Command::SendPacket,
            Command::ReceiveFrame,
            Command::Present,
            Command::ReceiveFrame,
            Command::Present,
            Command::ReceiveFrame,
        ]
    );
}

#[test]
fn benign_signals_send_the_session_back_to_reading() {
    for signal in [AGAIN, END] {
        let mut t = tracker(script(&[c(0), c(1), c(0)]));
        let mut decoder = VideoDecoder::new(AGAIN, END);
        let mut command: Command = decoder.command();
        while t.at < t.script.len() {
            let outcome: Outcome = perform(&mut t, &mut decoder, command);
            command = decoder.decode_frames(outcome);
        }
        assert_eq!(command, Command::ReceiveFrame);
        assert_eq!(decoder.decode_frames(c(signal)), Command::ReadPacket);
    }
}

#[test]
fn packet_of_another_stream_is_dropped() {
    let mut t = tracker(script(&[c(0), c(0), c(0), c(2), c(0), c(1)]));
    let mut decoder = VideoDecoder::new(AGAIN, END);
    let mut command: Command = decoder.command();
    let mut seen: Vec<Command> = Vec::new();
    while t.at < t.script.len() {
        let outcome: Outcome = perform(&mut t, &mut decoder, command);
        command = decoder.decode_frames(outcome);
        seen.push(command);
    }
    assert_eq!(
        seen[9..].to_vec(),
        vec![
            Command::PacketStream,
            Command::ReadPacket,
            Command::PacketStream,
            Command::ReadPacket,
            Command::PacketStream,
            Command::SendPacket,
        ]
    );
}

#[test]
fn failed_conversion_is_a_conversion_error() {
    let mut t = tracker(script(&[c(0), c(1), c(0), c(0), c(-5)]));
    let (mut decoder, last) = run(&mut t);
    assert_eq!(last, Command::Fail(Error::Conversion(Some(-5))));
    assert_eq!(Error::Conversion(Some(-5)).kind(), ErrorKind::Conversion);
    release(&mut t, &mut decoder);
    assert_released_once(&t);
    assert_eq!(t.released.len(), 6);
}

#[test]
fn stopped_session_stays_stopped() {
    let mut t = tracker(script(&[c(0), c(1), c(-7)]));
    let (mut decoder, last) = run(&mut t);
    let failure = Command::Fail(Error::SendPacket(Some(-7)));
    assert_eq!(last, failure);
    assert_eq!(Error::SendPacket(Some(-7)).kind(), ErrorKind::Decode);
    let before: DecoderState = decoder.state();
    assert_eq!(decoder.decode_frames(c(0)), failure);
    assert_eq!(decoder.decode_frames(c(-1)), failure);
    assert_eq!(decoder.decode_frames(Outcome::Found), failure);
    assert_eq!(decoder.state(), before);

    let mut t = tracker(script(&[c(-1)]));
    let (mut decoder, last) = run(&mut t);
    assert_eq!(last, Command::Finish);
    assert_eq!(decoder.decode_frames(c(0)), Command::Finish);
    assert_eq!(decoder.decode_frames(c(AGAIN)), Command::Finish);
    assert_eq!(decoder.decode_frames(Outcome::Missing), Command::Finish);
}

#[test]
fn conversion_context_follows_the_geometry() {
    let mut decoder = VideoDecoder::new(AGAIN, END);
    let small = Geometry { width: 4, height: 4, format: 0 };
    let wide = Geometry { width: 8, height: 4, format: 0 };
    let other_format = Geometry { width: 8, height: 4, format: 2 };
    assert_eq!(decoder.format_video(small), ConversionPlan::Create);
    assert!(decoder.holds(Resource::ScaleContext));
    assert!(decoder.holds(Resource::WorkingFrame));
    assert_eq!(decoder.format_video(small), ConversionPlan::Reuse);
    assert_eq!(decoder.format_video(wide), ConversionPlan::Recreate);
    assert_eq!(decoder.format_video(wide), ConversionPlan::Reuse);
    assert_eq!(decoder.format_video(other_format), ConversionPlan::Recreate);
    assert_eq!(decoder.state().converted, Some(other_format));
    assert_eq!(
        decoder.teardown(),
        vec![Resource::WorkingFrame, Resource::ScaleContext]
    );
    assert_eq!(decoder.state().converted, None);
    assert_eq!(decoder.format_video(wide), ConversionPlan::Create);
}

#[test]
fn teardown_of_a_new_session_releases_nothing() {
    let mut decoder = VideoDecoder::new(AGAIN, END);
    assert_eq!(decoder.teardown(), Vec::<Resource>::new());
    assert_eq!(decoder.command(), Command::Finish);
    assert_eq!(
        decoder.state().held,
        Held {
            input_frame: false,
            format_context: false,
            packet: false,
            codec_context: false,
            scale_context: false,
            working_frame: false,
        }
    );
}
