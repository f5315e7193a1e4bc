use mmconv::error::{ErrorKind, NativeStatus};
use mmconv::input::Input;
use mmconv::native::Reply;
use mmconv::stream::{DecoderParams, EncoderSetup, Rational, Stream, StreamKind};
use mmconv::transcode::{
    format_needs_io, Output, ProcessAction, ProcessProgress, Processing, Transcode, AVFMT_NOFILE,
};

fn ok() -> NativeStatus {
    NativeStatus { code: 0, text_status: 0, text: vec![0u8; 255] }
}

fn failed(code: i32, text: &str) -> NativeStatus {
    let mut buf = text.as_bytes().to_vec();
    buf.push(0);
    NativeStatus { code, text_status: 0, text: buf }
}

fn decoder() -> DecoderParams {
    DecoderParams {
        width: 1920,
        height: 1080,
        sample_aspect_ratio: Rational { num: 4, den: 3 },
        time_base: Rational { num: 1, den: 24 },
        sample_rate: 22050,
        channel_layout: 4,
        channels: 1,
        sample_format: 3,
    }
}

fn stream(index: usize, kind: StreamKind, name: &str) -> Stream {
    let decoder = match kind {
        StreamKind::Video | StreamKind::Audio => Some(decoder()),
        _ => None,
    };
    Stream { index, kind, codec_name: name.to_string(), decoder }
}

fn go_on(progress: ProcessProgress, expected: ProcessAction) -> Processing {
    match progress {
        ProcessProgress::Do(session) => {
            assert_eq!(session.pending(), expected);
            session
        }
        other => panic!("the session ended: {:?}", other),
    }
}

fn fails_with(progress: ProcessProgress, expected: ErrorKind) {
    match progress {
        ProcessProgress::Failed(e) => assert_eq!(e.kind, expected),
        other => panic!("not failed: {:?}", other),
    }
}

#[test]
fn formats_without_the_flag_need_io() {
    assert_eq!(AVFMT_NOFILE, 1);
    assert!(format_needs_io(0));
    assert!(format_needs_io(0x40));
    assert!(!format_needs_io(1));
    assert!(!format_needs_io(0x41));
}

#[test]
fn create_reports_the_allocation_error() {
    match Output::create("out.xyz".to_string(), &failed(-22, "Invalid argument"), 0) {
        Err(e) => assert_eq!(e.kind, ErrorKind::FFmpegError("Invalid argument".to_string())),
        Ok(o) => panic!("created: {:?}", o),
    }
}

#[test]
fn create_starts_without_streams() {
    let output = Output::create("out.webm".to_string(), &ok(), 0x40).unwrap();
    assert_eq!(output.filename, "out.webm");
    assert_eq!(output.format_flags, 0x40);
    assert!(output.streams.is_empty());
}

#[test]
fn add_stream_keeps_the_order_of_selection() {
    let mut output = Output::new("out.mkv".to_string(), 0);
    output.add_stream(stream(2, StreamKind::Subtitle, "ass"));
    output.add_stream(stream(0, StreamKind::Video, "h264"));
    assert_eq!(
        output.streams,
        vec![stream(2, StreamKind::Subtitle, "ass"), stream(0, StreamKind::Video, "h264")]
    );
}

#[test]
fn subtitles_are_remuxed_and_the_container_written() {
    let mut output = Output::new("out.mkv".to_string(), 0);
    output.add_stream(stream(0, StreamKind::Subtitle, "subrip"));
    output.add_stream(stream(1, StreamKind::Subtitle, "ass"));
    let s = output.process();
    assert_eq!(s.pending(), ProcessAction::NewStream(0));
    let s = go_on(s.step(Reply::Found(true)), ProcessAction::Remux(0));
    let s = go_on(s.step(Reply::Status(ok())), ProcessAction::NewStream(1));
    let s = go_on(s.step(Reply::Found(true)), ProcessAction::Remux(1));
    let s = go_on(s.step(Reply::Status(ok())), ProcessAction::OpenIo);
    let s = go_on(s.step(Reply::Status(ok())), ProcessAction::WriteHeader);
    let s = go_on(s.step(Reply::Status(ok())), ProcessAction::WriteTrailer);
    let s = go_on(s.step(Reply::Status(ok())), ProcessAction::CloseIo);
    assert!(matches!(s.step(Reply::Status(ok())), ProcessProgress::Done));
}

#[test]
fn an_output_without_streams_writes_header_and_trailer() {
    let s = Output::new("out.mkv".to_string(), 0).process();
    assert_eq!(s.pending(), ProcessAction::OpenIo);
    let s = Output::new("out-%03d.png".to_string(), AVFMT_NOFILE).process();
    assert_eq!(s.pending(), ProcessAction::WriteHeader);
    let s = go_on(s.step(Reply::Status(ok())), ProcessAction::WriteTrailer);
    assert!(matches!(s.step(Reply::Status(ok())), ProcessProgress::Done));
}

#[test]
fn an_unknown_stream_aborts_before_anything_is_written() {
    let mut output = Output::new("out.mkv".to_string(), 0);
    output.add_stream(stream(0, StreamKind::Subtitle, "subrip"));
    output.add_stream(stream(1, StreamKind::Unknown, "none"));
    let s = output.process();
    let s = go_on(s.step(Reply::Found(true)), ProcessAction::Remux(0));
    let s = go_on(s.step(Reply::Status(ok())), ProcessAction::NewStream(1));
    fails_with(
        s.step(Reply::Found(true)),
        ErrorKind::FFmpegError("unknown stream, cannot proceed".to_string()),
    );
}

#[test]
fn a_stream_that_cannot_be_allocated_aborts() {
    let mut output = Output::new("out.mkv".to_string(), 0);
    output.add_stream(stream(0, StreamKind::Video, "h264"));
    let s = output.process();
    fails_with(
        s.step(Reply::Found(false)),
        ErrorKind::FFmpegError("failed to allocate output stream".to_string()),
    );
}

#[test]
fn a_failed_remux_aborts_with_the_native_error() {
    let mut output = Output::new("out.mkv".to_string(), 0);
    output.add_stream(stream(0, StreamKind::Subtitle, "subrip"));
    let s = output.process();
    let s = go_on(s.step(Reply::Found(true)), ProcessAction::Remux(0));
    fails_with(
        s.step(Reply::Status(failed(-12, "Cannot allocate memory"))),
        ErrorKind::FFmpegError("Cannot allocate memory".to_string()),
    );
}

#[test]
fn video_and_audio_get_an_encoder_set_up_as_decoded() {
    let mut output = Output::new("out.webm".to_string(), 0);
    output.add_stream(stream(0, StreamKind::Video, "h264"));
    output.add_stream(stream(1, StreamKind::Audio, "aac"));
    let s = output.process();
    let s = go_on(s.step(Reply::Found(true)), ProcessAction::FindEncoder(0));
    let video = EncoderSetup::Video {
        width: 1920,
        height: 1080,
        sample_aspect_ratio: Rational { num: 4, den: 3 },
        time_base: Rational { num: 1, den: 24 },
        pixel_format: Some(5),
    };
    let s = go_on(
        s.step(Reply::EncoderLookup { found: true, first_pixel_format: Some(5) }),
        ProcessAction::OpenEncoder(0, video),
    );
    let s = go_on(s.step(Reply::Status(ok())), ProcessAction::NewStream(1));
    let s = go_on(s.step(Reply::Found(true)), ProcessAction::FindEncoder(1));
    let audio = EncoderSetup::Audio {
        sample_rate: 22050,
        channel_layout: 4,
        channels: 1,
        sample_format: 3,
        time_base: Rational { num: 1, den: 24 },
    };
    let s = go_on(
        s.step(Reply::EncoderLookup { found: true, first_pixel_format: None }),
        ProcessAction::OpenEncoder(1, audio),
    );
    go_on(s.step(Reply::Status(ok())), ProcessAction::OpenIo);
}

#[test]
fn a_missing_encoder_names_the_codec() {
    let mut output = Output::new("out.webm".to_string(), 0);
    output.add_stream(stream(0, StreamKind::Audio, "truehd"));
    let s = output.process();
    let s = go_on(s.step(Reply::Found(true)), ProcessAction::FindEncoder(0));
    fails_with(
        s.step(Reply::EncoderLookup { found: false, first_pixel_format: None }),
        ErrorKind::NoDecoderFound("truehd".to_string()),
    );
}

#[test]
fn an_encoder_that_does_not_open_aborts() {
    let mut output = Output::new("out.webm".to_string(), 0);
    output.add_stream(stream(0, StreamKind::Video, "h264"));
    let s = output.process();
    let s = go_on(s.step(Reply::Found(true)), ProcessAction::FindEncoder(0));
    let s = match s.step(Reply::EncoderLookup { found: true, first_pixel_format: None }) {
        ProcessProgress::Do(s) => s,
        other => panic!("the session ended: {:?}", other),
    };
    assert!(matches!(s.pending(), ProcessAction::OpenEncoder(0, EncoderSetup::Video { pixel_format: None, .. })));
    fails_with(
        s.step(Reply::Status(failed(-22, "Invalid argument"))),
        ErrorKind::FFmpegError("Invalid argument".to_string()),
    );
}

#[test]
fn a_destination_that_does_not_open_aborts() {
    let s = Output::new("/nowhere/out.mkv".to_string(), 0).process();
    fails_with(
        s.step(Reply::Status(failed(-2, "No such file or directory"))),
        ErrorKind::FFmpegError("No such file or directory".to_string()),
    );
}

#[test]
fn a_failed_header_closes_the_destination_first() {
    let s = Output::new("out.mkv".to_string(), 0).process();
    let s = go_on(s.step(Reply::Status(ok())), ProcessAction::WriteHeader);
    let s = go_on(s.step(Reply::Status(failed(-22, "Invalid argument"))), ProcessAction::CloseIo);
    fails_with(
        s.step(Reply::Status(failed(-5, "Input/output error"))),
        ErrorKind::FFmpegError("Invalid argument".to_string()),
    );
}

#[test]
fn a_failed_trailer_without_io_fails_at_once() {
    let s = Output::new("out".to_string(), AVFMT_NOFILE).process();
    let s = go_on(s.step(Reply::Status(ok())), ProcessAction::WriteTrailer);
    fails_with(
        s.step(Reply::Status(failed(-5, "Input/output error"))),
        ErrorKind::FFmpegError("Input/output error".to_string()),
    );
}

#[test]
fn a_failed_close_is_reported() {
    let s = Output::new("out.mkv".to_string(), 0).process();
    let s = go_on(s.step(Reply::Status(ok())), ProcessAction::WriteHeader);
    let s = go_on(s.step(Reply::Status(ok())), ProcessAction::WriteTrailer);
    let s = go_on(s.step(Reply::Status(ok())), ProcessAction::CloseIo);
    fails_with(
        s.step(Reply::Status(failed(-28, "No space left on device"))),
        ErrorKind::FFmpegError("No space left on device".to_string()),
    );
}

#[test]
fn writing_ignores_a_reply_that_does_not_answer_the_pending_call() {
    let mut output = Output::new("out.mkv".to_string(), 0);
    output.add_stream(stream(0, StreamKind::Subtitle, "subrip"));
    let s = output.process();
    let s = go_on(s.step(Reply::Status(ok())), ProcessAction::NewStream(0));
    go_on(s.step(Reply::Closed), ProcessAction::NewStream(0));
}

#[test]
fn transcode_selects_every_stream_of_the_input() {
    let input = Input {
        url: "in.mp4".to_string(),
        streams: vec![stream(0, StreamKind::Video, "h264"), stream(1, StreamKind::Subtitle, "mov_text")],
    };
    let mut output = Output::new("out.mkv".to_string(), 0);
    output.add_stream(stream(7, StreamKind::Subtitle, "ass"));
    let t = Transcode::new(input, output);
    assert_eq!(t.input.streams.len(), 2);
    assert_eq!(
        t.output.streams,
        vec![
            stream(7, StreamKind::Subtitle, "ass"),
            stream(0, StreamKind::Video, "h264"),
            stream(1, StreamKind::Subtitle, "mov_text"),
        ]
    );
    let s = t.run();
    assert_eq!(s.pending(), ProcessAction::NewStream(0));
    assert_eq!(s.output.filename, "out.mkv");
}
