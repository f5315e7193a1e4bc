use mmconv::error::{Error, ErrorKind, NativeStatus};
use mmconv::input::{Input, OpenAction, OpenProgress};
use mmconv::native::Reply;
use mmconv::stream::{DecoderParams, MediaType, Rational, Stream, StreamKind};
use mmconv::transcode::{Output, ProcessAction, ProcessProgress, AVFMT_NOFILE};

fn status(code: i32) -> NativeStatus {
    let mut text = format!("native error {}", code).into_bytes();
    text.push(0);
    NativeStatus { code, text_status: 0, text }
}

fn native_error(code: i32) -> ErrorKind {
    ErrorKind::FFmpegError(format!("native error {}", code))
}

fn params() -> DecoderParams {
    DecoderParams {
        width: 16,
        height: 9,
        sample_aspect_ratio: Rational { num: 1, den: 1 },
        time_base: Rational { num: 1, den: 1000 },
        sample_rate: 8000,
        channel_layout: 4,
        channels: 1,
        sample_format: 0,
    }
}

struct ScriptedStream {
    media_type: MediaType,
    name: &'static str,
    decoder_found: bool,
    decoder_code: i32,
}

fn scripted(media_type: MediaType, name: &'static str) -> ScriptedStream {
    ScriptedStream { media_type, name, decoder_found: true, decoder_code: 0 }
}

fn run_open(
    open_code: i32,
    probe_code: i32,
    streams: &[ScriptedStream],
) -> (Result<Input, Error>, Vec<OpenAction>) {
    let mut trace = Vec::new();
    let mut session = Input::open("scripted".to_string());
    loop {
        let action = session.pending();
        trace.push(action);
        assert!(trace.len() <= 3 * streams.len() + 3);
        let reply = match action {
            OpenAction::OpenContainer => Reply::Status(status(open_code)),
            OpenAction::FindStreamInfo => {
                Reply::Probed { status: status(probe_code), streams: streams.len() }
            }
            OpenAction::InspectStream(i) => Reply::StreamInfo {
                media_type: streams[i].media_type,
                codec_name: streams[i].name.to_string(),
            },
            OpenAction::FindDecoder(i) => Reply::Found(streams[i].decoder_found),
            OpenAction::OpenDecoder(i) => {
                Reply::DecoderOpened { status: status(streams[i].decoder_code), params: params() }
            }
            OpenAction::CloseInput => Reply::Closed,
        };
        match session.step(reply) {
            OpenProgress::Do(next) => session = next,
            OpenProgress::Ready(input) => return (Ok(input), trace),
            OpenProgress::Failed(e) => return (Err(e), trace),
        }
    }
}

fn closes(trace: &[OpenAction]) -> usize {
    trace.iter().filter(|a| **a == OpenAction::CloseInput).count()
}

#[test]
fn a_good_container_opens_without_any_close() {
    let streams = [
        scripted(MediaType::Video, "vp9"),
        scripted(MediaType::Attachment, "ttf"),
        scripted(MediaType::Audio, "opus"),
    ];
    let (result, trace) = run_open(0, 0, &streams);
    let input = result.unwrap();
    assert_eq!(
        trace,
        vec![
            OpenAction::OpenContainer,
            OpenAction::FindStreamInfo,
            OpenAction::InspectStream(0),
            OpenAction::FindDecoder(0),
            OpenAction::OpenDecoder(0),
            OpenAction::InspectStream(1),
            OpenAction::InspectStream(2),
            OpenAction::FindDecoder(2),
            OpenAction::OpenDecoder(2),
        ]
    );
    assert_eq!(closes(&trace), 0);
    let listed = input.streams();
    assert_eq!(listed.len(), 3);
    for (i, s) in listed.iter().enumerate() {
        assert_eq!(s.index, i);
        assert_eq!(s.kind(), StreamKind::from_media_type(streams[i].media_type));
        assert_eq!(s.codec(), streams[i].name);
        assert_eq!(s.decoder.is_some(), s.kind().is_decoded());
    }
}

#[test]
fn a_missing_decoder_closes_the_container_exactly_once() {
    let mut streams = vec![
        scripted(MediaType::Video, "h264"),
        scripted(MediaType::Audio, "dts"),
        scripted(MediaType::Audio, "aac"),
    ];
    streams[1].decoder_found = false;
    streams[2].decoder_found = false;
    let (result, trace) = run_open(0, 0, &streams);
    assert_eq!(result.unwrap_err().kind, ErrorKind::NoDecoderFound("dts".to_string()));
    assert_eq!(closes(&trace), 1);
    assert_eq!(trace.last(), Some(&OpenAction::CloseInput));
    assert!(!trace.contains(&OpenAction::InspectStream(2)));
}

#[test]
fn repeated_failing_opens_each_close_once() {
    let mut streams = vec![scripted(MediaType::Subtitle, "ass"), scripted(MediaType::Video, "av1")];
    streams[1].decoder_code = -11;
    for _ in 0..50 {
        let (result, trace) = run_open(0, 0, &streams);
        assert_eq!(result.unwrap_err().kind, native_error(-11));
        assert_eq!(closes(&trace), 1);
    }
}

#[test]
fn a_container_that_does_not_open_is_never_closed() {
    let (result, trace) = run_open(-2, 0, &[scripted(MediaType::Video, "h264")]);
    assert_eq!(result.unwrap_err().kind, native_error(-2));
    assert_eq!(trace, vec![OpenAction::OpenContainer]);
}

#[test]
fn a_failed_probe_is_the_error_reported() {
    let (result, trace) = run_open(0, -5, &[scripted(MediaType::Video, "h264")]);
    assert_eq!(result.unwrap_err().kind, native_error(-5));
    assert_eq!(
        trace,
        vec![OpenAction::OpenContainer, OpenAction::FindStreamInfo, OpenAction::CloseInput]
    );
}

struct ScriptedMuxer {
    allocated: Vec<bool>,
    remux_code: i32,
    encoder_found: bool,
    encoder_code: i32,
    io_code: i32,
    header_code: i32,
    trailer_code: i32,
    close_code: i32,
}

fn good_muxer(streams: usize) -> ScriptedMuxer {
    ScriptedMuxer {
        allocated: vec![true; streams],
        remux_code: 0,
        encoder_found: true,
        encoder_code: 0,
        io_code: 0,
        header_code: 0,
        trailer_code: 0,
        close_code: 0,
    }
}

fn run_process(output: Output, native: &ScriptedMuxer) -> (Result<(), Error>, Vec<ProcessAction>) {
    let bound = 3 * output.streams.len() + 4;
    let mut trace = Vec::new();
    let mut session = output.process();
    loop {
        let action = session.pending();
        trace.push(action);
        assert!(trace.len() <= bound);
        let reply = match action {
            ProcessAction::NewStream(i) => Reply::Found(native.allocated[i]),
            ProcessAction::Remux(_) => Reply::Status(status(native.remux_code)),
            ProcessAction::FindEncoder(_) => {
                Reply::EncoderLookup { found: native.encoder_found, first_pixel_format: None }
            }
            ProcessAction::OpenEncoder(_, _) => Reply::Status(status(native.encoder_code)),
            ProcessAction::OpenIo => Reply::Status(status(native.io_code)),
            ProcessAction::WriteHeader => Reply::Status(status(native.header_code)),
            ProcessAction::WriteTrailer => Reply::Status(status(native.trailer_code)),
            ProcessAction::CloseIo => Reply::Status(status(native.close_code)),
        };
        match session.step(reply) {
            ProcessProgress::Do(next) => session = next,
            ProcessProgress::Done => return (Ok(()), trace),
            ProcessProgress::Failed(e) => return (Err(e), trace),
        }
    }
}

fn selected(kinds: &[StreamKind], flags: i32) -> Output {
    let mut output = Output::new("out.mkv".to_string(), flags);
    for (i, kind) in kinds.iter().enumerate() {
        let decoder = if kind.is_decoded() { Some(params()) } else { None };
        output.add_stream(Stream { index: i, kind: *kind, codec_name: format!("codec{}", i), decoder });
    }
    output
}

fn touches_destination(action: &ProcessAction) -> bool {
    matches!(
        action,
        ProcessAction::OpenIo
            | ProcessAction::WriteHeader
            | ProcessAction::WriteTrailer
            | ProcessAction::CloseIo
    )
}

fn count(trace: &[ProcessAction], action: ProcessAction) -> usize {
    trace.iter().filter(|a| **a == action).count()
}

#[test]
fn subtitles_only_are_written_without_any_encoder() {
    let output = selected(&[StreamKind::Subtitle, StreamKind::Subtitle, StreamKind::Subtitle], 0);
    let (result, trace) = run_process(output, &good_muxer(3));
    assert!(result.is_ok());
    assert_eq!(
        trace,
        vec![
            ProcessAction::NewStream(0),
            ProcessAction::Remux(0),
            ProcessAction::NewStream(1),
            ProcessAction::Remux(1),
            ProcessAction::NewStream(2),
            ProcessAction::Remux(2),
            ProcessAction::OpenIo,
            ProcessAction::WriteHeader,
            ProcessAction::WriteTrailer,
            ProcessAction::CloseIo,
        ]
    );
}

#[test]
fn an_unknown_stream_anywhere_leaves_the_destination_untouched() {
    for position in 0..3 {
        let mut kinds = vec![StreamKind::Subtitle, StreamKind::Video, StreamKind::Audio];
        kinds[position] = StreamKind::Unknown;
        let (result, trace) = run_process(selected(&kinds, 0), &good_muxer(3));
        assert_eq!(
            result.unwrap_err().kind,
            ErrorKind::FFmpegError("unknown stream, cannot proceed".to_string())
        );
        assert!(!trace.iter().any(touches_destination));
        assert_eq!(trace.last(), Some(&ProcessAction::NewStream(position)));
    }
}

#[test]
fn the_first_failing_stream_decides_the_error() {
    let kinds = [StreamKind::Subtitle, StreamKind::Audio];
    let mut native = good_muxer(2);
    native.encoder_found = false;
    native.header_code = -1;
    let (result, trace) = run_process(selected(&kinds, 0), &native);
    assert_eq!(result.unwrap_err().kind, ErrorKind::NoDecoderFound("codec1".to_string()));
    assert!(!trace.iter().any(touches_destination));

    native.remux_code = -9;
    let (result, _) = run_process(selected(&kinds, 0), &native);
    assert_eq!(result.unwrap_err().kind, native_error(-9));

    native.allocated[0] = false;
    let (result, trace) = run_process(selected(&kinds, 0), &native);
    assert_eq!(
        result.unwrap_err().kind,
        ErrorKind::FFmpegError("failed to allocate output stream".to_string())
    );
    assert_eq!(trace, vec![ProcessAction::NewStream(0)]);
}

#[test]
fn the_destination_is_closed_once_whether_writing_fails_or_not() {
    for (header_code, trailer_code) in [(0, 0), (-3, 0), (0, -4)] {
        let mut native = good_muxer(1);
        native.header_code = header_code;
        native.trailer_code = trailer_code;
        let (result, trace) = run_process(selected(&[StreamKind::Video], 0), &native);
        assert_eq!(count(&trace, ProcessAction::OpenIo), 1);
        assert_eq!(count(&trace, ProcessAction::CloseIo), 1);
        assert_eq!(count(&trace, ProcessAction::WriteHeader), 1);
        assert_eq!(count(&trace, ProcessAction::WriteTrailer), if header_code < 0 { 0 } else { 1 });
        match (header_code, trailer_code) {
            (0, 0) => assert!(result.is_ok()),
            (0, code) => assert_eq!(result.unwrap_err().kind, native_error(code)),
            (code, _) => assert_eq!(result.unwrap_err().kind, native_error(code)),
        }
    }
}

#[test]
fn a_format_that_does_its_own_io_is_neither_opened_nor_closed() {
    let output = selected(&[StreamKind::Subtitle], AVFMT_NOFILE);
    let (result, trace) = run_process(output, &good_muxer(1));
    assert!(result.is_ok());
    assert_eq!(
        trace,
        vec![
            ProcessAction::NewStream(0),
            ProcessAction::Remux(0),
            ProcessAction::WriteHeader,
            ProcessAction::WriteTrailer,
        ]
    );
}

#[test]
fn a_destination_that_does_not_open_is_not_closed() {
    let mut native = good_muxer(0);
    native.io_code = -13;
    let (result, trace) = run_process(selected(&[], 0), &native);
    assert_eq!(result.unwrap_err().kind, native_error(-13));
    assert_eq!(trace, vec![ProcessAction::OpenIo]);
}
