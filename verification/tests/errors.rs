use mmconv::error::{c_string_bytes, ff, ffcustom, no_decoder_found, ErrorKind, NativeStatus};

fn buffer(text: &[u8]) -> Vec<u8> {
    let mut buf = vec![0u8; 255];
    buf[..text.len()].copy_from_slice(text);
    buf
}

#[test]
fn ff_carries_the_native_description() {
    let status = NativeStatus { code: -2, text_status: 0, text: buffer(b"No such file or directory") };
    let e = ff(&status);
    assert_eq!(e.kind, ErrorKind::FFmpegError("No such file or directory".to_string()));
    assert_eq!(e.message(), "ffmpeg library error: No such file or directory");
}

#[test]
fn ff_falls_back_when_the_code_has_no_description() {
    let status = NativeStatus { code: -12345, text_status: -1, text: buffer(b"Error number -12345 occurred") };
    let e = ff(&status);
    assert_eq!(e.kind, ErrorKind::FFmpegError("unknown ffmpeg error".to_string()));
}

#[test]
fn ff_falls_back_when_the_description_is_not_text() {
    let status = NativeStatus { code: -5, text_status: 0, text: buffer(&[0x66, 0xff, 0xfe, 0x67]) };
    let e = ff(&status);
    assert_eq!(
        e.kind,
        ErrorKind::FFmpegError("unknown ffmpeg error (invalid error message)".to_string())
    );
}

#[test]
fn ff_decodes_text_beyond_ascii() {
    let status = NativeStatus { code: -1, text_status: 0, text: buffer("Gerät nicht bereit".as_bytes()) };
    let e = ff(&status);
    assert_eq!(e.kind, ErrorKind::FFmpegError("Gerät nicht bereit".to_string()));
}

#[test]
fn ff_stops_at_the_first_nul() {
    let status = NativeStatus { code: -1, text_status: 0, text: vec![b'a', b'b', 0, b'c', 0] };
    assert_eq!(ff(&status).kind, ErrorKind::FFmpegError("ab".to_string()));
}

#[test]
fn ff_of_an_empty_description_is_empty() {
    let status = NativeStatus { code: -1, text_status: 0, text: vec![0u8; 255] };
    assert_eq!(ff(&status).kind, ErrorKind::FFmpegError(String::new()));
}

#[test]
fn c_string_bytes_takes_the_whole_buffer_without_nul() {
    assert_eq!(c_string_bytes(&vec![1, 2, 3]), vec![1, 2, 3]);
    assert_eq!(c_string_bytes(&vec![1, 0, 3]), vec![1]);
    assert_eq!(c_string_bytes(&vec![0, 2, 3]), Vec::<u8>::new());
    assert_eq!(c_string_bytes(&Vec::new()), Vec::<u8>::new());
}

#[test]
fn ffcustom_keeps_the_message() {
    let e = ffcustom("failed to allocate output stream".to_string());
    assert_eq!(e.kind, ErrorKind::FFmpegError("failed to allocate output stream".to_string()));
    assert_eq!(e.message(), "ffmpeg library error: failed to allocate output stream");
    assert_eq!(e.description(), "error in one of the ffmpeg libraries");
    assert_eq!(e.kind(), &ErrorKind::FFmpegError("failed to allocate output stream".to_string()));
}

#[test]
fn no_decoder_found_names_the_codec() {
    let e = no_decoder_found("h264".to_string());
    assert_eq!(e.kind, ErrorKind::NoDecoderFound("h264".to_string()));
    assert_eq!(e.message(), "no decoder found for codec `h264`");
    assert_eq!(e.description(), "no decoder found on the system");
}
