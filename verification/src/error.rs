//! Errors, and the translation of native status codes into them.

use vstd::prelude::*;
use vstd::string::*;
use vstd::utf8::*;

verus! {

/// What went wrong.
#[derive(Debug, PartialEq, Eq)]
pub enum ErrorKind {
    /// A native call failed; the text is the framework's diagnostic.
    FFmpegError(String),
    /// No decoder or encoder is available for the codec of this name.
    NoDecoderFound(String),
}

/// The mathematical value of an [`ErrorKind`].
pub enum ErrorView {
    FFmpegError(Seq<char>),
    NoDecoderFound(Seq<char>),
}

impl View for ErrorKind {
    type V = ErrorView;

    open spec fn view(&self) -> ErrorView {
        match *self {
            ErrorKind::FFmpegError(msg) => ErrorView::FFmpegError(msg@),
            ErrorKind::NoDecoderFound(codec) => ErrorView::NoDecoderFound(codec@),
        }
    }
}

/// An error of this library.
#[derive(Debug, PartialEq, Eq)]
pub struct Error {
    pub kind: ErrorKind,
}

impl View for Error {
    type V = ErrorView;

    open spec fn view(&self) -> ErrorView {
        self.kind@
    }
}

/// The outcome of a native call that reports a status code, together with the
/// framework's own description of that code.
#[derive(Debug)]
pub struct NativeStatus {
    /// The code that the call returned; negative on failure.
    pub code: i32,
    /// The code that the framework's error-string facility returned when asked
    /// to describe `code`; negative when it could not.
    pub text_status: i32,
    /// The buffer that the error-string facility filled: a NUL-terminated text.
    pub text: Vec<u8>,
}

/// The mathematical value of a [`NativeStatus`]: the code, and the error that
/// the status stands for where the code reports a failure.
pub struct StatusView {
    pub code: i32,
    pub error: ErrorView,
}

impl View for NativeStatus {
    type V = StatusView;

    open spec fn view(&self) -> StatusView {
        StatusView {
            code: self.code,
            error: ErrorView::FFmpegError(native_message(self.text_status as int, self.text@)),
        }
    }
}

/// Fallback text when the framework cannot describe a code.
pub open spec fn unknown_error_text() -> Seq<char> {
    "unknown ffmpeg error"@
}

/// Fallback text when the framework's description is not valid text.
pub open spec fn invalid_error_text() -> Seq<char> {
    "unknown ffmpeg error (invalid error message)"@
}

/// The position of the first NUL byte of `buf` at or after `from`, or the
/// length of `buf` where there is none.
pub open spec fn nul_position(buf: Seq<u8>, from: int) -> int
    decreases buf.len() - from,
{
    if from < 0 || from >= buf.len() || buf[from] == 0 {
        from
    } else {
        nul_position(buf, from + 1)
    }
}

/// The bytes of the C string that `buf` holds: all that precedes its first NUL.
pub open spec fn c_text(buf: Seq<u8>) -> Seq<u8> {
    buf.take(nul_position(buf, 0))
}

/// The diagnostic that a native status stands for.
pub open spec fn native_message(text_status: int, buf: Seq<u8>) -> Seq<char> {
    if text_status < 0 {
        unknown_error_text()
    } else if valid_utf8(c_text(buf)) {
        decode_utf8(c_text(buf))
    } else {
        invalid_error_text()
    }
}

/// `nul_position` finds the first NUL: it lies within the buffer, no byte
/// before it is NUL, and it is either the end of the buffer or a NUL byte.
pub proof fn lemma_nul_position(buf: Seq<u8>, from: int)
    requires
        0 <= from <= buf.len(),
    ensures
        from <= nul_position(buf, from) <= buf.len(),
        forall|i: int| from <= i < nul_position(buf, from) ==> buf[i] != 0,
        nul_position(buf, from) < buf.len() ==> buf[nul_position(buf, from)] == 0,
    decreases buf.len() - from,
{
    if from < buf.len() && buf[from] != 0 {
        lemma_nul_position(buf, from + 1);
    }
}

/// Decodes bytes as UTF-8 with `String::from_utf8`. The standard library
/// documents that it succeeds exactly on valid UTF-8 and that the string then
/// holds the text those bytes encode.
#[verifier::external_body]
fn decode_text(bytes: Vec<u8>) -> (r: Option<String>)
    ensures
        r.is_some() == valid_utf8(bytes@),
        r matches Some(s) ==> s@ == decode_utf8(bytes@),
{
    match String::from_utf8(bytes) {
        Ok(text) => Some(text),
        Err(_) => None,
    }
}

/// Copies out the C string at the start of `buf`.
pub fn c_string_bytes(buf: &Vec<u8>) -> (r: Vec<u8>)
    ensures
        r@ == c_text(buf@),
{
    let mut out: Vec<u8> = Vec::new();
    let mut i: usize = 0;
    while i < buf.len() && buf[i] != 0
        invariant
            i <= buf.len(),
            out@ == buf@.take(i as int),
            nul_position(buf@, 0) == nul_position(buf@, i as int),
        decreases buf.len() - i,
    {
        out.push(buf[i]);
        i += 1;
        assert(out@ =~= buf@.take(i as int));
    }
    out
}

/// Converts the outcome of a failed native call into an error carrying the
/// framework's diagnostic, or a generic text where none can be had.
pub fn ff(status: &NativeStatus) -> (e: Error)
    ensures
        e@ == status@.error,
{
    if status.text_status < 0 {
        return Error { kind: ErrorKind::FFmpegError(String::from_str("unknown ffmpeg error")) };
    }
    let msg = match decode_text(c_string_bytes(&status.text)) {
        Some(msg) => msg,
        None => String::from_str("unknown ffmpeg error (invalid error message)"),
    };
    Error { kind: ErrorKind::FFmpegError(msg) }
}

/// Builds an error with a message of the caller's own.
pub fn ffcustom(msg: String) -> (e: Error)
    ensures
        e@ == ErrorView::FFmpegError(msg@),
{
    Error { kind: ErrorKind::FFmpegError(msg) }
}

/// Builds the error that reports a codec without a decoder or encoder.
pub fn no_decoder_found(codec: String) -> (e: Error)
    ensures
        e@ == ErrorView::NoDecoderFound(codec@),
{
    Error { kind: ErrorKind::NoDecoderFound(codec) }
}

/// The text that an error displays.
pub open spec fn display_text(e: ErrorView) -> Seq<char> {
    match e {
        ErrorView::FFmpegError(msg) => "ffmpeg library error: "@ + msg,
        ErrorView::NoDecoderFound(codec) => "no decoder found for codec `"@ + codec + "`"@,
    }
}

impl Error {
    /// The kind of this error.
    pub fn kind(&self) -> (k: &ErrorKind)
        ensures
            k@ == self@,
    {
        &self.kind
    }

    /// A short description of the error's kind.
    pub fn description(&self) -> (d: &'static str)
        ensures
            d@ == (match self@ {
                ErrorView::FFmpegError(_) => "error in one of the ffmpeg libraries"@,
                ErrorView::NoDecoderFound(_) => "no decoder found on the system"@,
            }),
    {
        match &self.kind {
            ErrorKind::FFmpegError(_) => "error in one of the ffmpeg libraries",
            ErrorKind::NoDecoderFound(_) => "no decoder found on the system",
        }
    }

    /// The error as displayed text.
    pub fn message(&self) -> (m: String)
        ensures
            m@ == display_text(self@),
    {
        match &self.kind {
            ErrorKind::FFmpegError(msg) => {
                let mut m = String::from_str("ffmpeg library error: ");
                m.append(msg.as_str());
                m
            },
            ErrorKind::NoDecoderFound(codec) => {
                let mut m = String::from_str("no decoder found for codec `");
                m.append(codec.as_str());
                m.append("`");
                m
            },
        }
    }
}

} // verus!
