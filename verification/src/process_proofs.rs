//! What holds of writing an output, over whole sessions.
//!
//! The native framework is described by the answers that it gives while one
//! output is written. A session driven by those answers ends as that
//! description says; it touches the destination only when every stream is set
//! up, and closes it exactly once where it opened it.

use vstd::prelude::*;
use crate::error::{ErrorView, StatusView};
use crate::native::ReplyView;
use crate::stream::StreamKind;
use crate::transcode::{
    allocation_failed_text, needs_io, unknown_stream_text, OutputView, ProcessAction,
    ProcessProgressView, ProcessingView,
};

verus! {

/// A stream of unknown kind aborts the operation as soon as its output stream
/// is allocated.
pub proof fn lemma_unknown_stream_aborts(p: ProcessingView, i: usize)
    requires
        p.wf(),
        p.pending == ProcessAction::NewStream(i),
        p.output.streams[i as int].kind == StreamKind::Unknown,
    ensures
        p.next(ReplyView::Found(true)) == ProcessProgressView::Failed(
            ErrorView::FFmpegError(unknown_stream_text()),
        ),
{
}

/// While a stream of unknown kind is selected, no session opens, writes or
/// closes the destination, and none ends well.
pub proof fn lemma_unknown_stream_blocks_writing(p: ProcessingView, reply: ReplyView, k: int)
    requires
        p.wf(),
        0 <= k < p.output.streams.len(),
        p.output.streams[k].kind == StreamKind::Unknown,
    ensures
        !p.pending.touches_destination(),
        !(p.next(reply) is Done),
{
}

/// Where only subtitle streams are selected, no session looks up or opens an
/// encoder: each stream is remuxed.
pub proof fn lemma_subtitles_are_remuxed(p: ProcessingView, reply: ReplyView)
    requires
        p.wf(),
        forall|j: int|
            0 <= j < p.output.streams.len() ==> (#[trigger] p.output.streams[j]).kind
                == StreamKind::Subtitle,
    ensures
        !p.pending.encodes(),
        p.next(reply) matches ProcessProgressView::Do(q) ==> !q.pending.encodes(),
        p.pending is NewStream && reply == ReplyView::Found(true) ==> p.next(reply) is Do
            && p.next(reply)->Do_0.pending == ProcessAction::Remux(p.pending->NewStream_0),
{
}

/// A session ends well only once the trailer is written and the destination,
/// where one was opened, is closed.
pub proof fn lemma_done_after_trailer(p: ProcessingView, reply: ReplyView)
    requires
        p.wf(),
        p.next(reply) is Done,
    ensures
        reply matches ReplyView::Status(status) && status.code >= 0,
        p.failure is None,
        if needs_io(p.output.format_flags) {
            p.pending == ProcessAction::CloseIo
        } else {
            p.pending == ProcessAction::WriteTrailer
        },
{
}

/// A failure while the destination is open closes it before the error is
/// reported, and the error reported is the one that caused the abort.
pub proof fn lemma_abort_closes_destination(p: ProcessingView, status: StatusView, closed: StatusView)
    requires
        p.wf(),
        p.pending == ProcessAction::WriteHeader || p.pending == ProcessAction::WriteTrailer,
        needs_io(p.output.format_flags),
        status.code < 0,
    ensures
        ({
            let aborted = p.next(ReplyView::Status(status));
            &&& aborted is Do
            &&& aborted->Do_0.pending == ProcessAction::CloseIo
            &&& aborted->Do_0.next(ReplyView::Status(closed)) == ProcessProgressView::Failed(
                status.error,
            )
        }),
{
}

/// How the native framework answers for one selected stream while an output
/// is written.
pub struct NativeOutputStream {
    /// Whether the output stream is allocated.
    pub allocated: bool,
    /// The status of copying the codec parameters.
    pub remuxed: StatusView,
    /// Whether an encoder is available for the stream's codec.
    pub encoder_found: bool,
    /// The first pixel format that this encoder lists, if any.
    pub first_pixel_format: Option<i32>,
    /// The status with which that encoder opens.
    pub encoder_status: StatusView,
}

/// How the native framework answers while one output is written.
pub struct NativeMuxer {
    /// One entry for each selected stream.
    pub streams: Seq<NativeOutputStream>,
    pub io_opened: StatusView,
    pub header: StatusView,
    pub trailer: StatusView,
    pub io_closed: StatusView,
}

/// A class of native calls.
pub enum CallClass {
    /// Opening, writing or closing the destination.
    Destination,
    /// Looking up or opening an encoder.
    Encoder,
    /// Writing the header.
    Header,
    /// Writing the trailer.
    Trailer,
    /// Closing the destination.
    Close,
}

impl ProcessAction {
    /// Whether the call belongs to the class.
    pub open spec fn is_of(self, class: CallClass) -> bool {
        match class {
            CallClass::Destination => self.touches_destination(),
            CallClass::Encoder => self.encodes(),
            CallClass::Header => self == ProcessAction::WriteHeader,
            CallClass::Trailer => self == ProcessAction::WriteTrailer,
            CallClass::Close => self == ProcessAction::CloseIo,
        }
    }
}

impl NativeMuxer {
    /// The framework's answer to a call.
    pub open spec fn reply(self, action: ProcessAction) -> ReplyView {
        match action {
            ProcessAction::NewStream(i) => ReplyView::Found(self.streams[i as int].allocated),
            ProcessAction::Remux(i) => ReplyView::Status(self.streams[i as int].remuxed),
            ProcessAction::FindEncoder(i) => ReplyView::EncoderLookup {
                found: self.streams[i as int].encoder_found,
                first_pixel_format: self.streams[i as int].first_pixel_format,
            },
            ProcessAction::OpenEncoder(i, _) => ReplyView::Status(
                self.streams[i as int].encoder_status,
            ),
            ProcessAction::OpenIo => ReplyView::Status(self.io_opened),
            ProcessAction::WriteHeader => ReplyView::Status(self.header),
            ProcessAction::WriteTrailer => ReplyView::Status(self.trailer),
            ProcessAction::CloseIo => ReplyView::Status(self.io_closed),
        }
    }

    /// The error that setting up the selected stream at index `i` meets, if
    /// any: its output stream must be allocated; a subtitle stream must be
    /// remuxed; a video or audio stream needs an encoder that is found and
    /// opens; a stream of unknown kind is an error.
    pub open spec fn stream_error(self, output: OutputView, i: int) -> Option<ErrorView> {
        let native = self.streams[i];
        let stream = output.streams[i];
        if !native.allocated {
            Some(ErrorView::FFmpegError(allocation_failed_text()))
        } else {
            match stream.kind {
                StreamKind::Unknown => Some(ErrorView::FFmpegError(unknown_stream_text())),
                StreamKind::Subtitle => if native.remuxed.code < 0 {
                    Some(native.remuxed.error)
                } else {
                    None
                },
                _ => if !native.encoder_found {
                    Some(ErrorView::NoDecoderFound(stream.codec_name))
                } else if native.encoder_status.code < 0 {
                    Some(native.encoder_status.error)
                } else {
                    None
                },
            }
        }
    }

    /// The error of the first selected stream at or after index `from` that
    /// has one.
    pub open spec fn first_stream_error(self, output: OutputView, from: int) -> Option<ErrorView>
        decreases output.streams.len() - from,
    {
        if from < 0 || from >= output.streams.len() {
            None
        } else if self.stream_error(output, from) is Some {
            self.stream_error(output, from)
        } else {
            self.first_stream_error(output, from + 1)
        }
    }

    /// The error that writing the container meets, if any: the first failure
    /// in the order open, header, trailer, close, where the destination is
    /// opened and closed only for a format that needs it.
    pub open spec fn write_error(self, output: OutputView) -> Option<ErrorView> {
        if needs_io(output.format_flags) && self.io_opened.code < 0 {
            Some(self.io_opened.error)
        } else if self.header.code < 0 {
            Some(self.header.error)
        } else if self.trailer.code < 0 {
            Some(self.trailer.error)
        } else if needs_io(output.format_flags) && self.io_closed.code < 0 {
            Some(self.io_closed.error)
        } else {
            None
        }
    }

    /// What writing the output comes to: the first error of a stream, else
    /// the first error of writing, else success.
    pub open spec fn outcome(self, output: OutputView) -> ProcessProgressView {
        if self.first_stream_error(output, 0) is Some {
            ProcessProgressView::Failed(self.first_stream_error(output, 0)->Some_0)
        } else if self.write_error(output) is Some {
            ProcessProgressView::Failed(self.write_error(output)->Some_0)
        } else {
            ProcessProgressView::Done
        }
    }

    /// The number of calls that a session in state `p` makes at most.
    spec fn calls_left(self, p: ProcessingView) -> int {
        let n = p.output.streams.len() as int;
        match p.pending {
            ProcessAction::NewStream(i) => 3 * (n - i) + 4,
            ProcessAction::Remux(i) => 3 * (n - i) + 3,
            ProcessAction::FindEncoder(i) => 3 * (n - i) + 3,
            ProcessAction::OpenEncoder(i, _) => 3 * (n - i) + 2,
            ProcessAction::OpenIo => 4,
            ProcessAction::WriteHeader => 3,
            ProcessAction::WriteTrailer => 2,
            ProcessAction::CloseIo => 1,
        }
    }

    /// Whether `p` is a state that the session for `output` passes through
    /// when the framework answers as `self` says.
    spec fn tracks(self, p: ProcessingView, output: OutputView) -> bool {
        let io = needs_io(output.format_flags);
        &&& p.output == output
        &&& p.wf()
        &&& self.first_stream_error(output, 0) == self.first_stream_error(output, p.configured())
        &&& match p.pending {
            ProcessAction::NewStream(i) => true,
            ProcessAction::Remux(i) => self.streams[i as int].allocated,
            ProcessAction::FindEncoder(i) => self.streams[i as int].allocated,
            ProcessAction::OpenEncoder(i, _) => self.streams[i as int].allocated
                && self.streams[i as int].encoder_found,
            ProcessAction::OpenIo => io,
            ProcessAction::WriteHeader => io ==> self.io_opened.code >= 0,
            ProcessAction::WriteTrailer => (io ==> self.io_opened.code >= 0) && self.header.code
                >= 0,
            ProcessAction::CloseIo => self.io_opened.code >= 0 && match p.failure {
                Some(e) => self.outcome(output) == ProcessProgressView::Failed(e),
                None => self.header.code >= 0 && self.trailer.code >= 0,
            },
        }
    }

    /// How many calls of a class a session makes from state `p` on, where it
    /// ends as `self.outcome` says.
    spec fn calls_due(self, p: ProcessingView, class: CallClass) -> nat {
        let io = needs_io(p.output.format_flags);
        let streams_fail = self.first_stream_error(p.output, 0) is Some;
        match class {
            CallClass::Header => if streams_fail || p.pending == ProcessAction::WriteTrailer
                || p.pending == ProcessAction::CloseIo || (io && self.io_opened.code < 0) {
                0
            } else {
                1
            },
            CallClass::Trailer => if streams_fail || p.pending == ProcessAction::CloseIo || (io
                && self.io_opened.code < 0) || self.header.code < 0 {
                0
            } else {
                1
            },
            CallClass::Close => if streams_fail || !io || self.io_opened.code < 0 {
                0
            } else {
                1
            },
            _ => 0,
        }
    }
}

impl ProcessingView {
    /// Where the session stands after at most `calls` calls, each answered as
    /// `native` says.
    pub open spec fn drive(self, native: NativeMuxer, calls: nat) -> ProcessProgressView
        decreases calls,
    {
        if calls == 0 {
            ProcessProgressView::Do(self)
        } else {
            match self.next(native.reply(self.pending)) {
                ProcessProgressView::Do(after) => after.drive(native, (calls - 1) as nat),
                end => end,
            }
        }
    }

    /// How many calls of a class the session makes in at most `calls` calls,
    /// each answered as `native` says.
    pub open spec fn calls_of(self, native: NativeMuxer, calls: nat, class: CallClass) -> nat
        decreases calls,
    {
        if calls == 0 {
            0
        } else {
            let now: nat = if self.pending.is_of(class) {
                1
            } else {
                0
            };
            match self.next(native.reply(self.pending)) {
                ProcessProgressView::Do(after) => now + after.calls_of(
                    native,
                    (calls - 1) as nat,
                    class,
                ),
                _ => now,
            }
        }
    }
}

proof fn lemma_drive_from(native: NativeMuxer, p: ProcessingView, calls: nat)
    requires
        native.tracks(p, p.output),
        native.streams.len() == p.output.streams.len(),
        p.output.streams.len() <= usize::MAX,
        calls >= native.calls_left(p),
    ensures
        p.drive(native, calls) == native.outcome(p.output),
        native.first_stream_error(p.output, 0) is Some ==> p.calls_of(
            native,
            calls,
            CallClass::Destination,
        ) == 0,
        p.calls_of(native, calls, CallClass::Header) == native.calls_due(p, CallClass::Header),
        p.calls_of(native, calls, CallClass::Trailer) == native.calls_due(p, CallClass::Trailer),
        p.calls_of(native, calls, CallClass::Close) == native.calls_due(p, CallClass::Close),
        (forall|j: int|
            0 <= j < p.output.streams.len() ==> (#[trigger] p.output.streams[j]).kind
                == StreamKind::Subtitle) ==> p.calls_of(native, calls, CallClass::Encoder) == 0,
    decreases calls,
{
    let output = p.output;
    let n = output.streams.len() as int;
    let k = p.configured();
    let after = p.next(native.reply(p.pending));
    assert(native.first_stream_error(output, n) is None);
    if k < n {
        assert(native.first_stream_error(output, k) == if native.stream_error(output, k) is Some {
            native.stream_error(output, k)
        } else {
            native.first_stream_error(output, k + 1)
        });
    }
    match after {
        ProcessProgressView::Do(q) => {
            assert(native.tracks(q, output));
            assert(native.calls_left(q) < native.calls_left(p));
            lemma_drive_from(native, q, (calls - 1) as nat);
        },
        _ => {},
    }
}

/// Writing an output comes to what the native framework's answers decide:
/// the session ends, after at most three calls for each selected stream and
/// four more, with the error of the first call that fails, or with success
/// when every stream is set up and the container written.
pub proof fn lemma_process_outcome(native: NativeMuxer, output: OutputView, calls: nat)
    requires
        output.wf(),
        native.streams.len() == output.streams.len(),
        output.streams.len() <= usize::MAX,
        calls >= 3 * output.streams.len() + 4,
    ensures
        ProcessingView::start(output).drive(native, calls) == native.outcome(output),
{
    lemma_drive_from(native, ProcessingView::start(output), calls);
}

/// Where setting up a stream fails, the destination is neither opened nor
/// written: the operation aborts before the writing phase.
pub proof fn lemma_stream_failure_writes_nothing(
    native: NativeMuxer,
    output: OutputView,
    calls: nat,
)
    requires
        output.wf(),
        native.streams.len() == output.streams.len(),
        output.streams.len() <= usize::MAX,
        calls >= 3 * output.streams.len() + 4,
        native.first_stream_error(output, 0) is Some,
    ensures
        ProcessingView::start(output).calls_of(native, calls, CallClass::Destination) == 0,
{
    lemma_drive_from(native, ProcessingView::start(output), calls);
}

/// The first error from `from` on is that of stream `k` where no stream
/// between has one.
pub proof fn lemma_first_stream_error(native: NativeMuxer, output: OutputView, from: int, k: int)
    requires
        0 <= from <= k < output.streams.len(),
        forall|j: int| from <= j < k ==> native.stream_error(output, j) is None,
        native.stream_error(output, k) is Some,
    ensures
        native.first_stream_error(output, from) == native.stream_error(output, k),
    decreases k - from,
{
    if from < k {
        lemma_first_stream_error(native, output, from + 1, k);
    }
}

/// A selected stream of unknown kind, where the streams before it were set up
/// and its own output stream was allocated, aborts the whole operation with
/// the error for an unknown stream, and nothing is written.
pub proof fn lemma_unknown_stream_aborts_everything(
    native: NativeMuxer,
    output: OutputView,
    calls: nat,
    k: int,
)
    requires
        output.wf(),
        native.streams.len() == output.streams.len(),
        output.streams.len() <= usize::MAX,
        calls >= 3 * output.streams.len() + 4,
        0 <= k < output.streams.len(),
        forall|j: int| 0 <= j < k ==> native.stream_error(output, j) is None,
        output.streams[k].kind == StreamKind::Unknown,
        native.streams[k].allocated,
    ensures
        ProcessingView::start(output).drive(native, calls) == ProcessProgressView::Failed(
            ErrorView::FFmpegError(unknown_stream_text()),
        ),
        ProcessingView::start(output).calls_of(native, calls, CallClass::Destination) == 0,
{
    lemma_first_stream_error(native, output, 0, k);
    lemma_drive_from(native, ProcessingView::start(output), calls);
}

/// An output with a selected stream of unknown kind is never written,
/// whatever the framework answers: the operation fails, and the destination
/// is neither opened nor written.
pub proof fn lemma_unknown_stream_is_never_written(
    native: NativeMuxer,
    output: OutputView,
    calls: nat,
    k: int,
)
    requires
        output.wf(),
        native.streams.len() == output.streams.len(),
        output.streams.len() <= usize::MAX,
        calls >= 3 * output.streams.len() + 4,
        0 <= k < output.streams.len(),
        output.streams[k].kind == StreamKind::Unknown,
    ensures
        ProcessingView::start(output).drive(native, calls) is Failed,
        ProcessingView::start(output).calls_of(native, calls, CallClass::Destination) == 0,
{
    lemma_some_stream_error(native, output, 0, k);
    lemma_drive_from(native, ProcessingView::start(output), calls);
}

/// Where a selected stream at or after `from` has an error, there is a first
/// one.
pub proof fn lemma_some_stream_error(native: NativeMuxer, output: OutputView, from: int, k: int)
    requires
        0 <= from <= k < output.streams.len(),
        native.stream_error(output, k) is Some,
    ensures
        native.first_stream_error(output, from) is Some,
    decreases k - from,
{
    if from < k && native.stream_error(output, from) is None {
        lemma_some_stream_error(native, output, from + 1, k);
    }
}

/// Where no stream fails, the session writes the header once, then the
/// trailer once if the header was written, and it closes the destination
/// exactly once where it opened it, whether or not writing failed.
pub proof fn lemma_writes_once_and_closes(native: NativeMuxer, output: OutputView, calls: nat)
    requires
        output.wf(),
        native.streams.len() == output.streams.len(),
        output.streams.len() <= usize::MAX,
        calls >= 3 * output.streams.len() + 4,
        native.first_stream_error(output, 0) is None,
    ensures
        ({
            let start = ProcessingView::start(output);
            let opened = !needs_io(output.format_flags) || native.io_opened.code >= 0;
            &&& start.calls_of(native, calls, CallClass::Header) == if opened {
                1nat
            } else {
                0nat
            }
            &&& start.calls_of(native, calls, CallClass::Trailer) == if opened && native.header.code
                >= 0 {
                1nat
            } else {
                0nat
            }
            &&& start.calls_of(native, calls, CallClass::Close) == if needs_io(
                output.format_flags,
            ) && native.io_opened.code >= 0 {
                1nat
            } else {
                0nat
            }
        }),
{
    lemma_drive_from(native, ProcessingView::start(output), calls);
}

/// An output of subtitle streams only is remuxed: where every native call
/// succeeds the operation succeeds, and no encoder is looked up or opened.
pub proof fn lemma_subtitles_only(native: NativeMuxer, output: OutputView, calls: nat)
    requires
        output.wf(),
        native.streams.len() == output.streams.len(),
        output.streams.len() <= usize::MAX,
        calls >= 3 * output.streams.len() + 4,
        forall|j: int|
            0 <= j < output.streams.len() ==> (#[trigger] output.streams[j]).kind
                == StreamKind::Subtitle,
    ensures
        ProcessingView::start(output).calls_of(native, calls, CallClass::Encoder) == 0,
        (forall|j: int|
            0 <= j < native.streams.len() ==> (#[trigger] native.streams[j]).allocated
                && native.streams[j].remuxed.code >= 0) && native.write_error(output) is None
            ==> ProcessingView::start(output).drive(native, calls) == ProcessProgressView::Done,
{
    lemma_drive_from(native, ProcessingView::start(output), calls);
    if (forall|j: int|
        0 <= j < native.streams.len() ==> (#[trigger] native.streams[j]).allocated
            && native.streams[j].remuxed.code >= 0) {
        lemma_no_stream_error(native, output, 0);
    }
}

proof fn lemma_no_stream_error(native: NativeMuxer, output: OutputView, from: int)
    requires
        native.streams.len() == output.streams.len(),
        forall|j: int| 0 <= j < output.streams.len() ==> native.stream_error(output, j) is None,
    ensures
        native.first_stream_error(output, from) is None,
    decreases output.streams.len() - from,
{
    if 0 <= from < output.streams.len() {
        lemma_no_stream_error(native, output, from + 1);
    }
}

} // verus!
