//! Assembling an output container from selected streams.
//!
//! An output is written by a session, run like the one that opens an input:
//! it names the native call to make next and takes the call's outcome.

use vstd::prelude::*;
use vstd::string::*;
use crate::error::{ff, ffcustom, no_decoder_found, Error, ErrorView, NativeStatus, StatusView};
use crate::input::{Input, InputView};
use crate::native::{Reply, ReplyView};
use crate::process_proofs::{lemma_process_outcome, NativeMuxer};
use crate::stream::{
    decodes, encoder_setup, prepare_encoder, stream_views, EncoderSetup, Stream, StreamKind,
    StreamView,
};

verus! {

/// The flag of a container format that does its own I/O and needs no I/O
/// handle opened for it.
pub const AVFMT_NOFILE: i32 = 0x0001;

/// Whether a container format with these flags needs an I/O handle opened
/// before its header is written.
pub open spec fn needs_io(format_flags: i32) -> bool {
    format_flags & AVFMT_NOFILE == 0
}

/// The text of the error for an output stream that could not be allocated.
pub open spec fn allocation_failed_text() -> Seq<char> {
    "failed to allocate output stream"@
}

/// The text of the error for a stream of unknown kind.
pub open spec fn unknown_stream_text() -> Seq<char> {
    "unknown stream, cannot proceed"@
}

/// A native call that a writing session asks for. Calls that report a status
/// code are answered by `Reply::Status`.
#[derive(Clone, Copy, Debug, PartialEq, Eq)]
pub enum ProcessAction {
    /// Allocate the output stream for the selected stream at this index;
    /// answered by `Reply::Found`.
    NewStream(usize),
    /// Copy the codec parameters of the selected stream, as they are, to its
    /// output stream.
    Remux(usize),
    /// Look up an encoder for the codec of the selected stream; answered by
    /// `Reply::EncoderLookup`.
    FindEncoder(usize),
    /// Set these fields on the output stream's encoder context and open the
    /// encoder found, with no further options.
    OpenEncoder(usize, EncoderSetup),
    /// Open the destination file for writing.
    OpenIo,
    /// Write the container's header.
    WriteHeader,
    /// Write the container's trailer.
    WriteTrailer,
    /// Close the destination file.
    CloseIo,
}

impl ProcessAction {
    /// Whether the call writes to, opens or closes the destination.
    pub open spec fn touches_destination(self) -> bool {
        self == ProcessAction::OpenIo || self == ProcessAction::WriteHeader || self
            == ProcessAction::WriteTrailer || self == ProcessAction::CloseIo
    }

    /// Whether the call prepares a re-encoding.
    pub open spec fn encodes(self) -> bool {
        self is FindEncoder || self is OpenEncoder
    }
}

/// Represents the parameters for the desired output.
#[derive(Debug)]
pub struct Output {
    /// The destination, whose extension chose the container format.
    pub filename: String,
    /// The streams selected for the output, in the order of selection.
    pub streams: Vec<Stream>,
    /// The flags of the container format.
    pub format_flags: i32,
}

/// The mathematical value of an [`Output`].
pub struct OutputView {
    pub filename: Seq<char>,
    pub streams: Seq<StreamView>,
    pub format_flags: i32,
}

impl OutputView {
    /// Each selected stream owns a decoder exactly when its kind is decoded.
    pub open spec fn wf(self) -> bool {
        forall|i: int| 0 <= i < self.streams.len() ==> (#[trigger] self.streams[i]).wf()
    }
}

impl View for Output {
    type V = OutputView;

    open spec fn view(&self) -> OutputView {
        OutputView {
            filename: self.filename@,
            streams: stream_views(self.streams@),
            format_flags: self.format_flags,
        }
    }
}

/// An output that is being written.
#[derive(Debug)]
pub struct Processing {
    pub output: Output,
    /// The native call whose outcome the session waits for.
    pub pending: ProcessAction,
    /// The error to report once the destination is closed.
    pub failure: Option<Error>,
}

/// The mathematical value of a [`Processing`].
pub struct ProcessingView {
    pub output: OutputView,
    pub pending: ProcessAction,
    pub failure: Option<ErrorView>,
}

impl View for Processing {
    type V = ProcessingView;

    open spec fn view(&self) -> ProcessingView {
        ProcessingView {
            output: self.output@,
            pending: self.pending,
            failure: match self.failure {
                Some(e) => Some(e@),
                None => None,
            },
        }
    }
}

/// Where a writing session stands after a reply.
#[derive(Debug)]
pub enum ProcessProgress {
    /// The session goes on: it waits for the outcome of its pending call.
    Do(Processing),
    /// Header and trailer are written and the destination is closed.
    Done,
    /// The operation was aborted; the destination is not open.
    Failed(Error),
}

/// The mathematical value of a [`ProcessProgress`].
pub enum ProcessProgressView {
    Do(ProcessingView),
    Done,
    Failed(ErrorView),
}

impl View for ProcessProgress {
    type V = ProcessProgressView;

    open spec fn view(&self) -> ProcessProgressView {
        match *self {
            ProcessProgress::Do(p) => ProcessProgressView::Do(p@),
            ProcessProgress::Done => ProcessProgressView::Done,
            ProcessProgress::Failed(e) => ProcessProgressView::Failed(e@),
        }
    }
}

impl OutputView {
    /// The first call of the writing phase.
    pub open spec fn first_write(self) -> ProcessAction {
        if needs_io(self.format_flags) {
            ProcessAction::OpenIo
        } else {
            ProcessAction::WriteHeader
        }
    }

    /// The call that follows when the streams before `n` are set up: the
    /// allocation of stream `n`, or the first call of the writing phase.
    pub open spec fn action_from(self, n: int) -> ProcessAction {
        if 0 <= n < self.streams.len() {
            ProcessAction::NewStream(n as usize)
        } else {
            self.first_write()
        }
    }
}

impl ProcessingView {
    /// The session at its start.
    pub open spec fn start(output: OutputView) -> ProcessingView {
        ProcessingView { output, pending: output.action_from(0), failure: None }
    }

    /// What holds of every session that arose from `start` by replies.
    pub open spec fn wf(self) -> bool {
        &&& self.output.wf()
        &&& (self.failure.is_some() ==> self.pending == ProcessAction::CloseIo)
        &&& (self.pending == ProcessAction::CloseIo ==> needs_io(self.output.format_flags))
        &&& match self.pending {
            ProcessAction::NewStream(i) => i < self.output.streams.len(),
            ProcessAction::Remux(i) => i < self.output.streams.len()
                && self.output.streams[i as int].kind == StreamKind::Subtitle,
            ProcessAction::FindEncoder(i) => i < self.output.streams.len() && decodes(
                self.output.streams[i as int].kind,
            ),
            ProcessAction::OpenEncoder(i, _) => i < self.output.streams.len() && decodes(
                self.output.streams[i as int].kind,
            ),
            _ => true,
        }
        &&& forall|j: int|
            0 <= j < self.configured() ==> (#[trigger] self.output.streams[j]).kind
                != StreamKind::Unknown
    }

    /// The number of selected streams whose output stream is set up.
    pub open spec fn configured(self) -> int {
        match self.pending {
            ProcessAction::NewStream(i) => i as int,
            ProcessAction::Remux(i) => i as int,
            ProcessAction::FindEncoder(i) => i as int,
            ProcessAction::OpenEncoder(i, _) => i as int,
            _ => self.output.streams.len() as int,
        }
    }

    /// The session goes on with the call that follows when the streams before
    /// `n` are set up.
    pub open spec fn proceed(self, n: int) -> ProcessProgressView {
        ProcessProgressView::Do(ProcessingView { pending: self.output.action_from(n), ..self })
    }

    /// The session aborts with `error` while writing: a destination that was
    /// opened is closed first.
    pub open spec fn abort_write(self, error: ErrorView) -> ProcessProgressView {
        if needs_io(self.output.format_flags) {
            ProcessProgressView::Do(
                ProcessingView { pending: ProcessAction::CloseIo, failure: Some(error), ..self },
            )
        } else {
            ProcessProgressView::Failed(error)
        }
    }

    /// What follows the allocation of the output stream for stream `i`.
    pub open spec fn dispatch(self, i: usize) -> ProcessProgressView {
        match self.output.streams[i as int].kind {
            StreamKind::Subtitle => ProcessProgressView::Do(
                ProcessingView { pending: ProcessAction::Remux(i), ..self },
            ),
            StreamKind::Unknown => ProcessProgressView::Failed(
                ErrorView::FFmpegError(unknown_stream_text()),
            ),
            _ => ProcessProgressView::Do(
                ProcessingView { pending: ProcessAction::FindEncoder(i), ..self },
            ),
        }
    }

    /// What follows the lookup of an encoder for stream `i`, where one was
    /// found.
    pub open spec fn configure(self, i: usize, first_pixel_format: Option<i32>)
        -> ProcessProgressView {
        let stream = self.output.streams[i as int];
        match stream.decoder {
            Some(decoder) => match encoder_setup(stream.kind, decoder, first_pixel_format) {
                Some(setup) => ProcessProgressView::Do(
                    ProcessingView { pending: ProcessAction::OpenEncoder(i, setup), ..self },
                ),
                None => ProcessProgressView::Do(self),
            },
            None => ProcessProgressView::Do(self),
        }
    }

    /// The session's answer to a reply. A reply that does not answer the
    /// pending call changes nothing.
    pub open spec fn next(self, reply: ReplyView) -> ProcessProgressView {
        match (self.pending, reply) {
            (ProcessAction::NewStream(i), ReplyView::Found(found)) => {
                if found {
                    self.dispatch(i)
                } else {
                    ProcessProgressView::Failed(ErrorView::FFmpegError(allocation_failed_text()))
                }
            },
            (ProcessAction::Remux(i), ReplyView::Status(status)) => {
                if status.code < 0 {
                    ProcessProgressView::Failed(status.error)
                } else {
                    self.proceed(i + 1)
                }
            },
            (ProcessAction::FindEncoder(i), ReplyView::EncoderLookup { found, first_pixel_format }) => {
                if found {
                    self.configure(i, first_pixel_format)
                } else {
                    ProcessProgressView::Failed(
                        ErrorView::NoDecoderFound(self.output.streams[i as int].codec_name),
                    )
                }
            },
            (ProcessAction::OpenEncoder(i, _), ReplyView::Status(status)) => {
                if status.code < 0 {
                    ProcessProgressView::Failed(status.error)
                } else {
                    self.proceed(i + 1)
                }
            },
            (ProcessAction::OpenIo, ReplyView::Status(status)) => {
                if status.code < 0 {
                    ProcessProgressView::Failed(status.error)
                } else {
                    ProcessProgressView::Do(
                        ProcessingView { pending: ProcessAction::WriteHeader, ..self },
                    )
                }
            },
            (ProcessAction::WriteHeader, ReplyView::Status(status)) => {
                if status.code < 0 {
                    self.abort_write(status.error)
                } else {
                    ProcessProgressView::Do(
                        ProcessingView { pending: ProcessAction::WriteTrailer, ..self },
                    )
                }
            },
            (ProcessAction::WriteTrailer, ReplyView::Status(status)) => {
                if status.code < 0 {
                    self.abort_write(status.error)
                } else if needs_io(self.output.format_flags) {
                    ProcessProgressView::Do(
                        ProcessingView { pending: ProcessAction::CloseIo, ..self },
                    )
                } else {
                    ProcessProgressView::Done
                }
            },
            (ProcessAction::CloseIo, ReplyView::Status(status)) => {
                match self.failure {
                    Some(error) => ProcessProgressView::Failed(error),
                    None => if status.code < 0 {
                        ProcessProgressView::Failed(status.error)
                    } else {
                        ProcessProgressView::Done
                    },
                }
            },
            _ => ProcessProgressView::Do(self),
        }
    }
}

impl ProcessProgressView {
    /// A session that goes on is well formed.
    pub open spec fn wf(self) -> bool {
        self matches ProcessProgressView::Do(p) ==> p.wf()
    }
}

/// A well-formed session stays well formed, whatever the reply.
pub proof fn lemma_process_step_keeps_wf(p: ProcessingView, reply: ReplyView)
    requires
        p.wf(),
    ensures
        p.next(reply).wf(),
{
}

/// Computes whether a container format needs an I/O handle.
pub fn format_needs_io(format_flags: i32) -> (b: bool)
    ensures
        b == needs_io(format_flags),
{
    format_flags & AVFMT_NOFILE == 0
}

impl Output {
    /// Construct a new object to represent the targeted result of the
    /// transcoding operation, for a container context that is at hand.
    pub fn new(filename: String, format_flags: i32) -> (output: Output)
        ensures
            output@ == (OutputView { filename: filename@, streams: Seq::empty(), format_flags }),
            output@.wf(),
    {
        let output = Output { filename, streams: Vec::new(), format_flags };
        assert(output@.streams =~= Seq::empty());
        output
    }

    /// Create a new output from the outcome of allocating its container
    /// context: the error that the framework reported, or the output with no
    /// stream selected yet.
    pub fn create(filename: String, allocated: &NativeStatus, format_flags: i32) -> (r: Result<
        Output,
        Error,
    >)
        ensures
            allocated.code < 0 ==> r is Err && r->Err_0@ == allocated@.error,
            allocated.code >= 0 ==> r is Ok && r->Ok_0@ == (OutputView {
                filename: filename@,
                streams: Seq::empty(),
                format_flags,
            }) && r->Ok_0@.wf(),
    {
        if allocated.code < 0 {
            Err(ff(allocated))
        } else {
            Ok(Output::new(filename, format_flags))
        }
    }

    /// Add a stream to process.
    pub fn add_stream(&mut self, stream: Stream)
        ensures
            final(self)@ == (OutputView {
                streams: old(self)@.streams.push(stream@),
                ..old(self)@
            }),
            old(self)@.wf() && stream@.wf() ==> final(self)@.wf(),
    {
        self.streams.push(stream);
        assert(stream_views(self.streams@) =~= old(self)@.streams.push(stream@));
    }

    fn first_write(&self) -> (action: ProcessAction)
        ensures
            action == self@.first_write(),
    {
        if format_needs_io(self.format_flags) {
            ProcessAction::OpenIo
        } else {
            ProcessAction::WriteHeader
        }
    }

    fn action_from(&self, n: usize) -> (action: ProcessAction)
        ensures
            action == self@.action_from(n as int),
    {
        if n < self.streams.len() {
            ProcessAction::NewStream(n)
        } else {
            self.first_write()
        }
    }

    /// Run the conversion process: starts the session that sets up an output
    /// stream for each selected stream and then writes the container.
    ///
    /// Driven by the answers of the native framework, the session comes to
    /// what those answers decide: the error of the first call that fails, or
    /// success when every stream is set up and the container written.
    pub fn process(self) -> (session: Processing)
        ensures
            session@ == ProcessingView::start(self@),
            self@.wf() ==> session@.wf(),
            self@.wf() ==> forall|native: NativeMuxer, calls: nat|
                native.streams.len() == self@.streams.len() && calls >= 3 * self@.streams.len()
                    + 4 ==> #[trigger] session@.drive(native, calls) == native.outcome(self@),
    {
        proof {
            assert(self@.streams.len() == self.streams.len());
            if self@.wf() {
                assert forall|native: NativeMuxer, calls: nat|
                    native.streams.len() == self@.streams.len() && calls >= 3
                        * self@.streams.len() + 4 implies #[trigger] ProcessingView::start(
                    self@,
                ).drive(native, calls) == native.outcome(self@) by {
                    lemma_process_outcome(native, self@, calls);
                }
            }
        }
        let pending = self.action_from(0);
        Processing { output: self, pending, failure: None }
    }
}

impl Processing {
    /// The native call whose outcome the session waits for.
    pub fn pending(&self) -> (action: ProcessAction)
        ensures
            action == self@.pending,
    {
        self.pending
    }

    fn proceed(self, n: usize) -> (r: ProcessProgress)
        ensures
            r@ == self@.proceed(n as int),
    {
        let mut s = self;
        s.pending = s.output.action_from(n);
        ProcessProgress::Do(s)
    }

    fn abort_write(self, error: Error) -> (r: ProcessProgress)
        ensures
            r@ == self@.abort_write(error@),
    {
        let mut s = self;
        if format_needs_io(s.output.format_flags) {
            s.pending = ProcessAction::CloseIo;
            s.failure = Some(error);
            ProcessProgress::Do(s)
        } else {
            ProcessProgress::Failed(error)
        }
    }

    fn dispatch(self, i: usize) -> (r: ProcessProgress)
        requires
            i < self.output.streams.len(),
        ensures
            r@ == self@.dispatch(i),
    {
        let mut s = self;
        match s.output.streams[i].kind {
            StreamKind::Subtitle => {
                s.pending = ProcessAction::Remux(i);
                ProcessProgress::Do(s)
            },
            StreamKind::Unknown => ProcessProgress::Failed(
                ffcustom(String::from_str("unknown stream, cannot proceed")),
            ),
            _ => {
                s.pending = ProcessAction::FindEncoder(i);
                ProcessProgress::Do(s)
            },
        }
    }

    fn configure(self, i: usize, first_pixel_format: Option<i32>) -> (r: ProcessProgress)
        requires
            i < self.output.streams.len(),
        ensures
            r@ == self@.configure(i, first_pixel_format),
    {
        let mut s = self;
        let kind = s.output.streams[i].kind;
        match s.output.streams[i].decoder {
            Some(decoder) => match prepare_encoder(kind, &decoder, first_pixel_format) {
                Some(setup) => {
                    s.pending = ProcessAction::OpenEncoder(i, setup);
                    ProcessProgress::Do(s)
                },
                None => ProcessProgress::Do(s),
            },
            None => ProcessProgress::Do(s),
        }
    }

    /// Takes the outcome of the pending native call and decides what follows:
    /// the next call, the end of the operation, or the error that aborts it.
    pub fn step(self, reply: Reply) -> (r: ProcessProgress)
        requires
            self@.wf(),
        ensures
            r@ == self@.next(reply@),
            r@.wf(),
    {
        proof {
            lemma_process_step_keeps_wf(self@, reply@);
        }
        let mut s = self;
        match s.pending {
            ProcessAction::NewStream(i) => match reply {
                Reply::Found(found) => {
                    if found {
                        s.dispatch(i)
                    } else {
                        ProcessProgress::Failed(
                            ffcustom(String::from_str("failed to allocate output stream")),
                        )
                    }
                },
                _ => ProcessProgress::Do(s),
            },
            ProcessAction::Remux(i) => match reply {
                Reply::Status(status) => {
                    if status.code < 0 {
                        ProcessProgress::Failed(ff(&status))
                    } else {
                        s.proceed(i + 1)
                    }
                },
                _ => ProcessProgress::Do(s),
            },
            ProcessAction::FindEncoder(i) => match reply {
                Reply::EncoderLookup { found, first_pixel_format } => {
                    if found {
                        s.configure(i, first_pixel_format)
                    } else {
                        ProcessProgress::Failed(
                            no_decoder_found(s.output.streams[i].codec_name.clone()),
                        )
                    }
                },
                _ => ProcessProgress::Do(s),
            },
            ProcessAction::OpenEncoder(i, _) => match reply {
                Reply::Status(status) => {
                    if status.code < 0 {
                        ProcessProgress::Failed(ff(&status))
                    } else {
                        s.proceed(i + 1)
                    }
                },
                _ => ProcessProgress::Do(s),
            },
            ProcessAction::OpenIo => match reply {
                Reply::Status(status) => {
                    if status.code < 0 {
                        ProcessProgress::Failed(ff(&status))
                    } else {
                        s.pending = ProcessAction::WriteHeader;
                        ProcessProgress::Do(s)
                    }
                },
                _ => ProcessProgress::Do(s),
            },
            ProcessAction::WriteHeader => match reply {
                Reply::Status(status) => {
                    if status.code < 0 {
                        let error = ff(&status);
                        s.abort_write(error)
                    } else {
                        s.pending = ProcessAction::WriteTrailer;
                        ProcessProgress::Do(s)
                    }
                },
                _ => ProcessProgress::Do(s),
            },
            ProcessAction::WriteTrailer => match reply {
                Reply::Status(status) => {
                    if status.code < 0 {
                        let error = ff(&status);
                        s.abort_write(error)
                    } else if format_needs_io(s.output.format_flags) {
                        s.pending = ProcessAction::CloseIo;
                        ProcessProgress::Do(s)
                    } else {
                        ProcessProgress::Done
                    }
                },
                _ => ProcessProgress::Do(s),
            },
            ProcessAction::CloseIo => match reply {
                Reply::Status(status) => {
                    match s.failure {
                        Some(error) => ProcessProgress::Failed(error),
                        None => if status.code < 0 {
                            ProcessProgress::Failed(ff(&status))
                        } else {
                            ProcessProgress::Done
                        },
                    }
                },
                _ => ProcessProgress::Do(s),
            },
        }
    }
}

/// Represents a transcoding operation.
#[derive(Debug)]
pub struct Transcode {
    pub input: Input,
    pub output: Output,
}

/// The mathematical value of a [`Transcode`].
pub struct TranscodeView {
    pub input: InputView,
    pub output: OutputView,
}

impl View for Transcode {
    type V = TranscodeView;

    open spec fn view(&self) -> TranscodeView {
        TranscodeView { input: self.input@, output: self.output@ }
    }
}

impl Transcode {
    /// Initialize a multimedia transcoding operation: every stream of the
    /// input is selected for the output, after those selected before.
    pub fn new(input: Input, output: Output) -> (t: Transcode)
        ensures
            t@.input == input@,
            t@.output == (OutputView {
                streams: output@.streams + input@.streams,
                ..output@
            }),
            input@.wf() && output@.wf() ==> t@.output.wf(),
    {
        let ghost selected = output@;
        let mut output = output;
        let mut i: usize = 0;
        while i < input.streams.len()
            invariant
                i <= input.streams.len(),
                output@ == (OutputView {
                    streams: selected.streams + stream_views(input.streams@).take(i as int),
                    ..selected
                }),
            decreases input.streams.len() - i,
        {
            let ghost before = stream_views(output.streams@);
            output.add_stream(input.streams[i].duplicate());
            assert(stream_views(input.streams@).take(i + 1) =~= stream_views(
                input.streams@,
            ).take(i as int).push(input.streams@[i as int]@));
            assert(before.push(input.streams@[i as int]@) =~= selected.streams + stream_views(
                input.streams@,
            ).take(i + 1));
            i += 1;
        }
        assert(stream_views(input.streams@).take(i as int) =~= stream_views(input.streams@));
        Transcode { input, output }
    }

    /// Actually transcode the input source: starts the session that writes the
    /// output.
    pub fn run(self) -> (session: Processing)
        ensures
            session@ == ProcessingView::start(self@.output),
            self@.output.wf() ==> session@.wf(),
            self@.output.wf() ==> forall|native: NativeMuxer, calls: nat|
                native.streams.len() == self@.output.streams.len() && calls >= 3
                    * self@.output.streams.len() + 4 ==> #[trigger] session@.drive(native, calls)
                    == native.outcome(self@.output),
    {
        self.output.process()
    }
}

} // verus!
