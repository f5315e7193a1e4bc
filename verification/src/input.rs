//! Opening a multimedia input source.
//!
//! An input is opened by a session. The session names the native call to make
//! next; the caller makes it and hands the outcome to [`Opening::step`], until
//! the session ends with the opened [`Input`] or with an error.

use vstd::prelude::*;
use vstd::string::*;
use crate::error::{ff, no_decoder_found, Error, ErrorView};
use crate::native::{Reply, ReplyView};
use crate::open_proofs::{lemma_open_outcome, NativeContainer};
use crate::stream::{decodes, duplicate_streams, kind_of, stream_views, StreamView};
pub use crate::stream::{Stream, StreamKind};

verus! {

/// A native call that an opening session asks for.
#[derive(Clone, Copy, Debug, PartialEq, Eq)]
pub enum OpenAction {
    /// Open the container at the session's URL; answered by `Reply::Status`.
    OpenContainer,
    /// Probe the container's streams; answered by `Reply::Probed`.
    FindStreamInfo,
    /// Read the media type and codec name of the stream at this index;
    /// answered by `Reply::StreamInfo`.
    InspectStream(usize),
    /// Look up a decoder for the stream's codec; answered by `Reply::Found`.
    FindDecoder(usize),
    /// Open the decoder found for the stream, with default options; answered
    /// by `Reply::DecoderOpened`.
    OpenDecoder(usize),
    /// Close the container, which releases all that was opened with it;
    /// answered by `Reply::Closed`.
    CloseInput,
}

/// An opened input source.
#[derive(Debug)]
pub struct Input {
    pub url: String,
    pub streams: Vec<Stream>,
}

/// The mathematical value of an [`Input`].
pub struct InputView {
    pub url: Seq<char>,
    pub streams: Seq<StreamView>,
}

impl InputView {
    /// Streams stand in container order, and each owns a decoder exactly when
    /// its kind is decoded.
    pub open spec fn wf(self) -> bool {
        forall|i: int|
            0 <= i < self.streams.len() ==> (#[trigger] self.streams[i]).wf()
                && self.streams[i].index == i
    }
}

impl View for Input {
    type V = InputView;

    open spec fn view(&self) -> InputView {
        InputView { url: self.url@, streams: stream_views(self.streams@) }
    }
}

/// An input source that is being opened.
#[derive(Debug)]
pub struct Opening {
    pub url: String,
    /// The native call whose outcome the session waits for.
    pub pending: OpenAction,
    /// The number of streams that probing found.
    pub total: usize,
    /// The streams handled so far, in container order.
    pub streams: Vec<Stream>,
    /// Kind and codec name of the stream under inspection.
    pub current_kind: StreamKind,
    pub current_name: String,
    /// The error to report once the container is closed.
    pub failure: Option<Error>,
}

/// The mathematical value of an [`Opening`].
pub struct OpeningView {
    pub url: Seq<char>,
    pub pending: OpenAction,
    pub total: usize,
    pub streams: Seq<StreamView>,
    pub current_kind: StreamKind,
    pub current_name: Seq<char>,
    pub failure: Option<ErrorView>,
}

impl View for Opening {
    type V = OpeningView;

    open spec fn view(&self) -> OpeningView {
        OpeningView {
            url: self.url@,
            pending: self.pending,
            total: self.total,
            streams: stream_views(self.streams@),
            current_kind: self.current_kind,
            current_name: self.current_name@,
            failure: match self.failure {
                Some(e) => Some(e@),
                None => None,
            },
        }
    }
}

/// Where an opening session stands after a reply.
#[derive(Debug)]
pub enum OpenProgress {
    /// The session goes on: make the call that it now has pending.
    Do(Opening),
    /// The input is open.
    Ready(Input),
    /// Opening failed; nothing native is held any more.
    Failed(Error),
}

/// The mathematical value of an [`OpenProgress`].
pub enum OpenProgressView {
    Do(OpeningView),
    Ready(InputView),
    Failed(ErrorView),
}

impl View for OpenProgress {
    type V = OpenProgressView;

    open spec fn view(&self) -> OpenProgressView {
        match *self {
            OpenProgress::Do(o) => OpenProgressView::Do(o@),
            OpenProgress::Ready(i) => OpenProgressView::Ready(i@),
            OpenProgress::Failed(e) => OpenProgressView::Failed(e@),
        }
    }
}

impl OpeningView {
    /// The session at its start.
    pub open spec fn start(url: Seq<char>) -> OpeningView {
        OpeningView {
            url,
            pending: OpenAction::OpenContainer,
            total: 0,
            streams: Seq::empty(),
            current_kind: StreamKind::Unknown,
            current_name: Seq::empty(),
            failure: None,
        }
    }

    /// Whether the session holds the native container.
    pub open spec fn holds_container(self) -> bool {
        self.pending != OpenAction::OpenContainer
    }

    /// What holds of every session that arose from `start` by replies.
    pub open spec fn wf(self) -> bool {
        &&& self.streams.len() <= self.total
        &&& InputView { url: self.url, streams: self.streams }.wf()
        &&& (self.failure.is_some() <==> self.pending == OpenAction::CloseInput)
        &&& match self.pending {
            OpenAction::OpenContainer => self.streams.len() == 0 && self.total == 0,
            OpenAction::FindStreamInfo => self.streams.len() == 0 && self.total == 0,
            OpenAction::InspectStream(i) => i == self.streams.len() && i < self.total,
            OpenAction::FindDecoder(i) => i == self.streams.len() && i < self.total && decodes(
                self.current_kind,
            ),
            OpenAction::OpenDecoder(i) => i == self.streams.len() && i < self.total && decodes(
                self.current_kind,
            ),
            OpenAction::CloseInput => true,
        }
    }

    /// The session moves to the next stream, or ends with the opened input
    /// when every stream was handled.
    pub open spec fn advance(self) -> OpenProgressView {
        if self.streams.len() < self.total {
            OpenProgressView::Do(
                OpeningView {
                    pending: OpenAction::InspectStream(self.streams.len() as usize),
                    ..self
                },
            )
        } else {
            OpenProgressView::Ready(InputView { url: self.url, streams: self.streams })
        }
    }

    /// The session gives up: the container is to be closed, then `error` is
    /// reported.
    pub open spec fn abandon(self, error: ErrorView) -> OpenProgressView {
        OpenProgressView::Do(
            OpeningView { pending: OpenAction::CloseInput, failure: Some(error), ..self },
        )
    }

    /// The session's answer to a reply. A reply that does not answer the
    /// pending call changes nothing.
    pub open spec fn next(self, reply: ReplyView) -> OpenProgressView {
        match (self.pending, reply) {
            (OpenAction::OpenContainer, ReplyView::Status(status)) => {
                if status.code < 0 {
                    OpenProgressView::Failed(status.error)
                } else {
                    OpenProgressView::Do(
                        OpeningView { pending: OpenAction::FindStreamInfo, ..self },
                    )
                }
            },
            (OpenAction::FindStreamInfo, ReplyView::Probed { status, streams }) => {
                if status.code < 0 {
                    self.abandon(status.error)
                } else {
                    OpeningView { total: streams, ..self }.advance()
                }
            },
            (OpenAction::InspectStream(i), ReplyView::StreamInfo { media_type, codec_name }) => {
                if decodes(kind_of(media_type)) {
                    OpenProgressView::Do(
                        OpeningView {
                            pending: OpenAction::FindDecoder(i),
                            current_kind: kind_of(media_type),
                            current_name: codec_name,
                            ..self
                        },
                    )
                } else {
                    OpeningView {
                        streams: self.streams.push(
                            StreamView {
                                index: i,
                                kind: kind_of(media_type),
                                codec_name,
                                decoder: None,
                            },
                        ),
                        ..self
                    }.advance()
                }
            },
            (OpenAction::FindDecoder(i), ReplyView::Found(found)) => {
                if found {
                    OpenProgressView::Do(
                        OpeningView { pending: OpenAction::OpenDecoder(i), ..self },
                    )
                } else {
                    self.abandon(ErrorView::NoDecoderFound(self.current_name))
                }
            },
            (OpenAction::OpenDecoder(i), ReplyView::DecoderOpened { status, params }) => {
                if status.code < 0 {
                    self.abandon(status.error)
                } else {
                    OpeningView {
                        streams: self.streams.push(
                            StreamView {
                                index: i,
                                kind: self.current_kind,
                                codec_name: self.current_name,
                                decoder: Some(params),
                            },
                        ),
                        ..self
                    }.advance()
                }
            },
            (OpenAction::CloseInput, ReplyView::Closed) => {
                match self.failure {
                    Some(error) => OpenProgressView::Failed(error),
                    None => OpenProgressView::Do(self),
                }
            },
            _ => OpenProgressView::Do(self),
        }
    }
}

impl OpenProgressView {
    /// A session that goes on is well formed, and so is an opened input.
    pub open spec fn wf(self) -> bool {
        match self {
            OpenProgressView::Do(o) => o.wf(),
            OpenProgressView::Ready(input) => input.wf(),
            OpenProgressView::Failed(_) => true,
        }
    }
}

/// A well-formed session stays well formed, whatever the reply, and the input
/// that it ends with is well formed.
pub proof fn lemma_open_step_keeps_wf(s: OpeningView, reply: ReplyView)
    requires
        s.wf(),
    ensures
        s.next(reply).wf(),
{
}

/// A native resource that an opened input holds.
#[derive(Clone, Copy, Debug, PartialEq, Eq)]
pub enum Release {
    /// The decoder context of the stream at this index.
    Decoder(usize),
    /// The container.
    Container,
}

impl InputView {
    /// The decoder contexts held by the first `n` streams, in container
    /// order.
    pub open spec fn decoders_held(self, n: int) -> Seq<Release>
        decreases n,
    {
        if n <= 0 {
            Seq::empty()
        } else if self.streams[n - 1].decoder is Some {
            self.decoders_held(n - 1).push(Release::Decoder(self.streams[n - 1].index))
        } else {
            self.decoders_held(n - 1)
        }
    }

    /// What is released when the input is destroyed: the decoder context of
    /// every stream that has one, then the container.
    pub open spec fn release_plan(self) -> Seq<Release> {
        self.decoders_held(self.streams.len() as int).push(Release::Container)
    }
}

impl Input {
    /// Open an input source: starts the session that opens the container at
    /// `url`. Its first pending call opens the container.
    ///
    /// Driven by the answers of the native framework, the session comes to
    /// what those answers decide: the error of the first call that fails, or
    /// the input that lists every stream of the container.
    pub fn open(url: String) -> (session: Opening)
        ensures
            session@ == OpeningView::start(url@),
            session@.wf(),
            forall|native: NativeContainer, calls: nat|
                native.streams.len() <= usize::MAX && calls >= 3 * native.streams.len() + 3
                    ==> #[trigger] session@.drive(native, calls) == native.outcome(url@),
    {
        proof {
            assert forall|native: NativeContainer, calls: nat|
                native.streams.len() <= usize::MAX && calls >= 3 * native.streams.len()
                    + 3 implies #[trigger] OpeningView::start(url@).drive(native, calls)
                == native.outcome(url@) by {
                lemma_open_outcome(native, url@, calls);
            }
        }
        let session = Opening {
            url,
            pending: OpenAction::OpenContainer,
            total: 0,
            streams: Vec::new(),
            current_kind: StreamKind::Unknown,
            current_name: String::new(),
            failure: None,
        };
        assert(session@.streams =~= Seq::empty());
        session
    }

    /// Return the list of streams contained in the input source, in container
    /// order.
    pub fn streams(&self) -> (streams: Vec<Stream>)
        ensures
            stream_views(streams@) == self@.streams,
    {
        duplicate_streams(&self.streams)
    }

    /// Destroys the input: returns what is to be released, each resource
    /// once, the container last.
    pub fn release(self) -> (plan: Vec<Release>)
        ensures
            plan@ == self@.release_plan(),
    {
        let mut plan: Vec<Release> = Vec::new();
        let mut i: usize = 0;
        while i < self.streams.len()
            invariant
                i <= self.streams.len(),
                plan@ == self@.decoders_held(i as int),
            decreases self.streams.len() - i,
        {
            if self.streams[i].decoder.is_some() {
                plan.push(Release::Decoder(self.streams[i].index));
            }
            i += 1;
        }
        plan.push(Release::Container);
        plan
    }
}

impl Opening {
    /// The native call whose outcome the session waits for.
    pub fn pending(&self) -> (action: OpenAction)
        ensures
            action == self@.pending,
    {
        self.pending
    }

    fn advance(self) -> (r: OpenProgress)
        ensures
            r@ == self@.advance(),
    {
        let mut s = self;
        if s.streams.len() < s.total {
            s.pending = OpenAction::InspectStream(s.streams.len());
            OpenProgress::Do(s)
        } else {
            OpenProgress::Ready(Input { url: s.url, streams: s.streams })
        }
    }

    fn abandon(self, error: Error) -> (r: OpenProgress)
        ensures
            r@ == self@.abandon(error@),
    {
        let mut s = self;
        s.pending = OpenAction::CloseInput;
        s.failure = Some(error);
        OpenProgress::Do(s)
    }

    fn found(self, stream: Stream) -> (r: OpenProgress)
        ensures
            r@ == (OpeningView { streams: self@.streams.push(stream@), ..self@ }).advance(),
    {
        let mut s = self;
        s.streams.push(stream);
        assert(stream_views(s.streams@) =~= self@.streams.push(stream@));
        s.advance()
    }

    /// Takes the outcome of the pending native call and decides what follows:
    /// the next call, the opened input, or the error that ends the session.
    pub fn step(self, reply: Reply) -> (r: OpenProgress)
        ensures
            r@ == self@.next(reply@),
            self@.wf() ==> r@.wf(),
    {
        proof {
            if self@.wf() {
                lemma_open_step_keeps_wf(self@, reply@);
            }
        }
        let mut s = self;
        match s.pending {
            OpenAction::OpenContainer => match reply {
                Reply::Status(status) => {
                    if status.code < 0 {
                        OpenProgress::Failed(ff(&status))
                    } else {
                        s.pending = OpenAction::FindStreamInfo;
                        OpenProgress::Do(s)
                    }
                },
                _ => OpenProgress::Do(s),
            },
            OpenAction::FindStreamInfo => match reply {
                Reply::Probed { status, streams } => {
                    if status.code < 0 {
                        let error = ff(&status);
                        s.abandon(error)
                    } else {
                        s.total = streams;
                        s.advance()
                    }
                },
                _ => OpenProgress::Do(s),
            },
            OpenAction::InspectStream(i) => match reply {
                Reply::StreamInfo { media_type, codec_name } => {
                    let kind = StreamKind::from_media_type(media_type);
                    if kind.is_decoded() {
                        s.pending = OpenAction::FindDecoder(i);
                        s.current_kind = kind;
                        s.current_name = codec_name;
                        OpenProgress::Do(s)
                    } else {
                        s.found(Stream { index: i, kind, codec_name, decoder: None })
                    }
                },
                _ => OpenProgress::Do(s),
            },
            OpenAction::FindDecoder(i) => match reply {
                Reply::Found(found) => {
                    if found {
                        s.pending = OpenAction::OpenDecoder(i);
                        OpenProgress::Do(s)
                    } else {
                        let error = no_decoder_found(s.current_name.clone());
                        s.abandon(error)
                    }
                },
                _ => OpenProgress::Do(s),
            },
            OpenAction::OpenDecoder(i) => match reply {
                Reply::DecoderOpened { status, params } => {
                    if status.code < 0 {
                        let error = ff(&status);
                        s.abandon(error)
                    } else {
                        let stream = Stream {
                            index: i,
                            kind: s.current_kind,
                            codec_name: s.current_name.clone(),
                            decoder: Some(params),
                        };
                        s.found(stream)
                    }
                },
                _ => OpenProgress::Do(s),
            },
            OpenAction::CloseInput => match reply {
                Reply::Closed => {
                    match s.failure {
                        Some(error) => OpenProgress::Failed(error),
                        None => {
                            s.failure = None;
                            OpenProgress::Do(s)
                        },
                    }
                },
                _ => OpenProgress::Do(s),
            },
        }
    }
}

} // verus!
