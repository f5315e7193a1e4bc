//! What holds of opening an input, over whole sessions.
//!
//! The native framework is described by the answers that it gives for one
//! container. A session driven by those answers ends as the container's
//! description says, and releases what it acquired exactly once.

use vstd::prelude::*;
use crate::error::{ErrorView, StatusView};
use crate::input::{InputView, OpenAction, OpenProgressView, OpeningView, Release};
use crate::native::ReplyView;
use crate::stream::{decodes, kind_of, DecoderParams, MediaType, StreamView};

verus! {

/// An input that is ready lists every stream that probing found.
pub proof fn lemma_ready_lists_every_stream(s: OpeningView, reply: ReplyView)
    requires
        s.wf(),
        s.next(reply) is Ready,
    ensures
        s.next(reply)->Ready_0.url == s.url,
        s.pending != OpenAction::FindStreamInfo ==> s.next(reply)->Ready_0.streams.len()
            == s.total,
        reply matches ReplyView::Probed { streams, .. } ==> s.next(reply)->Ready_0.streams.len()
            == streams,
{
}

/// A session fails only where it holds nothing native: before the container
/// was opened, or on the reply that says that the container was closed. And
/// while a close is awaited, no other call is asked for.
pub proof fn lemma_failure_holds_nothing(s: OpeningView, reply: ReplyView)
    requires
        s.wf(),
    ensures
        s.next(reply) is Failed ==> !s.holds_container() || (s.pending == OpenAction::CloseInput
            && reply == ReplyView::Closed),
        s.pending == OpenAction::CloseInput ==> s.next(reply) is Failed || s.next(reply)
            == OpenProgressView::Do(s),
        s.next(reply) matches OpenProgressView::Do(o) && o.pending == OpenAction::CloseInput
            ==> s.holds_container(),
{
}

/// A video or audio stream whose codec has no decoder ends the session: the
/// container is closed, then the error names the codec.
pub proof fn lemma_missing_decoder_fails(
    s: OpeningView,
    media_type: MediaType,
    codec_name: Seq<char>,
)
    requires
        s.wf(),
        s.pending is InspectStream,
        decodes(kind_of(media_type)),
    ensures
        ({
            let inspected = s.next(ReplyView::StreamInfo { media_type, codec_name });
            let looked_up = inspected->Do_0.next(ReplyView::Found(false));
            &&& inspected is Do
            &&& inspected->Do_0.pending is FindDecoder
            &&& looked_up is Do
            &&& looked_up->Do_0.pending == OpenAction::CloseInput
            &&& looked_up->Do_0.next(ReplyView::Closed) == OpenProgressView::Failed(
                ErrorView::NoDecoderFound(codec_name),
            )
        }),
{
}

/// What the native framework holds of one stream of a container.
pub struct NativeStream {
    pub media_type: MediaType,
    /// The registry name of the stream's codec.
    pub codec_name: Seq<char>,
    /// Whether a decoder is available for the codec.
    pub decoder_found: bool,
    /// The status with which that decoder opens.
    pub decoder_status: StatusView,
    /// What the decoder context holds once opened.
    pub params: DecoderParams,
}

/// How the native framework answers while one container is opened.
pub struct NativeContainer {
    /// The status of opening the container.
    pub opened: StatusView,
    /// The status of probing its streams.
    pub probed: StatusView,
    pub streams: Seq<NativeStream>,
}

impl NativeContainer {
    /// The framework's answer to a call.
    pub open spec fn reply(self, action: OpenAction) -> ReplyView {
        match action {
            OpenAction::OpenContainer => ReplyView::Status(self.opened),
            OpenAction::FindStreamInfo => ReplyView::Probed {
                status: self.probed,
                streams: self.streams.len() as usize,
            },
            OpenAction::InspectStream(i) => ReplyView::StreamInfo {
                media_type: self.streams[i as int].media_type,
                codec_name: self.streams[i as int].codec_name,
            },
            OpenAction::FindDecoder(i) => ReplyView::Found(self.streams[i as int].decoder_found),
            OpenAction::OpenDecoder(i) => ReplyView::DecoderOpened {
                status: self.streams[i as int].decoder_status,
                params: self.streams[i as int].params,
            },
            OpenAction::CloseInput => ReplyView::Closed,
        }
    }

    /// The stream at index `i` as an opened input lists it: its kind is the
    /// classification of its media type, its codec name the registry's, and
    /// it has a decoder where its kind is decoded.
    pub open spec fn listed(self, i: int) -> StreamView {
        let stream = self.streams[i];
        StreamView {
            index: i as usize,
            kind: kind_of(stream.media_type),
            codec_name: stream.codec_name,
            decoder: if decodes(kind_of(stream.media_type)) {
                Some(stream.params)
            } else {
                None
            },
        }
    }

    /// The first `n` streams as an opened input lists them.
    pub open spec fn listing(self, n: int) -> Seq<StreamView> {
        Seq::new(n as nat, |i: int| self.listed(i))
    }

    /// The error that the stream at index `i` makes opening fail with, if any:
    /// a video or audio stream needs a decoder that is found and opens.
    pub open spec fn stream_error(self, i: int) -> Option<ErrorView> {
        let stream = self.streams[i];
        if !decodes(kind_of(stream.media_type)) {
            None
        } else if !stream.decoder_found {
            Some(ErrorView::NoDecoderFound(stream.codec_name))
        } else if stream.decoder_status.code < 0 {
            Some(stream.decoder_status.error)
        } else {
            None
        }
    }

    /// The error of the first stream at or after index `from` that has one.
    pub open spec fn first_stream_error(self, from: int) -> Option<ErrorView>
        decreases self.streams.len() - from,
    {
        if from < 0 || from >= self.streams.len() {
            None
        } else if self.stream_error(from) is Some {
            self.stream_error(from)
        } else {
            self.first_stream_error(from + 1)
        }
    }

    /// What opening the container at `url` comes to: the first failure in the
    /// order open, probe, streams by index; else the input with every stream
    /// listed.
    pub open spec fn outcome(self, url: Seq<char>) -> OpenProgressView {
        if self.opened.code < 0 {
            OpenProgressView::Failed(self.opened.error)
        } else if self.probed.code < 0 {
            OpenProgressView::Failed(self.probed.error)
        } else if self.first_stream_error(0) is Some {
            OpenProgressView::Failed(self.first_stream_error(0)->Some_0)
        } else {
            OpenProgressView::Ready(
                InputView { url, streams: self.listing(self.streams.len() as int) },
            )
        }
    }

    /// The number of calls that a session in state `s` makes at most.
    spec fn calls_left(self, s: OpeningView) -> int {
        let n = self.streams.len() as int;
        match s.pending {
            OpenAction::OpenContainer => 3 * n + 3,
            OpenAction::FindStreamInfo => 3 * n + 2,
            OpenAction::InspectStream(i) => 3 * (n - i) + 1,
            OpenAction::FindDecoder(i) => 3 * (n - i),
            OpenAction::OpenDecoder(i) => 3 * (n - i) - 1,
            OpenAction::CloseInput => 1,
        }
    }

    /// Whether `s` is a state that the session for `url` passes through when
    /// the framework answers as `self` says.
    spec fn tracks(self, s: OpeningView, url: Seq<char>) -> bool {
        let n = self.streams.len() as int;
        let k = s.streams.len() as int;
        &&& s.url == url
        &&& match s.pending {
            OpenAction::CloseInput => s.failure is Some && self.outcome(url)
                == OpenProgressView::Failed(s.failure->Some_0),
            OpenAction::OpenContainer => s.streams == Seq::<StreamView>::empty(),
            OpenAction::FindStreamInfo => self.opened.code >= 0 && s.streams == Seq::<
                StreamView,
            >::empty(),
            pending => {
                &&& self.opened.code >= 0
                &&& self.probed.code >= 0
                &&& s.total == n
                &&& k < n
                &&& s.streams == self.listing(k)
                &&& self.first_stream_error(0) == self.first_stream_error(k)
                &&& match pending {
                    OpenAction::InspectStream(i) => i == k,
                    OpenAction::FindDecoder(i) => i == k && s.current_kind == kind_of(
                        self.streams[k].media_type,
                    ) && s.current_name == self.streams[k].codec_name && decodes(s.current_kind),
                    OpenAction::OpenDecoder(i) => i == k && s.current_kind == kind_of(
                        self.streams[k].media_type,
                    ) && s.current_name == self.streams[k].codec_name && decodes(s.current_kind)
                        && self.streams[k].decoder_found,
                    _ => true,
                }
            },
        }
    }
}

impl OpeningView {
    /// Where the session stands after at most `calls` calls, each answered as
    /// `native` says.
    pub open spec fn drive(self, native: NativeContainer, calls: nat) -> OpenProgressView
        decreases calls,
    {
        if calls == 0 {
            OpenProgressView::Do(self)
        } else {
            match self.next(native.reply(self.pending)) {
                OpenProgressView::Do(after) => after.drive(native, (calls - 1) as nat),
                end => end,
            }
        }
    }

    /// How often, in at most `calls` calls answered as `native` says, the
    /// session has the container closed.
    pub open spec fn closes(self, native: NativeContainer, calls: nat) -> nat
        decreases calls,
    {
        if calls == 0 {
            0
        } else {
            let now: nat = if self.pending == OpenAction::CloseInput {
                1
            } else {
                0
            };
            match self.next(native.reply(self.pending)) {
                OpenProgressView::Do(after) => now + after.closes(native, (calls - 1) as nat),
                _ => now,
            }
        }
    }
}

proof fn lemma_drive_from(native: NativeContainer, s: OpeningView, url: Seq<char>, calls: nat)
    requires
        native.streams.len() <= usize::MAX,
        native.tracks(s, url),
        calls >= native.calls_left(s),
    ensures
        s.drive(native, calls) == native.outcome(url),
        s.closes(native, calls) == if native.outcome(url) is Failed && (s.holds_container()
            || native.opened.code >= 0) {
            1nat
        } else {
            0nat
        },
    decreases calls,
{
    let n = native.streams.len() as int;
    let k = s.streams.len() as int;
    let after = s.next(native.reply(s.pending));
    assert(native.listing(0) =~= Seq::<StreamView>::empty());
    assert(native.first_stream_error(n) is None);
    if s.pending is InspectStream || s.pending is FindDecoder || s.pending is OpenDecoder {
        assert(native.listing(k).push(native.listed(k)) =~= native.listing(k + 1));
        assert(native.first_stream_error(k) == if native.stream_error(k) is Some {
            native.stream_error(k)
        } else {
            native.first_stream_error(k + 1)
        });
    }
    match after {
        OpenProgressView::Do(o) => {
            assert(native.tracks(o, url));
            assert(native.calls_left(o) < native.calls_left(s));
            lemma_drive_from(native, o, url, (calls - 1) as nat);
        },
        _ => {},
    }
}

/// Opening a container comes to what the native framework's answers decide:
/// the session ends, after at most three calls for each stream and three
/// more, with the error of the first call that fails, or with an input that
/// lists one stream for each stream of the container, in container order,
/// each with the kind that its media type is classified as and with its
/// codec's registry name.
pub proof fn lemma_open_outcome(native: NativeContainer, url: Seq<char>, calls: nat)
    requires
        native.streams.len() <= usize::MAX,
        calls >= 3 * native.streams.len() + 3,
    ensures
        OpeningView::start(url).drive(native, calls) == native.outcome(url),
{
    lemma_drive_from(native, OpeningView::start(url), url, calls);
}

/// A failed opening leaves nothing native behind and releases nothing twice:
/// the container is closed once where it was opened and opening then failed,
/// and not at all where it did not open. Where opening succeeds the session
/// closes nothing: the container belongs to the input.
pub proof fn lemma_open_closes_once(native: NativeContainer, url: Seq<char>, calls: nat)
    requires
        native.streams.len() <= usize::MAX,
        calls >= 3 * native.streams.len() + 3,
    ensures
        OpeningView::start(url).closes(native, calls) == if native.outcome(url) is Failed
            && native.opened.code >= 0 {
            1nat
        } else {
            0nat
        },
{
    lemma_drive_from(native, OpeningView::start(url), url, calls);
}

/// Where a video or audio stream has no decoder, and nothing failed before
/// it, opening fails with the error that names that stream's codec.
pub proof fn lemma_open_without_decoder(
    native: NativeContainer,
    url: Seq<char>,
    calls: nat,
    k: int,
)
    requires
        native.streams.len() <= usize::MAX,
        calls >= 3 * native.streams.len() + 3,
        native.opened.code >= 0,
        native.probed.code >= 0,
        0 <= k < native.streams.len(),
        forall|j: int| 0 <= j < k ==> native.stream_error(j) is None,
        decodes(kind_of(native.streams[k].media_type)),
        !native.streams[k].decoder_found,
    ensures
        OpeningView::start(url).drive(native, calls) == OpenProgressView::Failed(
            ErrorView::NoDecoderFound(native.streams[k].codec_name),
        ),
{
    lemma_open_outcome(native, url, calls);
    lemma_first_stream_error(native, 0, k);
}

/// A container with a video or audio stream whose codec has no decoder does
/// not open, whatever else the framework answers.
pub proof fn lemma_open_fails_without_decoder(
    native: NativeContainer,
    url: Seq<char>,
    calls: nat,
    k: int,
)
    requires
        native.streams.len() <= usize::MAX,
        calls >= 3 * native.streams.len() + 3,
        0 <= k < native.streams.len(),
        decodes(kind_of(native.streams[k].media_type)),
        !native.streams[k].decoder_found,
    ensures
        OpeningView::start(url).drive(native, calls) is Failed,
{
    lemma_open_outcome(native, url, calls);
    lemma_some_stream_error(native, 0, k);
}

/// Where a stream at or after `from` has an error, there is a first one.
pub proof fn lemma_some_stream_error(native: NativeContainer, from: int, k: int)
    requires
        0 <= from <= k < native.streams.len(),
        native.stream_error(k) is Some,
    ensures
        native.first_stream_error(from) is Some,
    decreases k - from,
{
    if from < k && native.stream_error(from) is None {
        lemma_some_stream_error(native, from + 1, k);
    }
}

/// The first error from `from` on is that of stream `k` where no stream
/// between has one.
pub proof fn lemma_first_stream_error(native: NativeContainer, from: int, k: int)
    requires
        0 <= from <= k < native.streams.len(),
        forall|j: int| from <= j < k ==> native.stream_error(j) is None,
        native.stream_error(k) is Some,
    ensures
        native.first_stream_error(from) == native.stream_error(k),
    decreases k - from,
{
    if from < k {
        lemma_first_stream_error(native, from + 1, k);
    }
}

/// The decoder contexts held by the first `n` streams are those of the
/// streams among them that own a decoder, each listed once.
pub proof fn lemma_decoders_held(input: InputView, n: int)
    requires
        input.wf(),
        0 <= n <= input.streams.len(),
    ensures
        input.decoders_held(n).no_duplicates(),
        forall|r: Release| #[trigger]
            input.decoders_held(n).contains(r) <==> (r matches Release::Decoder(i) && i < n
                && input.streams[i as int].decoder is Some),
    decreases n,
{
    if n > 0 {
        lemma_decoders_held(input, n - 1);
        let before = input.decoders_held(n - 1);
        let stream = input.streams[n - 1];
        if stream.decoder is Some {
            let added = Release::Decoder(stream.index);
            let held = before.push(added);
            assert(held[before.len() as int] == added);
            assert forall|r: Release| #[trigger]
                held.contains(r) <==> (r matches Release::Decoder(i) && i < n
                    && input.streams[i as int].decoder is Some) by {
                if held.contains(r) {
                    let j = choose|j: int| 0 <= j < held.len() && held[j] == r;
                    if j < before.len() {
                        assert(before.contains(r));
                    }
                }
                if r matches Release::Decoder(i) && i < n && input.streams[i as int].decoder
                    is Some {
                    if r->Decoder_0 < n - 1 {
                        assert(before.contains(r));
                        let j = choose|j: int| 0 <= j < before.len() && before[j] == r;
                        assert(held[j] == r);
                    } else {
                        assert(r == added);
                    }
                }
            }
            assert forall|a: int, b: int|
                0 <= a < held.len() && 0 <= b < held.len() && a != b implies held[a]
                != held[b] by {
                if a < before.len() && b < before.len() {
                } else if a < before.len() {
                    assert(before.contains(before[a]));
                } else {
                    assert(before.contains(before[b]));
                }
            }
        }
    }
}

/// Destroying an input releases each native resource that it holds exactly
/// once: the decoder context of each video and audio stream, and the
/// container, and nothing else.
pub proof fn lemma_release_exactly_once(input: InputView)
    requires
        input.wf(),
    ensures
        input.release_plan().no_duplicates(),
        input.release_plan().contains(Release::Container),
        forall|i: int|
            0 <= i < input.streams.len() ==> (input.release_plan().contains(
                Release::Decoder(#[trigger] input.streams[i].index),
            ) <==> decodes(input.streams[i].kind)),
{
    let n = input.streams.len() as int;
    let held = input.decoders_held(n);
    let plan = input.release_plan();
    lemma_decoders_held(input, n);
    assert(plan[held.len() as int] == Release::Container);
    assert forall|a: int, b: int|
        0 <= a < plan.len() && 0 <= b < plan.len() && a != b implies plan[a] != plan[b] by {
        if a < held.len() && b < held.len() {
        } else if a < held.len() {
            assert(held.contains(held[a]));
        } else {
            assert(held.contains(held[b]));
        }
    }
    assert forall|i: int| 0 <= i < input.streams.len() implies (plan.contains(
        Release::Decoder(#[trigger] input.streams[i].index),
    ) <==> decodes(input.streams[i].kind)) by {
        let r = Release::Decoder(input.streams[i].index);
        if plan.contains(r) {
            let j = choose|j: int| 0 <= j < plan.len() && plan[j] == r;
            assert(held[j] == r);
            assert(held.contains(r));
        }
        if decodes(input.streams[i].kind) {
            assert(held.contains(r));
            let j = choose|j: int| 0 <= j < held.len() && held[j] == r;
            assert(plan[j] == r);
        }
    }
}

} // verus!
