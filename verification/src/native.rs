//! What the native framework answers to the calls that a session asks for.

use vstd::prelude::*;
use vstd::string::*;
use crate::error::{NativeStatus, StatusView};
use crate::stream::{DecoderParams, MediaType};

verus! {

/// The outcome of one native call, as plain values.
#[derive(Debug)]
pub enum Reply {
    /// A call that reports a status code returned.
    Status(NativeStatus),
    /// Stream probing returned; `streams` is the number of streams that the
    /// container then lists.
    Probed { status: NativeStatus, streams: usize },
    /// A stream was inspected: its media type and its codec's registry name.
    StreamInfo { media_type: MediaType, codec_name: String },
    /// A lookup or an allocation returned: a handle (`true`) or none.
    Found(bool),
    /// A decoder was asked to open; `params` is what its context then holds.
    DecoderOpened { status: NativeStatus, params: DecoderParams },
    /// An encoder was looked up. `first_pixel_format` is the first pixel format
    /// that the encoder lists, where it was found and lists any.
    EncoderLookup { found: bool, first_pixel_format: Option<i32> },
    /// The input container was closed.
    Closed,
}

/// The mathematical value of a [`Reply`].
pub enum ReplyView {
    Status(StatusView),
    Probed { status: StatusView, streams: usize },
    StreamInfo { media_type: MediaType, codec_name: Seq<char> },
    Found(bool),
    DecoderOpened { status: StatusView, params: DecoderParams },
    EncoderLookup { found: bool, first_pixel_format: Option<i32> },
    Closed,
}

impl View for Reply {
    type V = ReplyView;

    open spec fn view(&self) -> ReplyView {
        match *self {
            Reply::Status(status) => ReplyView::Status(status@),
            Reply::Probed { status, streams } => ReplyView::Probed { status: status@, streams },
            Reply::StreamInfo { media_type, codec_name } => ReplyView::StreamInfo {
                media_type,
                codec_name: codec_name@,
            },
            Reply::Found(found) => ReplyView::Found(found),
            Reply::DecoderOpened { status, params } => ReplyView::DecoderOpened {
                status: status@,
                params,
            },
            Reply::EncoderLookup { found, first_pixel_format } => ReplyView::EncoderLookup {
                found,
                first_pixel_format,
            },
            Reply::Closed => ReplyView::Closed,
        }
    }
}

} // verus!
