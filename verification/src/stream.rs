//! Elementary streams: their kinds and the parameters of their codecs.

use vstd::prelude::*;
use vstd::string::*;

verus! {

/// The native framework's classification of a stream's payload.
#[derive(Clone, Copy, Debug, PartialEq, Eq)]
pub enum MediaType {
    Unknown,
    Video,
    Audio,
    Data,
    Subtitle,
    Attachment,
    Nb,
}

/// All the different kinds of multimedia streams.
#[derive(Clone, Copy, Debug, PartialEq, Eq)]
pub enum StreamKind {
    Unknown,
    Video,
    Audio,
    Subtitle,
}

/// The kind of stream that a native media type stands for.
pub open spec fn kind_of(media_type: MediaType) -> StreamKind {
    match media_type {
        MediaType::Video => StreamKind::Video,
        MediaType::Audio => StreamKind::Audio,
        MediaType::Subtitle => StreamKind::Subtitle,
        _ => StreamKind::Unknown,
    }
}

/// Whether streams of this kind get a decoder when an input is opened.
pub open spec fn decodes(kind: StreamKind) -> bool {
    kind == StreamKind::Video || kind == StreamKind::Audio
}

impl StreamKind {
    /// Classifies a native media type.
    pub fn from_media_type(media_type: MediaType) -> (kind: StreamKind)
        ensures
            kind == kind_of(media_type),
    {
        match media_type {
            MediaType::Video => StreamKind::Video,
            MediaType::Audio => StreamKind::Audio,
            MediaType::Subtitle => StreamKind::Subtitle,
            _ => StreamKind::Unknown,
        }
    }

    /// Whether streams of this kind are decoded: video and audio are.
    pub fn is_decoded(&self) -> (b: bool)
        ensures
            b == decodes(*self),
    {
        match *self {
            StreamKind::Video => true,
            StreamKind::Audio => true,
            _ => false,
        }
    }
}

/// A ratio of two integers, as the native framework stores time bases and
/// aspect ratios.
#[derive(Clone, Copy, Debug, PartialEq, Eq)]
pub struct Rational {
    pub num: i32,
    pub den: i32,
}

/// What an opened decoder context says of its stream.
#[derive(Clone, Copy, Debug, PartialEq, Eq)]
pub struct DecoderParams {
    pub width: i32,
    pub height: i32,
    pub sample_aspect_ratio: Rational,
    pub time_base: Rational,
    pub sample_rate: i32,
    pub channel_layout: u64,
    pub channels: i32,
    pub sample_format: i32,
}

/// The fields to set on a fresh encoder context before it is opened.
#[derive(Clone, Copy, Debug, PartialEq, Eq)]
pub enum EncoderSetup {
    Video {
        width: i32,
        height: i32,
        sample_aspect_ratio: Rational,
        time_base: Rational,
        /// The pixel format to set; `None` leaves the context's own.
        pixel_format: Option<i32>,
    },
    Audio {
        sample_rate: i32,
        channel_layout: u64,
        channels: i32,
        sample_format: i32,
        time_base: Rational,
    },
}

/// The encoder setup that re-encodes a stream of the given kind as it was
/// decoded: the picture's geometry and timing for video, the sampling
/// parameters and timing for audio. Video takes the first pixel format that
/// the encoder lists, where it lists any. Other kinds have no setup.
pub open spec fn encoder_setup(
    kind: StreamKind,
    decoder: DecoderParams,
    first_pixel_format: Option<i32>,
) -> Option<EncoderSetup> {
    match kind {
        StreamKind::Video => Some(
            EncoderSetup::Video {
                width: decoder.width,
                height: decoder.height,
                sample_aspect_ratio: decoder.sample_aspect_ratio,
                time_base: decoder.time_base,
                pixel_format: first_pixel_format,
            },
        ),
        StreamKind::Audio => Some(
            EncoderSetup::Audio {
                sample_rate: decoder.sample_rate,
                channel_layout: decoder.channel_layout,
                channels: decoder.channels,
                sample_format: decoder.sample_format,
                time_base: decoder.time_base,
            },
        ),
        _ => None,
    }
}

/// Computes the setup of the encoder for a decoded stream.
pub fn prepare_encoder(
    kind: StreamKind,
    decoder: &DecoderParams,
    first_pixel_format: Option<i32>,
) -> (setup: Option<EncoderSetup>)
    ensures
        setup == encoder_setup(kind, *decoder, first_pixel_format),
{
    match kind {
        StreamKind::Video => Some(
            EncoderSetup::Video {
                width: decoder.width,
                height: decoder.height,
                sample_aspect_ratio: decoder.sample_aspect_ratio,
                time_base: decoder.time_base,
                pixel_format: first_pixel_format,
            },
        ),
        StreamKind::Audio => Some(
            EncoderSetup::Audio {
                sample_rate: decoder.sample_rate,
                channel_layout: decoder.channel_layout,
                channels: decoder.channels,
                sample_format: decoder.sample_format,
                time_base: decoder.time_base,
            },
        ),
        _ => None,
    }
}

/// Represents a multimedia stream in an input source.
#[derive(Debug, PartialEq, Eq)]
pub struct Stream {
    /// The stream's position in its container.
    pub index: usize,
    pub kind: StreamKind,
    pub codec_name: String,
    /// The decoder context, present once a decoder was opened for the stream.
    pub decoder: Option<DecoderParams>,
}

/// The mathematical value of a [`Stream`].
pub struct StreamView {
    pub index: usize,
    pub kind: StreamKind,
    pub codec_name: Seq<char>,
    pub decoder: Option<DecoderParams>,
}

impl StreamView {
    /// A stream owns a decoder context exactly when its kind is decoded.
    pub open spec fn wf(self) -> bool {
        self.decoder.is_some() == decodes(self.kind)
    }
}

impl View for Stream {
    type V = StreamView;

    open spec fn view(&self) -> StreamView {
        StreamView {
            index: self.index,
            kind: self.kind,
            codec_name: self.codec_name@,
            decoder: self.decoder,
        }
    }
}

/// The values of a sequence of streams, in order.
pub open spec fn stream_views(streams: Seq<Stream>) -> Seq<StreamView> {
    Seq::new(streams.len(), |i: int| streams[i]@)
}

impl Stream {
    /// Return the kind of a stream.
    pub fn kind(&self) -> (kind: StreamKind)
        ensures
            kind == self@.kind,
    {
        self.kind
    }

    /// Return the name of the codec associated with a stream.
    pub fn codec(&self) -> (name: &str)
        ensures
            name@ == self@.codec_name,
    {
        self.codec_name.as_str()
    }

    /// A copy of the stream's description.
    pub fn duplicate(&self) -> (copy: Stream)
        ensures
            copy@ == self@,
    {
        Stream {
            index: self.index,
            kind: self.kind,
            codec_name: self.codec_name.clone(),
            decoder: self.decoder,
        }
    }
}

/// Copies a list of streams.
pub fn duplicate_streams(streams: &Vec<Stream>) -> (copy: Vec<Stream>)
    ensures
        stream_views(copy@) == stream_views(streams@),
{
    let mut copy: Vec<Stream> = Vec::new();
    let mut i: usize = 0;
    while i < streams.len()
        invariant
            i <= streams.len(),
            copy@.len() == i,
            forall|j: int| 0 <= j < i ==> copy@[j]@ == streams@[j]@,
        decreases streams.len() - i,
    {
        copy.push(streams[i].duplicate());
        i += 1;
    }
    assert(stream_views(copy@) =~= stream_views(streams@));
    copy
}

} // verus!
