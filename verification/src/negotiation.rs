//! What a capture stream asks of PipeWire: its properties, the formats that it offers, and the
//! order in which it is set up.
use vstd::prelude::*;
use vstd::string::*;

use crate::error::CaptureError;
use crate::spa::{
    SPA_VIDEO_FORMAT_BGRA, SPA_VIDEO_FORMAT_BGRX, SPA_VIDEO_FORMAT_RGBA, SPA_VIDEO_FORMAT_RGBX,
};

verus! {

/// The largest width and height that a stream offers to take.
pub const MAX_DIMENSION: u32 = 4096;

/// A size in pixels.
#[derive(Clone, Copy, Debug, PartialEq, Eq, Structural)]
pub struct Size {
    pub width: u32,
    pub height: u32,
}

/// Frames per second as a fraction.
#[derive(Clone, Copy, Debug, PartialEq, Eq, Structural)]
pub struct Framerate {
    pub num: u32,
    pub denom: u32,
}

/// Which way the data of a stream flows, as seen from the stream.
#[derive(Clone, Copy, Debug, PartialEq, Eq, Structural)]
pub enum Direction {
    /// The stream receives.
    Input,
    /// The stream sends.
    Output,
}

/// What a format describes.
#[derive(Clone, Copy, Debug, PartialEq, Eq, Structural)]
pub enum MediaType {
    Audio,
    Video,
    Image,
    Binary,
    Stream,
    Application,
}

/// How the media of a format is encoded.
#[derive(Clone, Copy, Debug, PartialEq, Eq, Structural)]
pub enum MediaSubtype {
    /// Not encoded.
    Raw,
    /// In the format of a signal processor.
    Dsp,
}

/// The formats that a stream offers.
#[derive(Debug)]
pub struct FormatOffer {
    pub media_type: MediaType,
    pub media_subtype: MediaSubtype,
    /// `SPA_VIDEO_FORMAT_*` identifier of the preferred pixel format.
    pub preferred_format: u32,
    /// `SPA_VIDEO_FORMAT_*` identifiers of all pixel formats, in order of preference.
    pub formats: Vec<u32>,
    pub preferred_size: Size,
    pub min_size: Size,
    pub max_size: Size,
    pub preferred_rate: Framerate,
    pub min_rate: Framerate,
    pub max_rate: Framerate,
}

impl FormatOffer {
    /// Whether a negotiated format is one of those offered.
    pub open spec fn allows(self, format: crate::frame::FrameFormat) -> bool {
        &&& self.formats@.contains(format.pixel_format)
        &&& self.min_size.width <= format.width <= self.max_size.width
        &&& self.min_size.height <= format.height <= self.max_size.height
    }

    /// The offer that every stream makes.
    pub open spec fn is_standard(self) -> bool {
        &&& self.media_type == MediaType::Video
        &&& self.media_subtype == MediaSubtype::Raw
        &&& self.preferred_format == SPA_VIDEO_FORMAT_BGRX
        &&& self.formats@ == seq![
            SPA_VIDEO_FORMAT_BGRX,
            SPA_VIDEO_FORMAT_BGRA,
            SPA_VIDEO_FORMAT_RGBX,
            SPA_VIDEO_FORMAT_RGBA,
        ]
        &&& self.preferred_size == (Size { width: 1920, height: 1080 })
        &&& self.min_size == (Size { width: 1, height: 1 })
        &&& self.max_size == (Size { width: MAX_DIMENSION, height: MAX_DIMENSION })
        &&& self.preferred_rate == (Framerate { num: 60, denom: 1 })
        &&& self.min_rate == (Framerate { num: 0, denom: 1 })
        &&& self.max_rate == (Framerate { num: 1000, denom: 1 })
    }
}

/// Everything that a capture stream asks of PipeWire.
#[derive(Debug)]
pub struct StreamRequest {
    pub name: &'static str,
    pub media_type: &'static str,
    pub media_category: &'static str,
    pub media_role: &'static str,
    pub direction: Direction,
    /// The node to connect to.
    pub node_id: u32,
    /// Have the stream connected to the node automatically.
    pub autoconnect: bool,
    /// Have buffers mapped into memory.
    pub map_buffers: bool,
    pub offer: FormatOffer,
}

/// The formats that a stream offers.
pub fn format_offer() -> (offer: FormatOffer)
    ensures
        offer.is_standard(),
{
    let formats: Vec<u32> = vec![
        SPA_VIDEO_FORMAT_BGRX,
        SPA_VIDEO_FORMAT_BGRA,
        SPA_VIDEO_FORMAT_RGBX,
        SPA_VIDEO_FORMAT_RGBA,
    ];
    assert(formats@ =~= seq![
        SPA_VIDEO_FORMAT_BGRX,
        SPA_VIDEO_FORMAT_BGRA,
        SPA_VIDEO_FORMAT_RGBX,
        SPA_VIDEO_FORMAT_RGBA,
    ]);
    FormatOffer {
        media_type: MediaType::Video,
        media_subtype: MediaSubtype::Raw,
        preferred_format: SPA_VIDEO_FORMAT_BGRX,
        formats,
        preferred_size: Size { width: 1920, height: 1080 },
        min_size: Size { width: 1, height: 1 },
        max_size: Size { width: MAX_DIMENSION, height: MAX_DIMENSION },
        preferred_rate: Framerate { num: 60, denom: 1 },
        min_rate: Framerate { num: 0, denom: 1 },
        max_rate: Framerate { num: 1000, denom: 1 },
    }
}

/// The request for a capture stream on a node.
pub fn stream_request(node_id: u32) -> (request: StreamRequest)
    ensures
        request.name@ == "pipewire-capture"@,
        request.media_type@ == "Video"@,
        request.media_category@ == "Capture"@,
        request.media_role@ == "Screen"@,
        request.direction == Direction::Input,
        request.node_id == node_id,
        request.autoconnect,
        request.map_buffers,
        request.offer.is_standard(),
{
    StreamRequest {
        name: "pipewire-capture",
        media_type: "Video",
        media_category: "Capture",
        media_role: "Screen",
        direction: Direction::Input,
        node_id,
        autoconnect: true,
        map_buffers: true,
        offer: format_offer(),
    }
}

/// The steps that set a stream up.
#[derive(Clone, Copy, Debug, PartialEq, Eq, Structural)]
pub enum SetupStep {
    /// Create the stream with its properties.
    CreateStream,
    /// Register the callbacks.
    RegisterListener,
    /// Serialize the offered formats.
    SerializeFormats,
    /// Connect to the node.
    Connect,
    /// The stream is set up.
    Ready,
}

impl SetupStep {
    /// The step that follows a successful one.
    pub open spec fn successor(self) -> SetupStep {
        match self {
            SetupStep::CreateStream => SetupStep::RegisterListener,
            SetupStep::RegisterListener => SetupStep::SerializeFormats,
            SetupStep::SerializeFormats => SetupStep::Connect,
            SetupStep::Connect => SetupStep::Ready,
            SetupStep::Ready => SetupStep::Ready,
        }
    }

    /// The text of the error that a failed step gives.
    pub open spec fn failure(self, cause: Seq<char>) -> Seq<char> {
        match self {
            SetupStep::SerializeFormats => "Failed to serialize format params: "@ + cause,
            _ => cause,
        }
    }

    /// How many steps are left.
    pub open spec fn remaining(self) -> nat {
        match self {
            SetupStep::CreateStream => 4,
            SetupStep::RegisterListener => 3,
            SetupStep::SerializeFormats => 2,
            SetupStep::Connect => 1,
            SetupStep::Ready => 0,
        }
    }
}

/// Decides what follows a step of setting a stream up, given how it went.
pub fn setup_stream(step: SetupStep, outcome: Result<(), String>) -> (next: Result<
    SetupStep,
    CaptureError,
>)
    ensures
        match (step, outcome) {
            (SetupStep::Ready, _) => next == Ok::<SetupStep, CaptureError>(SetupStep::Ready),
            (_, Ok(_)) => next == Ok::<SetupStep, CaptureError>(step.successor()),
            (_, Err(cause)) => next matches Err(error) && error@
                == crate::error::ErrorView::PipeWire(step.failure(cause@)),
        },
{
    match outcome {
        Ok(()) => Ok(
            match step {
                SetupStep::CreateStream => SetupStep::RegisterListener,
                SetupStep::RegisterListener => SetupStep::SerializeFormats,
                SetupStep::SerializeFormats => SetupStep::Connect,
                SetupStep::Connect => SetupStep::Ready,
                SetupStep::Ready => SetupStep::Ready,
            },
        ),
        Err(cause) => match step {
            SetupStep::Ready => Ok(SetupStep::Ready),
            SetupStep::SerializeFormats => {
                let text: String = "Failed to serialize format params: ".to_owned().concat(
                    cause.as_str(),
                );
                Err(CaptureError::PipeWire(text))
            },
            _ => Err(CaptureError::PipeWire(cause)),
        },
    }
}

/// Law: every format that a stream offers is one that frames are copied from, and no frame of
/// an offered size overflows.
pub proof fn law_offered_formats_can_be_copied(
    offer: FormatOffer,
    format: crate::frame::FrameFormat,
)
    requires
        offer.is_standard(),
        offer.allows(format),
    ensures
        crate::frame::is_supported(format.pixel_format),
        0 < format.byte_count() <= MAX_DIMENSION * MAX_DIMENSION * 4 <= usize::MAX,
{
    let formats = offer.formats@;
    let k = choose|k: int| 0 <= k < formats.len() && formats[k] == format.pixel_format;
    assert(k == 0 || k == 1 || k == 2 || k == 3);
    assert(1 <= format.width * format.height <= 4096 * 4096) by (nonlinear_arith)
        requires
            1 <= format.width <= 4096,
            1 <= format.height <= 4096,
    ;
}

/// Law: a buffer that holds a whole tightly packed frame of an offered format is copied, unless
/// there is no memory for the copy.
pub proof fn law_offered_frame_is_not_rejected(
    offer: FormatOffer,
    format: crate::frame::FrameFormat,
    memory_len: nat,
    chunk: crate::spa::Chunk,
)
    requires
        offer.is_standard(),
        offer.allows(format),
        chunk.stride == 0,
        chunk.offset == 0,
        chunk.size >= format.byte_count(),
        memory_len >= format.byte_count(),
    ensures
        crate::frame::rejection(memory_len, chunk, format) is None,
{
    law_offered_formats_can_be_copied(offer, format);
    let row_bytes: int = format.row_bytes() as int;
    assert(format.width * format.height * 4 == (format.height - 1) * row_bytes + row_bytes)
        by (nonlinear_arith)
        requires
            row_bytes == format.width * 4,
    ;
    assert(0 <= (format.height - 1) * row_bytes) by (nonlinear_arith)
        requires
            format.height >= 1,
            row_bytes >= 0,
    ;
}

/// Law: setting a stream up takes at most four steps. Each step that succeeds leaves one fewer.
pub proof fn law_setup_makes_progress(step: SetupStep)
    ensures
        step.remaining() <= 4,
        step != SetupStep::Ready ==> step.successor().remaining() == step.remaining() - 1,
        step.remaining() == 0 <==> step == SetupStep::Ready,
{
}

/// Law: the standard offer is raw video in BGRx, BGRA, RGBx or RGBA, of any size up to 4096 by
/// 4096 and at most 1000 frames per second, preferably BGRx in full HD at 60 frames per second.
pub proof fn law_standard_offer_in_numbers(offer: FormatOffer, format: crate::frame::FrameFormat)
    requires
        offer.is_standard(),
    ensures
        offer.media_type is Video && offer.media_subtype is Raw,
        offer.preferred_format == 8,
        offer.formats@ == seq![8u32, 12u32, 7u32, 11u32],
        offer.preferred_size.width == 1920 && offer.preferred_size.height == 1080,
        offer.min_size.width == 1 && offer.min_size.height == 1,
        offer.max_size.width == 4096 && offer.max_size.height == 4096,
        offer.preferred_rate.num == 60 && offer.preferred_rate.denom == 1,
        offer.min_rate.num == 0 && offer.min_rate.denom == 1,
        offer.max_rate.num == 1000 && offer.max_rate.denom == 1,
        offer.allows(format) <==> {
            &&& format.pixel_format == 7 || format.pixel_format == 8 || format.pixel_format == 11
                || format.pixel_format == 12
            &&& 1 <= format.width <= 4096
            &&& 1 <= format.height <= 4096
        },
{
    let formats = offer.formats@;
    assert(formats =~= seq![8u32, 12u32, 7u32, 11u32]);
    assert(formats[0] == 8 && formats[1] == 12 && formats[2] == 7 && formats[3] == 11);
    if formats.contains(format.pixel_format) {
        let k = choose|k: int| 0 <= k < formats.len() && formats[k] == format.pixel_format;
        assert(k == 0 || k == 1 || k == 2 || k == 3);
    }
}

/// Law: a stream is created, given its callbacks, offered its formats and connected, in this
/// order. A failure is told in its own words; only that of the formats says more.
pub proof fn law_setup_in_order(cause: Seq<char>)
    ensures
        SetupStep::CreateStream.successor() == SetupStep::RegisterListener,
        SetupStep::RegisterListener.successor() == SetupStep::SerializeFormats,
        SetupStep::SerializeFormats.successor() == SetupStep::Connect,
        SetupStep::Connect.successor() == SetupStep::Ready,
        SetupStep::Ready.successor() == SetupStep::Ready,
        SetupStep::CreateStream.failure(cause) == cause,
        SetupStep::RegisterListener.failure(cause) == cause,
        SetupStep::SerializeFormats.failure(cause) == "Failed to serialize format params: "@
            + cause,
        SetupStep::Connect.failure(cause) == cause,
{
}

} // verus!
