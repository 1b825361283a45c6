//! Pixel layouts and the format settled by stream negotiation.

use vstd::prelude::*;

verus! {

/// Smallest frame edge the engine offers during negotiation.
pub const MIN_DIMENSION: u32 = 1;
/// Largest frame edge the engine offers during negotiation.
pub const MAX_DIMENSION: u32 = 4096;

/// Pixel layouts the dispatch stage can decode: packed RGB/BGR byte
/// orderings, three bytes per pixel or four with a padding/alpha byte.
#[derive(Clone, Copy, PartialEq, Eq, Structural, Debug)]
pub enum PixelLayout {
    Rgb,
    Rgba,
    Rgbx,
    Xbgr,
    Bgrx,
}

/// The pixel layout reported by the negotiation collaborator: either one of
/// the layouts this engine can decode, or something outside that set.
#[derive(Clone, Copy, PartialEq, Eq, Structural, Debug)]
pub enum LayoutCode {
    Known { layout: PixelLayout },
    Unrecognized,
}

/// Width of one pixel in bytes under a packed layout.
pub open spec fn spec_bytes_per_pixel(layout: PixelLayout) -> nat {
    match layout {
        PixelLayout::Rgb => 3,
        _ => 4,
    }
}

/// Width of one pixel in bytes under a packed layout.
pub fn bytes_per_pixel(layout: PixelLayout) -> (n: u32)
    ensures
        n == spec_bytes_per_pixel(layout),
{
    match layout {
        PixelLayout::Rgb => 3,
        PixelLayout::Rgba => 4,
        PixelLayout::Rgbx => 4,
        PixelLayout::Xbgr => 4,
        PixelLayout::Bgrx => 4,
    }
}

/// The format settled once per session by negotiation, immutable thereafter
/// and read by every later extraction and dispatch call.
#[derive(Clone, Copy, PartialEq, Eq, Structural, Debug)]
pub struct NegotiatedFormat {
    pub layout: LayoutCode,
    pub width: u32,
    pub height: u32,
    /// Tiling modifier; only 0 (linear) can be read as a flat byte sequence.
    pub modifier: u64,
}

impl NegotiatedFormat {
    /// Both dimensions lie inside the advertised size range.
    pub open spec fn wf(self) -> bool {
        &&& MIN_DIMENSION <= self.width <= MAX_DIMENSION
        &&& MIN_DIMENSION <= self.height <= MAX_DIMENSION
    }

    /// Exact byte count of one packed frame of this width and height.
    pub open spec fn spec_frame_bytes(self, layout: PixelLayout) -> nat {
        self.width as nat * self.height as nat * spec_bytes_per_pixel(layout)
    }

    /// Exact byte count of one packed frame of this width and height.
    pub fn frame_bytes(&self, layout: PixelLayout) -> (n: u32)
        requires
            self.wf(),
        ensures
            n == self.spec_frame_bytes(layout),
    {
        let bpp = bytes_per_pixel(layout);
        assert(self.width as int * self.height as int <= 4096 * 4096) by (nonlinear_arith)
            requires
                self.width <= 4096,
                self.height <= 4096,
        ;
        let pixels: u32 = self.width * self.height;
        assert(pixels as int * bpp as int <= 4096 * 4096 * 4) by (nonlinear_arith)
            requires
                pixels <= 4096 * 4096,
                bpp <= 4,
        ;
        pixels * bpp
    }
}

/// A format-changed report from the negotiation collaborator, already decoded
/// into plain values by the transport layer.
#[derive(Clone, Copy, Debug)]
pub struct FormatEvent {
    /// The reported media kind is video.
    pub media_is_video: bool,
    /// The reported media subkind is raw (uncompressed) frames.
    pub media_is_raw: bool,
    pub layout: LayoutCode,
    pub width: u32,
    pub height: u32,
    pub modifier: u64,
}

/// Why a format report could not become the session's negotiated format.
#[derive(Clone, Copy, PartialEq, Eq, Structural, Debug)]
pub enum FormatFault {
    /// A dimension lies outside the advertised size range.  Fatal to the
    /// session: it indicates an incompatible collaborator, and is not retried.
    BadDimensions,
}

impl FormatEvent {
    /// The report concerns raw video, the only media kind this engine handles.
    pub open spec fn is_raw_video(self) -> bool {
        self.media_is_video && self.media_is_raw
    }

    /// Dimensions lie inside the advertised size range.
    pub open spec fn dimensions_ok(self) -> bool {
        &&& MIN_DIMENSION <= self.width <= MAX_DIMENSION
        &&& MIN_DIMENSION <= self.height <= MAX_DIMENSION
    }
}

/// Handles a format-changed report: ignored unless it concerns raw video,
/// rejected if its dimensions fall outside the advertised range, and
/// otherwise parsed into the session's negotiated format.
pub fn on_format_changed(event: &FormatEvent) -> (r: Result<Option<NegotiatedFormat>, FormatFault>)
    ensures
        !event.is_raw_video() <==> r == Result::<Option<NegotiatedFormat>, FormatFault>::Ok(
            None::<NegotiatedFormat>,
        ),
        event.is_raw_video() && !event.dimensions_ok() <==> r == Result::<
            Option<NegotiatedFormat>,
            FormatFault,
        >::Err(FormatFault::BadDimensions),
        event.is_raw_video() && event.dimensions_ok() ==> (r matches Ok(Some(f)) && f
            == (NegotiatedFormat {
            layout: event.layout,
            width: event.width,
            height: event.height,
            modifier: event.modifier,
        }) && f.wf()),
{
    if !(event.media_is_video && event.media_is_raw) {
        return Ok(None);
    }
    if event.width < MIN_DIMENSION || event.width > MAX_DIMENSION || event.height < MIN_DIMENSION
        || event.height > MAX_DIMENSION {
        return Err(FormatFault::BadDimensions);
    }
    Ok(
        Some(
            NegotiatedFormat {
                layout: event.layout,
                width: event.width,
                height: event.height,
                modifier: event.modifier,
            },
        ),
    )
}

} // verus!
