//! Building the offer handed to the stream-negotiation collaborator.

use vstd::prelude::*;

use crate::format::MAX_DIMENSION;
use crate::format::MIN_DIMENSION;
use crate::format::PixelLayout;

verus! {

/// Largest frame-rate numerator the engine ever offers.
pub const MAX_RATE: u32 = 1000;

/// Default frame edge offered when the collaborator expresses no preference.
pub const DEFAULT_DIMENSION: u32 = 128;

/// What the caller configures before construction.
#[derive(Clone, Copy, PartialEq, Eq, Structural, Debug)]
pub struct CaptureOptions {
    /// Target frame rate; the offer clamps it to the allowed range.
    pub fps: u32,
    /// Desired cursor visibility, handed to the session portal.
    pub show_cursor: bool,
}

/// The set of acceptable parameters offered to the negotiation collaborator:
/// pixel layouts in preference order, a square size range with a default, a
/// frame-rate range, the linear tiling modifier, and a request for a
/// presentation-timestamp metadata block.
#[derive(Clone, Debug)]
pub struct StreamOffer {
    /// Acceptable pixel layouts; the order states preference.
    pub layouts: Vec<PixelLayout>,
    pub size_default: u32,
    pub size_min: u32,
    pub size_max: u32,
    /// Default frame-rate numerator, the caller's target clamped to
    /// `[0, MAX_RATE]`.
    pub rate_default: u32,
    pub rate_min: u32,
    pub rate_max: u32,
    /// Every offered rate is a whole number of frames per second.
    pub rate_denom: u32,
    /// The one tiling modifier the extraction engine can read: linear.
    pub modifier: u64,
    /// Size of the requested presentation-timestamp metadata block: the
    /// collaborator's native metadata-header size, queried by the caller.
    pub meta_header_size: u32,
}

/// The fixed list of pixel layouts the engine offers, most preferred first.
pub open spec fn spec_preferred_layouts() -> Seq<PixelLayout> {
    seq![PixelLayout::Rgb, PixelLayout::Rgba, PixelLayout::Rgbx, PixelLayout::Bgrx]
}

/// Builds the offer: the fixed layout preference list, the advertised size
/// range with its default, the target frame rate clamped to the allowed
/// range, the linear modifier, and the metadata-block request.
pub fn propose(options: &CaptureOptions, meta_header_size: u32) -> (o: StreamOffer)
    ensures
        o.layouts@ == spec_preferred_layouts(),
        o.size_default == DEFAULT_DIMENSION,
        o.size_min == MIN_DIMENSION,
        o.size_max == MAX_DIMENSION,
        o.rate_default == (if options.fps <= MAX_RATE {
            options.fps
        } else {
            MAX_RATE
        }),
        o.rate_min == 0,
        o.rate_max == MAX_RATE,
        o.rate_denom == 1,
        o.modifier == 0,
        o.meta_header_size == meta_header_size,
{
    let mut layouts: Vec<PixelLayout> = Vec::new();
    layouts.push(PixelLayout::Rgb);
    layouts.push(PixelLayout::Rgba);
    layouts.push(PixelLayout::Rgbx);
    layouts.push(PixelLayout::Bgrx);
    proof {
        assert(layouts@ =~= spec_preferred_layouts());
    }
    let rate_default = if options.fps <= MAX_RATE {
        options.fps
    } else {
        MAX_RATE
    };
    StreamOffer {
        layouts,
        size_default: DEFAULT_DIMENSION,
        size_min: MIN_DIMENSION,
        size_max: MAX_DIMENSION,
        rate_default,
        rate_min: 0,
        rate_max: MAX_RATE,
        rate_denom: 1,
        modifier: 0,
        meta_header_size,
    }
}

} // verus!
