//! Mapping extracted bytes onto the closed set of tagged frame variants.

use vstd::prelude::*;

use crate::buffer::BufferFault;
use crate::format::LayoutCode;
use crate::format::NegotiatedFormat;
use crate::format::PixelLayout;

verus! {

/// The payload every frame variant carries: a presentation timestamp,
/// dimensions, and exactly one frame's worth of packed pixel bytes.
#[derive(Clone, Debug)]
pub struct FrameData {
    /// Monotonic, collaborator-supplied; 0 when unavailable.
    pub display_time: u64,
    pub width: u32,
    pub height: u32,
    pub data: Vec<u8>,
}

/// A decoded frame, tagged with its pixel layout.  An alpha layout is
/// delivered as the matching padded variant: its fourth byte is read as
/// padding.
#[derive(Clone, Debug)]
pub enum Frame {
    Rgb(FrameData),
    Rgbx(FrameData),
    Xbgr(FrameData),
    Bgrx(FrameData),
}

/// The tag of a frame variant, apart from its payload.
#[derive(Clone, Copy, PartialEq, Eq, Structural, Debug)]
pub enum FrameTag {
    Rgb,
    Rgbx,
    Xbgr,
    Bgrx,
}

/// The variant a pixel layout is dispatched to.
pub open spec fn spec_tag_of_layout(layout: PixelLayout) -> FrameTag {
    match layout {
        PixelLayout::Rgb => FrameTag::Rgb,
        PixelLayout::Rgba => FrameTag::Rgbx,
        PixelLayout::Rgbx => FrameTag::Rgbx,
        PixelLayout::Xbgr => FrameTag::Xbgr,
        PixelLayout::Bgrx => FrameTag::Bgrx,
    }
}

impl Frame {
    /// The variant tag of this frame.
    pub open spec fn spec_tag(self) -> FrameTag {
        match self {
            Frame::Rgb(_) => FrameTag::Rgb,
            Frame::Rgbx(_) => FrameTag::Rgbx,
            Frame::Xbgr(_) => FrameTag::Xbgr,
            Frame::Bgrx(_) => FrameTag::Bgrx,
        }
    }

    /// The payload of this frame, whichever variant carries it.
    pub open spec fn spec_payload(self) -> FrameData {
        match self {
            Frame::Rgb(d) => d,
            Frame::Rgbx(d) => d,
            Frame::Xbgr(d) => d,
            Frame::Bgrx(d) => d,
        }
    }

    /// The variant tag of this frame.
    pub fn tag(&self) -> (t: FrameTag)
        ensures
            t == self.spec_tag(),
    {
        match self {
            Frame::Rgb(_) => FrameTag::Rgb,
            Frame::Rgbx(_) => FrameTag::Rgbx,
            Frame::Xbgr(_) => FrameTag::Xbgr,
            Frame::Bgrx(_) => FrameTag::Bgrx,
        }
    }

    /// The payload of this frame, whichever variant carries it.
    pub fn payload(&self) -> (d: &FrameData)
        ensures
            *d == self.spec_payload(),
    {
        match self {
            Frame::Rgb(d) => d,
            Frame::Rgbx(d) => d,
            Frame::Xbgr(d) => d,
            Frame::Bgrx(d) => d,
        }
    }
}

/// What a successful dispatch promises of the produced frame: the variant
/// matches the layout, dimensions and timestamp are carried over, and the
/// payload is exactly the first frame's worth of the extracted bytes.
pub open spec fn spec_frame_ok(
    frame: Frame,
    layout: PixelLayout,
    format: NegotiatedFormat,
    display_time: u64,
    data: Seq<u8>,
) -> bool {
    &&& frame.spec_tag() == spec_tag_of_layout(layout)
    &&& frame.spec_payload().width == format.width
    &&& frame.spec_payload().height == format.height
    &&& frame.spec_payload().display_time == display_time
    &&& frame.spec_payload().data@ == data.take(format.spec_frame_bytes(layout) as int)
    &&& frame.spec_payload().data@.len() == format.spec_frame_bytes(layout)
}

/// The whole dispatch contract: an unrecognized layout is refused, a byte
/// sequence shorter than one frame is refused, and anything else yields the
/// frame that `spec_frame_ok` describes.
pub open spec fn spec_dispatch_result(
    format: NegotiatedFormat,
    data: Seq<u8>,
    display_time: u64,
    r: Result<Frame, BufferFault>,
) -> bool {
    match format.layout {
        LayoutCode::Unrecognized => r == Err::<Frame, BufferFault>(BufferFault::UnsupportedLayout),
        LayoutCode::Known { layout } => {
            if data.len() < format.spec_frame_bytes(layout) {
                r == Err::<Frame, BufferFault>(BufferFault::ShortPayload)
            } else {
                r matches Ok(frame) && spec_frame_ok(frame, layout, format, display_time, data)
            }
        },
    }
}

/// The one-producer channel of tagged frames that crosses from the capture
/// loop to the consumer.
#[verifier::external_type_specification]
#[verifier::external_body]
#[verifier::reject_recursive_types(T)]
pub struct ExSender<T>(std::sync::mpsc::Sender<T>);

/// Relies on `std::sync::mpsc::Sender::send`: it fails only when the
/// receiver has disconnected, and its error carries the unsent value, which
/// comes back here unchanged.
#[verifier::external_body]
fn send_frame(tx: &std::sync::mpsc::Sender<Frame>, frame: Frame) -> (r: Result<(), Frame>)
    ensures
        r matches Err(back) ==> back == frame,
{
    match tx.send(frame) {
        Ok(()) => Ok(()),
        Err(e) => Err(e.0),
    }
}

/// How handing one frame to the consumer went.
#[derive(Debug)]
pub enum SendResult {
    /// The consumer holds the frame now.
    Delivered,
    /// The consumer has disconnected: the undelivered frame comes back.
    /// This is non-fatal by design — capture keeps running, since a consumer
    /// may reconnect with a fresh receive.
    ConsumerGone(Frame),
}

/// Maps one extracted byte sequence onto its frame variant and hands the
/// frame to the consumer channel.  A dispatch fault is the caller's to
/// report; a send failure is not a fault at all.
pub fn dispatch_and_send(
    format: &NegotiatedFormat,
    data: Vec<u8>,
    display_time: u64,
    tx: &std::sync::mpsc::Sender<Frame>,
) -> (r: Result<SendResult, BufferFault>)
    requires
        format.wf(),
    ensures
        r matches Err(f) ==> spec_dispatch_result(
            *format,
            data@,
            display_time,
            Err::<Frame, BufferFault>(f),
        ),
        r matches Ok(SendResult::ConsumerGone(frame)) ==> spec_dispatch_result(
            *format,
            data@,
            display_time,
            Ok(frame),
        ),
        r matches Ok(SendResult::Delivered) ==> (exists|frame: Frame|
            spec_dispatch_result(*format, data@, display_time, Ok(frame))),
{
    let ghost extracted: Seq<u8> = data@;
    let frame = match dispatch(format, data, display_time) {
        Ok(frame) => frame,
        Err(f) => {
            return Err(f);
        },
    };
    proof {
        assert(spec_dispatch_result(*format, extracted, display_time, Ok(frame)));
    }
    match send_frame(tx, frame) {
        Ok(()) => Ok(SendResult::Delivered),
        Err(back) => Ok(SendResult::ConsumerGone(back)),
    }
}

/// Maps one extracted byte sequence onto the frame variant of the negotiated
/// pixel layout.  Layouts outside the supported set are refused, as are byte
/// sequences shorter than one full frame; anything past one frame's worth of
/// bytes is trailing allocation slack and is cut off.
pub fn dispatch(format: &NegotiatedFormat, data: Vec<u8>, display_time: u64) -> (r: Result<
    Frame,
    BufferFault,
>)
    requires
        format.wf(),
    ensures
        spec_dispatch_result(*format, data@, display_time, r),
{
    let layout = match format.layout {
        LayoutCode::Known { layout } => layout,
        LayoutCode::Unrecognized => {
            return Err(BufferFault::UnsupportedLayout);
        },
    };
    let need = format.frame_bytes(layout);
    if data.len() < need as usize {
        return Err(BufferFault::ShortPayload);
    }
    let ghost extracted: Seq<u8> = data@;
    let mut payload = data;
    payload.truncate(need as usize);
    proof {
        assert(payload@ =~= extracted.take(format.spec_frame_bytes(layout) as int));
    }
    let frame_data = FrameData {
        display_time,
        width: format.width,
        height: format.height,
        data: payload,
    };
    let frame = match layout {
        PixelLayout::Rgb => Frame::Rgb(frame_data),
        PixelLayout::Rgba => Frame::Rgbx(frame_data),
        PixelLayout::Rgbx => Frame::Rgbx(frame_data),
        PixelLayout::Xbgr => Frame::Xbgr(frame_data),
        PixelLayout::Bgrx => Frame::Bgrx(frame_data),
    };
    Ok(frame)
}

} // verus!
