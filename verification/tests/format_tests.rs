use scap::format::FormatEvent;
use scap::format::FormatFault;
use scap::format::LayoutCode;
use scap::format::NegotiatedFormat;
use scap::format::PixelLayout;
use scap::format::bytes_per_pixel;
use scap::format::on_format_changed;
use scap::offer::CaptureOptions;
use scap::offer::propose;

fn raw_video_event(layout: LayoutCode, width: u32, height: u32, modifier: u64) -> FormatEvent {
    FormatEvent { media_is_video: true, media_is_raw: true, layout, width, height, modifier }
}

#[test]
fn bytes_per_pixel_of_each_layout() {
    assert_eq!(bytes_per_pixel(PixelLayout::Rgb), 3);
    assert_eq!(bytes_per_pixel(PixelLayout::Rgba), 4);
    assert_eq!(bytes_per_pixel(PixelLayout::Rgbx), 4);
    assert_eq!(bytes_per_pixel(PixelLayout::Xbgr), 4);
    assert_eq!(bytes_per_pixel(PixelLayout::Bgrx), 4);
}

#[test]
fn frame_bytes_of_negotiated_format() {
    let f = NegotiatedFormat {
        layout: LayoutCode::Known { layout: PixelLayout::Rgbx },
        width: 640,
        height: 360,
        modifier: 0,
    };
    assert_eq!(f.frame_bytes(PixelLayout::Rgbx), 921_600);
    assert_eq!(f.frame_bytes(PixelLayout::Rgb), 691_200);
}

#[test]
fn frame_bytes_at_the_largest_offered_size() {
    let f = NegotiatedFormat {
        layout: LayoutCode::Known { layout: PixelLayout::Bgrx },
        width: 4096,
        height: 4096,
        modifier: 0,
    };
    assert_eq!(f.frame_bytes(PixelLayout::Bgrx), 67_108_864);
}

#[test]
fn non_video_report_is_ignored() {
    let mut ev = raw_video_event(LayoutCode::Known { layout: PixelLayout::Rgb }, 640, 360, 0);
    ev.media_is_video = false;
    assert_eq!(on_format_changed(&ev), Ok(None));
}

#[test]
fn compressed_video_report_is_ignored() {
    let mut ev = raw_video_event(LayoutCode::Known { layout: PixelLayout::Rgb }, 640, 360, 0);
    ev.media_is_raw = false;
    assert_eq!(on_format_changed(&ev), Ok(None));
}

#[test]
fn zero_width_is_a_format_fault() {
    let ev = raw_video_event(LayoutCode::Known { layout: PixelLayout::Rgb }, 0, 360, 0);
    assert_eq!(on_format_changed(&ev), Err(FormatFault::BadDimensions));
}

#[test]
fn oversized_height_is_a_format_fault() {
    let ev = raw_video_event(LayoutCode::Known { layout: PixelLayout::Rgb }, 640, 4097, 0);
    assert_eq!(on_format_changed(&ev), Err(FormatFault::BadDimensions));
}

#[test]
fn raw_video_report_becomes_the_negotiated_format() {
    let ev = raw_video_event(LayoutCode::Known { layout: PixelLayout::Bgrx }, 1920, 1080, 3);
    let f = on_format_changed(&ev).unwrap().unwrap();
    assert_eq!(f.layout, LayoutCode::Known { layout: PixelLayout::Bgrx });
    assert_eq!(f.width, 1920);
    assert_eq!(f.height, 1080);
    assert_eq!(f.modifier, 3);
}

#[test]
fn unrecognized_layout_still_parses() {
    let ev = raw_video_event(LayoutCode::Unrecognized, 640, 360, 0);
    let f = on_format_changed(&ev).unwrap().unwrap();
    assert_eq!(f.layout, LayoutCode::Unrecognized);
}

#[test]
fn offer_carries_the_fixed_preferences() {
    let o = propose(&CaptureOptions { fps: 30, show_cursor: true }, 64);
    assert_eq!(
        o.layouts,
        vec![PixelLayout::Rgb, PixelLayout::Rgba, PixelLayout::Rgbx, PixelLayout::Bgrx]
    );
    assert_eq!(o.size_default, 128);
    assert_eq!(o.size_min, 1);
    assert_eq!(o.size_max, 4096);
    assert_eq!(o.rate_default, 30);
    assert_eq!(o.rate_min, 0);
    assert_eq!(o.rate_max, 1000);
    assert_eq!(o.rate_denom, 1);
    assert_eq!(o.modifier, 0);
    assert_eq!(o.meta_header_size, 64);
}

#[test]
fn offer_clamps_the_target_rate() {
    let o = propose(&CaptureOptions { fps: 5000, show_cursor: false }, 64);
    assert_eq!(o.rate_default, 1000);
    let o = propose(&CaptureOptions { fps: 1000, show_cursor: false }, 64);
    assert_eq!(o.rate_default, 1000);
    let o = propose(&CaptureOptions { fps: 0, show_cursor: false }, 64);
    assert_eq!(o.rate_default, 0);
}
