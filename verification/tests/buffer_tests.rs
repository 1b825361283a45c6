use scap::buffer::BufferDescriptor;
use scap::buffer::BufferFault;
use scap::buffer::ExtractPlan;
use scap::buffer::MetaEntry;
use scap::buffer::MetaKind;
use scap::buffer::Transport;
use scap::buffer::display_time_of;
use scap::buffer::dma_map_len;
use scap::buffer::dma_map_len_host;
use scap::buffer::plan_extraction;
use scap::buffer::timestamp_of;
use scap::format::LayoutCode;
use scap::format::NegotiatedFormat;
use scap::format::PixelLayout;

fn format_with_modifier(modifier: u64) -> NegotiatedFormat {
    NegotiatedFormat {
        layout: LayoutCode::Known { layout: PixelLayout::Rgbx },
        width: 640,
        height: 360,
        modifier,
    }
}

fn descriptor(transport: Transport, n_datas: u32) -> BufferDescriptor {
    BufferDescriptor { transport, n_datas, declared_len: 921_600, offset: 4096, fd: 7, metas: vec![] }
}

#[test]
fn timestamp_of_empty_meta_list_is_zero() {
    assert_eq!(timestamp_of(&vec![]), 0);
}

#[test]
fn timestamp_of_list_without_header_is_zero() {
    let metas = vec![MetaEntry { kind: MetaKind::Other, pts: 99 }];
    assert_eq!(timestamp_of(&metas), 0);
}

#[test]
fn timestamp_comes_from_the_first_header_entry() {
    let metas = vec![
        MetaEntry { kind: MetaKind::Other, pts: 99 },
        MetaEntry { kind: MetaKind::Header, pts: 12345 },
        MetaEntry { kind: MetaKind::Header, pts: 777 },
    ];
    assert_eq!(timestamp_of(&metas), 12345);
}

#[test]
fn display_time_clamps_unavailable_timestamps() {
    assert_eq!(display_time_of(-3), 0);
    assert_eq!(display_time_of(0), 0);
    assert_eq!(display_time_of(12345), 12345);
}

#[test]
fn buffer_without_data_plane_is_skipped() {
    let desc = descriptor(Transport::MemPtr, 0);
    assert_eq!(plan_extraction(&desc, &format_with_modifier(0)), Ok(ExtractPlan::Skip));
}

#[test]
fn pointer_and_shared_memory_read_the_declared_capacity() {
    let desc = descriptor(Transport::MemPtr, 1);
    assert_eq!(
        plan_extraction(&desc, &format_with_modifier(0)),
        Ok(ExtractPlan::ReadMapped { len: 921_600 })
    );
    let desc = descriptor(Transport::MemFd, 1);
    assert_eq!(
        plan_extraction(&desc, &format_with_modifier(0)),
        Ok(ExtractPlan::ReadMapped { len: 921_600 })
    );
}

#[test]
fn dma_buffer_plans_a_bracketed_read() {
    let desc = descriptor(Transport::DmaBuf, 1);
    assert_eq!(
        plan_extraction(&desc, &format_with_modifier(0)),
        Ok(ExtractPlan::ReadDma { fd: 7, offset: 4096 })
    );
}

#[test]
fn tiled_dma_buffer_is_refused() {
    let desc = descriptor(Transport::DmaBuf, 1);
    assert_eq!(
        plan_extraction(&desc, &format_with_modifier(42)),
        Err(BufferFault::UnsupportedModifier)
    );
}

#[test]
fn unrecognized_transport_is_refused() {
    let desc = descriptor(Transport::Unrecognized, 1);
    assert_eq!(
        plan_extraction(&desc, &format_with_modifier(0)),
        Err(BufferFault::UnsupportedTransport)
    );
}

#[test]
fn dma_map_len_rounds_up_to_whole_pages() {
    assert_eq!(dma_map_len(100, 4096), Some(4096));
    assert_eq!(dma_map_len(4096, 4096), Some(4096));
    assert_eq!(dma_map_len(4097, 4096), Some(8192));
    assert_eq!(dma_map_len(0, 4096), Some(0));
}

#[test]
fn dma_map_len_refuses_a_negative_size() {
    assert_eq!(dma_map_len(-1, 4096), None);
}

#[test]
fn dma_map_len_succeeds_for_any_nonnegative_size() {
    // The rounded length of the largest possible allocation still fits.
    assert_eq!(dma_map_len(i64::MAX, 4096), Some(9_223_372_036_854_775_808));
    assert_eq!(dma_map_len(i64::MAX, u64::MAX), Some(u64::MAX));
    assert_eq!(dma_map_len(1, u64::MAX), Some(u64::MAX));
}

#[test]
fn dma_map_len_host_covers_the_allocation() {
    let n = dma_map_len_host(4097).unwrap();
    assert!(n >= 4097);
    assert_eq!(dma_map_len_host(0), Some(0));
    assert_eq!(dma_map_len_host(-1), None);
}
