use std::sync::mpsc;
use std::time::Duration;

use scap::buffer::BufferDescriptor;
use scap::buffer::BufferFault;
use scap::buffer::MetaEntry;
use scap::buffer::MetaKind;
use scap::buffer::Transport;
use scap::dispatch::dispatch_and_send;
use scap::dispatch::Frame;
use scap::dispatch::SendResult;
use scap::format::LayoutCode;
use scap::format::NegotiatedFormat;
use scap::format::PixelLayout;
use scap::pipeline::process_and_deliver;
use scap::pipeline::DeliveryOutcome;

fn rgb_format() -> NegotiatedFormat {
    NegotiatedFormat {
        layout: LayoutCode::Known { layout: PixelLayout::Rgb },
        width: 2,
        height: 1,
        modifier: 0,
    }
}

#[test]
fn delivered_frame_reaches_the_consumer_promptly() {
    let (tx, rx) = mpsc::channel::<Frame>();
    let r = dispatch_and_send(&rgb_format(), vec![1, 2, 3, 4, 5, 6], 77, &tx);
    assert!(matches!(r, Ok(SendResult::Delivered)));
    let frame = rx.recv_timeout(Duration::from_millis(500)).unwrap();
    match frame {
        Frame::Rgb(payload) => {
            assert_eq!(payload.data, vec![1, 2, 3, 4, 5, 6]);
            assert_eq!(payload.display_time, 77);
        }
        other => panic!("expected an RGB frame, got {:?}", other),
    }
}

#[test]
fn disconnected_consumer_hands_the_frame_back() {
    let (tx, rx) = mpsc::channel::<Frame>();
    drop(rx);
    let r = dispatch_and_send(&rgb_format(), vec![1, 2, 3, 4, 5, 6], 77, &tx);
    match r {
        Ok(SendResult::ConsumerGone(Frame::Rgb(payload))) => {
            assert_eq!(payload.data, vec![1, 2, 3, 4, 5, 6]);
        }
        other => panic!("expected the undelivered frame back, got {:?}", other),
    }
}

#[test]
fn dispatch_fault_sends_nothing() {
    let (tx, rx) = mpsc::channel::<Frame>();
    let r = dispatch_and_send(&rgb_format(), vec![1, 2], 0, &tx);
    assert!(matches!(r, Err(BufferFault::ShortPayload)));
    assert!(rx.try_recv().is_err());
}

fn pointer_descriptor(len: u32, pts: i64) -> BufferDescriptor {
    BufferDescriptor {
        transport: Transport::MemPtr,
        n_datas: 1,
        declared_len: len,
        offset: 0,
        fd: -1,
        metas: vec![MetaEntry { kind: MetaKind::Header, pts }],
    }
}

#[test]
fn full_iteration_delivers_the_frame() {
    let (tx, rx) = mpsc::channel::<Frame>();
    let step =
        process_and_deliver(&pointer_descriptor(6, 42), Ok(vec![9; 6]), &rgb_format(), &tx);
    assert!(matches!(step.outcome, DeliveryOutcome::Delivered));
    assert!(step.requeue);
    let frame = rx.recv_timeout(Duration::from_millis(500)).unwrap();
    match frame {
        Frame::Rgb(payload) => {
            assert_eq!(payload.data, vec![9; 6]);
            assert_eq!(payload.display_time, 42);
        }
        other => panic!("expected an RGB frame, got {:?}", other),
    }
}

#[test]
fn full_iteration_survives_a_gone_consumer() {
    let (tx, rx) = mpsc::channel::<Frame>();
    drop(rx);
    let step =
        process_and_deliver(&pointer_descriptor(6, 42), Ok(vec![9; 6]), &rgb_format(), &tx);
    match step.outcome {
        DeliveryOutcome::ConsumerGone(Frame::Rgb(payload)) => {
            assert_eq!(payload.data, vec![9; 6]);
        }
        other => panic!("expected the undelivered frame back, got {:?}", other),
    }
    assert!(step.requeue);
}

#[test]
fn full_iteration_faults_and_skips_without_sending() {
    let (tx, rx) = mpsc::channel::<Frame>();
    let step = process_and_deliver(
        &pointer_descriptor(6, 42),
        Err(BufferFault::FileStatus),
        &rgb_format(),
        &tx,
    );
    assert!(matches!(step.outcome, DeliveryOutcome::Faulted(BufferFault::FileStatus)));
    assert!(step.requeue);

    let mut desc = pointer_descriptor(6, 42);
    desc.n_datas = 0;
    let step = process_and_deliver(&desc, Ok(vec![9; 6]), &rgb_format(), &tx);
    assert!(matches!(step.outcome, DeliveryOutcome::Skipped));
    assert!(step.requeue);

    assert!(rx.try_recv().is_err());
}
