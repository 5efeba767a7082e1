use rvis::channel::{FrameChannel, SendRejection};
use rvis::frame::SpectralFrame;

fn frame(tag: u32) -> SpectralFrame {
    SpectralFrame::new(vec![tag, tag + 1, tag + 2])
}

#[test]
fn fifo_order_no_loss_no_duplication() {
    let mut ch = FrameChannel::new(8);
    ch.try_send(frame(10)).unwrap();
    ch.try_send(frame(20)).unwrap();
    ch.try_send(frame(30)).unwrap();
    assert_eq!(ch.try_receive(), Some(frame(10)));
    assert_eq!(ch.try_receive(), Some(frame(20)));
    assert_eq!(ch.try_receive(), Some(frame(30)));
    assert_eq!(ch.try_receive(), None);
}

#[test]
fn capacity_one_still_ordered() {
    let mut ch = FrameChannel::new(1);
    ch.try_send(frame(1)).unwrap();
    // The producer is told to wait and gets the frame back untouched.
    match ch.try_send(frame(2)) {
        Err(SendRejection::Full(f)) => assert_eq!(f, frame(2)),
        other => panic!("a full channel must reject with Full, got {:?}", other.is_ok()),
    }
    assert_eq!(ch.try_receive(), Some(frame(1)));
    ch.try_send(frame(2)).unwrap();
    assert_eq!(ch.try_receive(), Some(frame(2)));
}

#[test]
fn receive_on_empty_never_blocks() {
    let mut ch = FrameChannel::new(4);
    assert_eq!(ch.try_receive(), None);
    assert_eq!(ch.len(), 0);
}

#[test]
fn closed_channel_fails_fast_but_drains() {
    let mut ch = FrameChannel::new(4);
    ch.try_send(frame(5)).unwrap();
    ch.close();
    match ch.try_send(frame(6)) {
        Err(SendRejection::Closed(f)) => assert_eq!(f, frame(6)),
        _ => panic!("a closed channel must reject every send"),
    }
    // What was queued before closing is still delivered, in order.
    assert_eq!(ch.try_receive(), Some(frame(5)));
    assert_eq!(ch.try_receive(), None);
}

#[test]
fn len_tracks_queue() {
    let mut ch = FrameChannel::new(3);
    assert_eq!(ch.len(), 0);
    ch.try_send(frame(0)).unwrap();
    ch.try_send(frame(1)).unwrap();
    assert_eq!(ch.len(), 2);
    ch.try_receive();
    assert_eq!(ch.len(), 1);
}
