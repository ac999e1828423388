use std::time::Duration;

use renderd::decoder::{DecodedFrame, PixelFormat};
use renderd::frame_queue::FrameQueue;

fn make_test_frame(frame_id: u64, pts_ns: u64) -> DecodedFrame {
    DecodedFrame {
        frame_id,
        pts_ns,
        width: 4,
        height: 4,
        format: PixelFormat::Bgra8,
        buffer: vec![0; 64],
        decode_duration: Duration::from_millis(1),
    }
}

#[test]
fn test_frame_queue_push_pop_overflow() {
    let mut queue = FrameQueue::new(2);
    assert!(queue.is_empty());

    assert!(!queue.push(make_test_frame(1, 100)));
    assert!(!queue.push(make_test_frame(2, 200)));
    assert_eq!(queue.len(), 2);

    assert!(queue.push(make_test_frame(3, 300)));
    assert_eq!(queue.len(), 2);

    let f2 = queue.pop().unwrap();
    assert_eq!(f2.frame_id, 2);

    let f3 = queue.pop().unwrap();
    assert_eq!(f3.frame_id, 3);
    assert!(queue.is_empty());
}

#[test]
fn test_frame_queue_drop_stale() {
    let mut queue = FrameQueue::new(5);
    queue.push(make_test_frame(1, 100));
    queue.push(make_test_frame(2, 200));
    queue.push(make_test_frame(3, 300));

    let dropped = queue.drop_stale(250);
    assert_eq!(dropped, 2);
    assert_eq!(queue.len(), 1);
    assert_eq!(queue.pop().unwrap().frame_id, 3);
}

#[test]
fn test_frame_queue_pop_latest() {
    let mut queue = FrameQueue::new(5);
    assert_eq!(queue.pop_latest(), (None, 0));

    queue.push(make_test_frame(1, 100));
    queue.push(make_test_frame(2, 200));
    queue.push(make_test_frame(3, 300));
    assert_eq!(queue.len(), 3);

    let (latest, stale) = queue.pop_latest();
    assert_eq!(latest.unwrap().frame_id, 3);
    assert_eq!(stale, 2);
    assert_eq!(queue.stale_dropped(), 2);
    assert!(queue.is_empty());
}

#[test]
fn zero_capacity_queue_still_holds_one_frame() {
    let mut queue = FrameQueue::new(0);
    assert!(!queue.push(make_test_frame(1, 10)));
    assert!(queue.push(make_test_frame(2, 20)));
    assert_eq!(queue.len(), 1);
    assert_eq!(queue.overflow_dropped(), 1);
    assert_eq!(queue.pop().unwrap().frame_id, 2);
}

#[test]
fn counters_account_for_every_pushed_frame() {
    let mut queue = FrameQueue::new(3);
    for id in 0..6u64 {
        queue.push(make_test_frame(id, id * 100));
    }
    let _ = queue.pop();
    queue.drop_stale(450);
    queue.push(make_test_frame(9, 900));
    let _ = queue.pop_latest();
    queue.push(make_test_frame(10, 1000));
    queue.clear();
    let accounted = queue.total_popped()
        + queue.stale_dropped()
        + queue.overflow_dropped()
        + queue.len() as u64;
    assert_eq!(accounted, queue.total_pushed());
    assert_eq!(queue.total_pushed(), 8);
}

#[test]
fn clear_counts_held_frames_as_stale() {
    let mut queue = FrameQueue::new(4);
    queue.push(make_test_frame(1, 1));
    queue.push(make_test_frame(2, 2));
    queue.clear();
    assert!(queue.is_empty());
    assert_eq!(queue.stale_dropped(), 2);
    assert_eq!(queue.total_popped(), 0);
}

#[test]
fn drop_stale_keeps_order_of_fresh_frames() {
    let mut queue = FrameQueue::new(5);
    queue.push(make_test_frame(1, 500));
    queue.push(make_test_frame(2, 100));
    queue.push(make_test_frame(3, 700));
    assert_eq!(queue.drop_stale(400), 1);
    assert_eq!(queue.pop().unwrap().frame_id, 1);
    assert_eq!(queue.pop().unwrap().frame_id, 3);
}
