use openauto_bridge::frame::VideoFrame;
use openauto_bridge::queue::FrameQueue;
use openauto_bridge::session::{FrameDelivery, FramePoll, OpenAutoManager, SessionStep};
use openauto_bridge::stream::{
    frame_payload, payload_from_encoded, FramePayload, VideoStream, STREAM_POLL_TIMEOUT_MS,
    STREAM_YIELD_MS,
};

#[test]
fn payload_is_padded_base64() {
    let f = VideoFrame { data: vec![0x00, 0x01], width: 800, height: 480, stride: 2 };
    let p = frame_payload(&f);
    assert_eq!(p.data, "AAE=");
    assert_eq!((p.width, p.height), (800, 480));
    assert_eq!(p.format, "h264");
    let g = VideoFrame { data: b"Man".to_vec(), width: 1, height: 2, stride: 3 };
    assert_eq!(frame_payload(&g).data, "TWFu");
    let e = VideoFrame { data: vec![], width: 0, height: 0, stride: 0 };
    assert_eq!(frame_payload(&e).data, "");
}

#[test]
fn payload_from_encoded_keeps_the_text() {
    let p = payload_from_encoded("Ag==".to_string(), 320, 240);
    assert_eq!(p.data, "Ag==");
    assert_eq!((p.width, p.height), (320, 240));
    assert_eq!(p.format, "h264");
}

#[test]
fn begin_is_idempotent_and_end_lowers_the_flag() {
    let mut s = VideoStream::new();
    assert!(!s.is_active());
    s.end();
    assert!(!s.is_active());
    assert!(s.begin());
    assert!(!s.begin());
    assert!(s.is_active());
    s.end();
    assert!(!s.is_active());
    s.end();
    assert!(!s.is_active());
}

#[test]
fn start_then_stop_streaming_ends_within_one_timeout() {
    let mut m = OpenAutoManager::new();
    m.start();
    m.init_returned(1);
    m.start_returned(true);
    let mut s = VideoStream::new();
    assert!(s.begin());
    s.end();
    // the loop runs at most the iteration under way: one poll that gives up
    // at the timeout, and one yield
    assert!(!s.is_active());
    let mut waited: u64 = 0;
    loop {
        match m.recv_video_frame_timeout(waited, STREAM_POLL_TIMEOUT_MS) {
            FramePoll::Pending => waited += 1,
            _ => break,
        }
    }
    assert_eq!(waited, STREAM_POLL_TIMEOUT_MS);
    assert!(STREAM_POLL_TIMEOUT_MS + STREAM_YIELD_MS <= 150);
}

#[test]
fn end_to_end_two_frames_stream_in_order() {
    let mut m = OpenAutoManager::new();
    assert_eq!(m.start(), SessionStep::CallInit);
    assert_eq!(m.init_returned(42), SessionStep::CallStart(42));
    assert_eq!(m.start_returned(true), SessionStep::Done(Ok(())));
    assert_eq!(m.on_video_frame(Some(&[0x00u8, 0x01][..]), 800, 480, 2), FrameDelivery::Queued);
    assert_eq!(m.on_video_frame(Some(&[0x02u8][..]), 800, 480, 1), FrameDelivery::Queued);

    let mut stream = VideoStream::new();
    assert!(stream.begin());
    let mut events: Vec<FramePayload> = Vec::new();
    while stream.is_active() {
        match m.recv_video_frame_timeout(STREAM_POLL_TIMEOUT_MS, STREAM_POLL_TIMEOUT_MS) {
            FramePoll::Ready(f) => events.push(frame_payload(&f)),
            _ => stream.end(),
        }
    }
    assert_eq!(events.len(), 2);
    assert_eq!(events[0].data, "AAE=");
    assert_eq!(events[1].data, "Ag==");
    for e in &events {
        assert_eq!((e.width, e.height), (800, 480));
        assert_eq!(e.format, "h264");
    }
}

#[test]
fn frame_queue_is_first_in_first_out() {
    let mut q = FrameQueue::new();
    assert_eq!(q.len(), 0);
    assert!(q.pop().is_none());
    for i in 0..3u8 {
        q.push(VideoFrame { data: vec![i], width: 1, height: 1, stride: 1 });
    }
    assert_eq!(q.len(), 3);
    for i in 0..3u8 {
        assert_eq!(q.pop().unwrap().data, vec![i]);
    }
    assert!(q.pop().is_none());
}

#[test]
fn from_native_copies_or_ignores() {
    assert!(VideoFrame::from_native(None, 1, 1, 0).is_none());
    assert!(VideoFrame::from_native(Some(&[][..]), 1, 1, 0).is_none());
    let f = VideoFrame::from_native(Some(&[9u8, 8, 7][..]), 800, 480, 3).unwrap();
    assert_eq!(f.data, vec![9, 8, 7]);
    assert_eq!((f.width, f.height, f.stride), (800, 480, 3));
}
