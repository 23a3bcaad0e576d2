use radio::entry::{extension_of, Container};
use radio::prebuffer::{PreBuffer, PREBUFFER_BYTES, STEP_BYTES};
use radio::ring::RingBuffer;

#[test]
fn ring_is_fifo() {
    let mut r = RingBuffer::new(8);
    assert_eq!(r.write(&[1, 2, 3]), 3);
    assert_eq!(r.write(&[4, 5]), 2);
    assert_eq!(r.try_read(2), vec![1, 2]);
    assert_eq!(r.write(&[6]), 1);
    assert_eq!(r.try_read(10), vec![3, 4, 5, 6]);
    assert!(r.is_empty());
    assert_eq!(r.try_read(4), Vec::<u8>::new());
}

#[test]
fn ring_write_stops_when_full() {
    let mut r = RingBuffer::new(4);
    assert_eq!(r.capacity(), 4);
    assert_eq!(r.write(&[1, 2, 3, 4, 5, 6]), 4);
    assert_eq!(r.len(), 4);
    assert_eq!(r.write(&[7]), 0);
    assert_eq!(r.try_read(1), vec![1]);
    assert_eq!(r.write(&[7, 8]), 1);
    assert_eq!(r.try_read(4), vec![2, 3, 4, 7]);
}

#[test]
fn ring_drain_empties() {
    let mut r = RingBuffer::new(4);
    r.write(&[1, 2]);
    r.drain();
    assert_eq!(r.len(), 0);
}

#[test]
fn prebuffer_round_trip() {
    let mut pb = PreBuffer::new();
    let src: Vec<u8> = (0..10000u32).map(|i| (i % 251) as u8).collect();
    assert_eq!(pb.offer(&src), 10000);
    let mut out = Vec::new();
    while let Some(c) = pb.next_chunk() {
        assert!(c.len() <= STEP_BYTES);
        out.extend_from_slice(&c);
    }
    assert_eq!(out, src);
    assert!(!pb.is_done());
}

#[test]
fn prebuffer_chunks_are_step_sized() {
    let mut pb = PreBuffer::new();
    pb.offer(&vec![7u8; 5000]);
    assert_eq!(pb.next_chunk().map(|c| c.len()), Some(4096));
    assert_eq!(pb.next_chunk().map(|c| c.len()), Some(904));
    assert_eq!(pb.next_chunk(), None);
}

#[test]
fn prebuffer_fills_to_capacity() {
    let mut pb = PreBuffer::new();
    let big = vec![1u8; PREBUFFER_BYTES + 10];
    assert_eq!(pb.offer(&big), PREBUFFER_BYTES);
    assert_eq!(pb.offer(&[1]), 0);
    pb.next_chunk();
    assert_eq!(pb.offer(&big), STEP_BYTES);
}

#[test]
fn cancel_drains_and_refuses() {
    let mut pb = PreBuffer::new();
    pb.offer(&[1, 2, 3]);
    pb.cancel();
    assert_eq!(pb.len(), 0);
    assert!(pb.cancelled());
    assert!(pb.is_done());
    assert_eq!(pb.offer(&[4, 5]), 0);
    assert_eq!(pb.len(), 0);
    assert_eq!(pb.next_chunk(), None);
}

#[test]
fn close_keeps_held_bytes() {
    let mut pb = PreBuffer::new();
    pb.offer(&[1, 2, 3]);
    pb.close();
    assert!(!pb.is_done());
    assert_eq!(pb.offer(&[4]), 0);
    assert_eq!(pb.next_chunk(), Some(vec![1, 2, 3]));
    assert!(pb.is_done());
}

#[test]
fn extensions() {
    assert_eq!(extension_of("/a.flac"), Some("flac".to_string()));
    assert_eq!(extension_of("/music/x.y.mp3"), Some("mp3".to_string()));
    assert_eq!(extension_of("/music/track"), None);
    assert_eq!(extension_of(""), None);
    assert_eq!(extension_of("/a."), Some(String::new()));
}

#[test]
fn container_names() {
    assert_eq!(Container::Ogg.name(), "ogg");
    assert_eq!(Container::MP3.name(), "mp3");
}

#[test]
fn fresh_prebuffer_takes_small_offer() {
    let mut pb = PreBuffer::new();
    assert_eq!(pb.offer(&[1, 2, 3]), 3);
    assert_eq!(pb.len(), 3);
    assert!(!pb.cancelled());
}
