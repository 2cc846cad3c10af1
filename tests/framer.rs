use pitch_to_midi::framer::{frame_ring, take_frame};

#[test]
fn frame_is_taken_only_when_full() {
    let (mut prod, mut cons) = frame_ring(4);
    let mut frame = vec![0u32; 4];
    assert!(!take_frame(&mut cons, &mut frame));
    for s in 1..=3u32 {
        assert!(prod.push(s).is_ok());
    }
    assert!(!take_frame(&mut cons, &mut frame));
    assert_eq!(frame, vec![0, 0, 0, 0]);
    assert!(prod.push(4).is_ok());
    // the ring is full: a further sample is dropped
    assert!(prod.push(5).is_err());
    assert!(take_frame(&mut cons, &mut frame));
    assert_eq!(frame, vec![1, 2, 3, 4]);
    assert!(!take_frame(&mut cons, &mut frame));
    assert_eq!(frame.len(), 4);
}

#[test]
fn frames_keep_arrival_order() {
    let (mut prod, mut cons) = frame_ring(3);
    let mut frame = vec![0u32; 3];
    for s in [9u32, 8, 7] {
        prod.push(s).unwrap();
    }
    assert!(take_frame(&mut cons, &mut frame));
    for s in [6u32, 5, 4] {
        prod.push(s).unwrap();
    }
    assert!(take_frame(&mut cons, &mut frame));
    assert_eq!(frame, vec![6, 5, 4]);
}
