use controller_emulator::ns_procon::NsProcon;
use controller_emulator::queue::OutboundQueue;

#[test]
fn queue_is_first_in_first_out() {
    let mut q = OutboundQueue::new(10);
    assert!(q.push(vec![1]));
    assert!(q.push(vec![2]));
    assert!(q.push(vec![3]));
    assert_eq!(q.pop(), Some(vec![1]));
    assert_eq!(q.pop(), Some(vec![2]));
    assert_eq!(q.pop(), Some(vec![3]));
    assert_eq!(q.pop(), None);
}

#[test]
fn full_queue_refuses_frames_instead_of_growing() {
    let mut q = OutboundQueue::new(10);
    for i in 0..10u8 {
        assert!(q.push(vec![i]));
    }
    assert_eq!(q.len(), 10);
    // one more is refused and the queue is left exactly as it was
    assert!(!q.push(vec![0xff]));
    assert_eq!(q.len(), 10);
    // draining one entry makes room for exactly one more
    assert_eq!(q.pop(), Some(vec![0]));
    assert!(q.push(vec![0xff]));
    assert!(!q.push(vec![0xee]));
    assert_eq!(q.len(), 10);
}

#[test]
fn facade_flush_backpressure_at_capacity() {
    let mut procon = NsProcon::create("test.dev", [0, 0, 0]);
    procon.start_comms();
    for _ in 0..10 {
        assert!(procon.flush_input());
    }
    // the eleventh flush finds the queue full: it must not enqueue, and
    // it must say so, so the caller can drain and retry without loss
    assert!(!procon.flush_input());
    let mut drained = 0;
    while procon.pop_outbound().is_some() {
        drained += 1;
    }
    assert_eq!(drained, 10);
    // after the writer drains, the retried flush is accepted
    assert!(procon.flush_input());
    assert!(procon.pop_outbound().is_some());
    assert!(procon.pop_outbound().is_none());
}

#[test]
fn flush_without_comms_is_a_silent_no_op() {
    let mut procon = NsProcon::create("test.dev", [0, 0, 0]);
    assert!(procon.flush_input());
    assert!(procon.press(0, true));
    assert!(procon.pop_outbound().is_none());
    procon.start_comms();
    procon.stop();
    assert!(procon.flush_input());
    assert!(procon.pop_outbound().is_none());
}

#[test]
fn flushed_frames_carry_state_and_rolling_tag() {
    let mut procon = NsProcon::create("test.dev", [0, 0, 0]);
    procon.start_comms();
    procon.press(controller_emulator::inputs::BUTTON_A, true);
    procon.release(controller_emulator::inputs::BUTTON_A, true);
    let first = procon.pop_outbound().unwrap();
    let second = procon.pop_outbound().unwrap();
    assert_eq!(first.len(), 64);
    assert_eq!(first[0], 0x30);
    assert_eq!(first[1], 0);
    assert_eq!(second[1], 1);
    assert_eq!(first[2], 0x81);
    // byte 0 of the packed state sits at offset 3: button A is bit 3
    assert_ne!(first[3] & (1 << 3), 0);
    assert_eq!(second[3] & (1 << 3), 0);
}

#[test]
fn stop_discards_undrained_frames() {
    let mut procon = NsProcon::create("test.dev", [0, 0, 0]);
    procon.start_comms();
    procon.flush_input();
    procon.flush_input();
    procon.stop();
    assert!(procon.pop_outbound().is_none());
    // restarting attaches a fresh, empty queue
    procon.start_comms();
    assert!(procon.pop_outbound().is_none());
    procon.flush_input();
    assert!(procon.pop_outbound().is_some());
}
