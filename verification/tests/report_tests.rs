use controller_emulator::report::{
    ack_report, flash_read_report, input_report, parse_input_state, report,
};

#[test]
fn report_with_full_payload_has_no_padding() {
    let payload: Vec<u8> = vec![0xaa; 62];
    let frame = report(0x21, 0x07, &payload).expect("62-byte payload must fit");
    assert_eq!(frame.len(), 64);
    assert_eq!(frame[0], 0x21);
    assert_eq!(frame[1], 0x07);
    assert_eq!(frame.iter().filter(|b| **b == 0).count(), 0);
}

#[test]
fn report_with_oversized_payload_is_dropped() {
    let payload: Vec<u8> = vec![0xaa; 63];
    assert!(report(0x21, 0x07, &payload).is_none());
}

#[test]
fn report_pads_with_zeros_to_sixty_four_bytes() {
    let payload: Vec<u8> = vec![1, 2, 3];
    let frame = report(0x81, 0x01, &payload).unwrap();
    assert_eq!(frame.len(), 64);
    assert_eq!(&frame[..5], &[0x81, 0x01, 1, 2, 3]);
    assert!(frame[5..].iter().all(|b| *b == 0));
}

#[test]
fn ack_report_layout() {
    let input: Vec<u8> = vec![9, 8, 7, 6, 5, 4, 3, 2, 1];
    let payload: Vec<u8> = vec![0x55, 0x66];
    let frame = ack_report(0x90, 0x10, 0x42, &input, &payload).unwrap();
    assert_eq!(frame.len(), 64);
    assert_eq!(frame[0], 0x21);
    assert_eq!(frame[1], 0x42);
    assert_eq!(frame[2], 0x81);
    assert_eq!(&frame[3..12], &input[..]);
    assert_eq!(frame[12], 0x0c);
    assert_eq!(frame[13], 0x90);
    assert_eq!(frame[14], 0x10);
    assert_eq!(&frame[15..17], &[0x55, 0x66]);
    assert!(frame[17..].iter().all(|b| *b == 0));
}

#[test]
fn flash_read_report_layout() {
    let input: Vec<u8> = vec![0; 9];
    let data: Vec<u8> = vec![0xde, 0xad, 0xbe, 0xef];
    let frame = flash_read_report(0x3d, 0x60, 0x01, &input, &data).unwrap();
    assert_eq!(frame.len(), 64);
    assert_eq!(frame[13], 0x90);
    assert_eq!(frame[14], 0x10);
    assert_eq!(frame[15], 0x3d);
    assert_eq!(frame[16], 0x60);
    assert_eq!(frame[17], 0x00);
    assert_eq!(frame[18], 0x00);
    assert_eq!(frame[19], 4);
    assert_eq!(&frame[20..24], &[0xde, 0xad, 0xbe, 0xef]);
    assert!(frame[24..].iter().all(|b| *b == 0));
}

#[test]
fn input_report_round_trips_the_packed_state() {
    let state: Vec<u8> = vec![0x20, 0x01, 0x80, 0xf8, 0xd7, 0x7a, 0x22, 0xc8, 0x7b];
    let frame = input_report(&state, 0x99);
    assert_eq!(frame.len(), 64);
    assert_eq!(frame[0], 0x30);
    assert_eq!(frame[1], 0x99);
    assert_eq!(frame[2], 0x81);
    let parsed = parse_input_state(&frame);
    assert_eq!(parsed, state);
    assert!(frame[12..].iter().all(|b| *b == 0));
}
