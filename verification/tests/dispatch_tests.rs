use controller_emulator::dispatch::{dispatch, Responder};
use controller_emulator::magic;
use controller_emulator::ns_procon::NsProcon;

fn identity() -> (Vec<u8>, Vec<u8>, Vec<u8>) {
    let input = magic::initial_input();
    let colour: Vec<u8> = vec![1, 2, 3, 0, 0, 0, 1, 2, 3, 1, 2, 3];
    let mac: Vec<u8> = vec![0x11, 0x22, 0x33, 0x44, 0x55, 0x66];
    (input, colour, mac)
}

fn subcmd_buffer(subcmd: u8, addr_lo: u8, addr_hi: u8) -> Vec<u8> {
    let mut buf: Vec<u8> = vec![0; 17];
    buf[0] = 0x01;
    buf[10] = subcmd;
    buf[11] = addr_lo;
    buf[12] = addr_hi;
    buf
}

#[test]
fn handshake_ack_is_a_single_empty_reply() {
    let (input, colour, mac) = identity();
    let reply = dispatch(&[0x80, 0x02], &input, &colour, &mac, 0).unwrap();
    assert_eq!(reply.len(), 64);
    assert_eq!(reply[0], 0x81);
    assert_eq!(reply[1], 0x02);
    assert!(reply[2..].iter().all(|b| *b == 0));
}

#[test]
fn handshake_address_query_embeds_the_link_address() {
    let (input, colour, mac) = identity();
    let reply = dispatch(&[0x80, 0x01], &input, &colour, &mac, 0).unwrap();
    assert_eq!(reply[0], 0x81);
    assert_eq!(reply[1], 0x01);
    assert_eq!(&reply[2..4], &[0x00, 0x03]);
    assert_eq!(&reply[4..10], &mac[..]);
    assert!(reply[10..].iter().all(|b| *b == 0));
}

#[test]
fn handshake_input_mode_switch_has_no_reply() {
    let (input, colour, mac) = identity();
    assert!(dispatch(&[0x80, 0x04], &input, &colour, &mac, 0).is_none());
    assert!(dispatch(&[0x80, 0x77], &input, &colour, &mac, 0).is_none());
}

#[test]
fn too_short_buffers_are_ignored() {
    let (input, colour, mac) = identity();
    assert!(dispatch(&[], &input, &colour, &mac, 0).is_none());
    assert!(dispatch(&[0x80], &input, &colour, &mac, 0).is_none());
    // subcommand frames need more than 16 bytes
    let mut short: Vec<u8> = vec![0; 16];
    short[0] = 0x01;
    short[10] = 0x01;
    assert!(dispatch(&short, &input, &colour, &mac, 0).is_none());
}

#[test]
fn serial_number_read_embeds_the_serial_blob() {
    let (input, colour, mac) = identity();
    let buf = subcmd_buffer(0x10, 0x00, 0x60);
    let reply = dispatch(&buf, &input, &colour, &mac, 0x31).unwrap();
    assert_eq!(reply[0], 0x21);
    assert_eq!(reply[1], 0x31);
    assert_eq!(reply[2], 0x81);
    assert_eq!(&reply[3..12], &input[..]);
    assert_eq!(reply[12], 0x0c);
    assert_eq!(reply[13], 0x90);
    assert_eq!(reply[14], 0x10);
    assert_eq!(reply[15], 0x00);
    assert_eq!(reply[16], 0x60);
    assert_eq!(reply[19], 16);
    assert_eq!(&reply[20..36], &[0xff; 16]);
    assert!(reply[36..].iter().all(|b| *b == 0));
}

#[test]
fn colour_read_embeds_the_instance_colour() {
    let (input, colour, mac) = identity();
    let buf = subcmd_buffer(0x10, 0x50, 0x60);
    let reply = dispatch(&buf, &input, &colour, &mac, 0).unwrap();
    assert_eq!(reply[15], 0x50);
    assert_eq!(reply[16], 0x60);
    assert_eq!(reply[19], 12);
    assert_eq!(&reply[20..32], &colour[..]);
}

#[test]
fn unknown_subcommand_has_no_reply() {
    let (input, colour, mac) = identity();
    let buf = subcmd_buffer(0x99, 0, 0);
    assert!(dispatch(&buf, &input, &colour, &mac, 0).is_none());
}

#[test]
fn unknown_flash_address_has_no_reply() {
    let (input, colour, mac) = identity();
    let buf = subcmd_buffer(0x10, 0x42, 0x60);
    assert!(dispatch(&buf, &input, &colour, &mac, 0).is_none());
    let buf = subcmd_buffer(0x10, 0x00, 0x80);
    assert!(dispatch(&buf, &input, &colour, &mac, 0).is_none());
}

#[test]
fn device_info_replies_carry_the_firmware_bytes() {
    let (input, colour, mac) = identity();
    let reply = dispatch(&subcmd_buffer(0x01, 0, 0), &input, &colour, &mac, 0).unwrap();
    assert_eq!(reply[13], 0x81);
    assert_eq!(reply[14], 0x01);
    assert_eq!(reply[15], 0x03);
    let reply = dispatch(&subcmd_buffer(0x02, 0, 0), &input, &colour, &mac, 0).unwrap();
    assert_eq!(reply[13], 0x82);
    assert_eq!(reply[14], 0x02);
    assert_eq!(&reply[15..19], &[0x03, 0x48, 0x03, 0x02]);
    assert_eq!(&reply[19..25], &mac[..]);
    assert_eq!(&reply[25..27], &[0x03, 0x01]);
}

#[test]
fn mode_toggle_subcommands_get_generic_acks() {
    let (input, colour, mac) = identity();
    for subcmd in [0x03u8, 0x08, 0x30, 0x38, 0x40, 0x48] {
        let reply = dispatch(&subcmd_buffer(subcmd, 0, 0), &input, &colour, &mac, 0).unwrap();
        assert_eq!(reply[13], 0x80);
        assert_eq!(reply[14], subcmd);
        assert!(reply[15..].iter().all(|b| *b == 0));
    }
    let reply = dispatch(&subcmd_buffer(0x04, 0, 0), &input, &colour, &mac, 0).unwrap();
    assert_eq!(reply[13], 0x83);
    assert_eq!(reply[14], 0x04);
    let reply = dispatch(&subcmd_buffer(0x21, 0, 0), &input, &colour, &mac, 0).unwrap();
    assert_eq!(reply[13], 0xa0);
    assert_eq!(reply[14], 0x21);
    assert_eq!(&reply[15..23], &[0x01, 0x00, 0xff, 0x00, 0x03, 0x00, 0x05, 0x01]);
}

#[test]
fn short_read_is_split_into_two_byte_commands() {
    let procon = NsProcon::create("test.dev", [1, 2, 3]);
    let mut responder = procon.responder();
    let mut buffer: Vec<u8> = vec![0; 64];
    buffer[0] = 0x80;
    buffer[1] = 0x02;
    buffer[2] = 0x80;
    buffer[3] = 0x01;
    let replies = responder.handle_read(&buffer, 4);
    assert_eq!(replies.len(), 2);
    assert_eq!(replies[0][0], 0x81);
    assert_eq!(replies[0][1], 0x02);
    assert_eq!(replies[1][0], 0x81);
    assert_eq!(replies[1][1], 0x01);
    assert_eq!(&replies[1][4..10], &procon.mac_addr()[..]);
}

#[test]
fn long_read_is_one_whole_command() {
    let procon = NsProcon::create("test.dev", [1, 2, 3]);
    let mut responder = procon.responder();
    let mut buffer: Vec<u8> = vec![0; 64];
    buffer[0] = 0x01;
    buffer[10] = 0x01;
    let replies = responder.handle_read(&buffer, 17);
    assert_eq!(replies.len(), 1);
    assert_eq!(replies[0][0], 0x21);
    assert_eq!(replies[0][13], 0x81);
    // the echoed input block is the canned initial input
    let expected = magic::initial_input();
    assert_eq!(&replies[0][3..12], &expected[..]);
}

#[test]
fn rolling_tag_increases_across_tagged_replies() {
    let procon = NsProcon::create("test.dev", [1, 2, 3]);
    let mut responder = procon.responder();
    let buf = subcmd_buffer(0x01, 0, 0);
    let first = responder.respond(&buf).unwrap();
    let second = responder.respond(&buf).unwrap();
    let third = responder.respond(&buf).unwrap();
    assert_eq!(first[1], 0);
    assert_eq!(second[1], 1);
    assert_eq!(third[1], 2);
}

#[test]
fn ignored_buffers_do_not_advance_the_tag() {
    let procon = NsProcon::create("test.dev", [1, 2, 3]);
    let mut responder = procon.responder();
    assert!(responder.respond(&[0x80, 0x04]).is_none());
    let reply = responder.respond(&subcmd_buffer(0x01, 0, 0)).unwrap();
    assert_eq!(reply[1], 0);
}
