use controller_emulator::inputs;
use controller_emulator::ns_procon::NsProcon;

fn axis_decode(state: &[u8], k: usize) -> u16 {
    match k {
        0 => (state[3] as u16) | (((state[4] & 0x0f) as u16) << 8),
        1 => ((state[4] >> 4) as u16) | ((state[5] as u16) << 4),
        2 => (state[6] as u16) | (((state[7] & 0x0f) as u16) << 8),
        _ => ((state[7] >> 4) as u16) | ((state[8] as u16) << 4),
    }
}

#[test]
fn charging_grip_bit_set_at_creation() {
    let procon = NsProcon::create("test.dev", [1, 2, 3]);
    let state = procon.state_bytes();
    assert_eq!(state.len(), 9);
    // the charging-grip flag sits in byte 1 (bit position 15)
    assert_eq!(inputs::BUTTON_CHARGING_GRIP, 15);
    assert_ne!(state[1] & (1 << 7), 0);
    // everything else starts cleared
    assert_eq!(state[0], 0);
    assert_eq!(state[1] & !(1 << 7), 0);
    for i in 2..9 {
        assert_eq!(state[i], 0);
    }
}

#[test]
fn press_sets_exactly_one_bit() {
    let mut procon = NsProcon::create("test.dev", [0, 0, 0]);
    let before = procon.state_bytes();
    procon.press(inputs::BUTTON_A, false);
    let after = procon.state_bytes();
    for bit in 0..72 {
        let b = (before[bit / 8] >> (bit % 8)) & 1;
        let a = (after[bit / 8] >> (bit % 8)) & 1;
        if bit == inputs::BUTTON_A {
            assert_eq!(a, 1);
        } else {
            assert_eq!(a, b);
        }
    }
}

#[test]
fn press_release_restores_state_for_every_button() {
    for index in 0..24 {
        let mut procon = NsProcon::create("test.dev", [9, 9, 9]);
        let before = procon.state_bytes();
        procon.press(index, false);
        procon.release(index, false);
        let after = procon.state_bytes();
        for bit in 0..72 {
            let b = (before[bit / 8] >> (bit % 8)) & 1;
            let a = (after[bit / 8] >> (bit % 8)) & 1;
            if bit == index {
                assert_eq!(a, 0);
            } else {
                assert_eq!(a, b);
            }
        }
    }
}

#[test]
fn out_of_range_button_is_a_no_op() {
    let mut procon = NsProcon::create("test.dev", [0, 0, 0]);
    let before = procon.state_bytes();
    procon.set(24, true, false);
    procon.set(1000, true, false);
    assert_eq!(procon.state_bytes(), before);
}

#[test]
fn set_axis_quantises_to_top_twelve_bits() {
    for k in 0..4usize {
        let mut procon = NsProcon::create("test.dev", [0, 0, 0]);
        for v in (0..=65535u32).step_by(61) {
            let v = v as u16;
            procon.set_axis(k, v, false);
            let state = procon.state_bytes();
            let stored = axis_decode(&state, k);
            assert_eq!(stored << 4, v & 0xfff0);
        }
        procon.set_axis(k, 65535, false);
        assert_eq!(axis_decode(&procon.state_bytes(), k) << 4, 0xfff0);
        procon.set_axis(k, 0x0008, false);
        assert_eq!(axis_decode(&procon.state_bytes(), k), 0);
    }
}

#[test]
fn set_axis_leaves_other_fields_alone() {
    let mut procon = NsProcon::create("test.dev", [0, 0, 0]);
    procon.press(inputs::BUTTON_ZL, false);
    procon.set_axis(inputs::AXIS_LH, 0xabcd, false);
    procon.set_axis(inputs::AXIS_RV, 0x1234, false);
    let state = procon.state_bytes();
    assert_eq!(axis_decode(&state, 0), 0xabc);
    assert_eq!(axis_decode(&state, 3), 0x123);
    assert_eq!(axis_decode(&state, 1), 0);
    assert_eq!(axis_decode(&state, 2), 0);
    assert_ne!(state[2] & (1 << 7), 0);
    procon.set_axis(inputs::AXIS_LV, 0xffff, false);
    let state = procon.state_bytes();
    assert_eq!(axis_decode(&state, 0), 0xabc);
    assert_eq!(axis_decode(&state, 1), 0xfff);
}

#[test]
fn out_of_range_axis_is_a_no_op() {
    let mut procon = NsProcon::create("test.dev", [0, 0, 0]);
    let before = procon.state_bytes();
    procon.set_axis(4, 0xffff, false);
    assert_eq!(procon.state_bytes(), before);
}

#[test]
fn identity_is_generated_at_creation() {
    let procon = NsProcon::create("/dev/hidg0", [10, 20, 30]);
    assert_eq!(procon.mac_addr().len(), 6);
    // body colour, then black buttons and black grips (unset at creation)
    assert_eq!(
        procon.colour(),
        &vec![10, 20, 30, 0, 0, 0, 0, 0, 0, 0, 0, 0]
    );
    assert_eq!(procon.hid_path(), "/dev/hidg0");
}
