//! Canned factory data the console reads back over simulated SPI-flash
//! reads, reproduced byte for byte, plus the initial packed input block.

use vstd::prelude::*;

verus! {

/// The packed input block a fresh controller reports: centred sticks and
/// no buttons, as echoed while answering subcommands.
pub open spec fn spec_initial_input() -> Seq<u8> {
    seq![0x00, 0x80, 0x00, 0xf8, 0xd7, 0x7a, 0x22, 0xc8, 0x7b]
}

/// The 16-byte serial number blob; all `0xff` means "no factory serial".
pub open spec fn spec_serial_number() -> Seq<u8> {
    seq![0xff, 0xff, 0xff, 0xff, 0xff, 0xff, 0xff, 0xff, 0xff, 0xff, 0xff, 0xff, 0xff, 0xff, 0xff, 0xff]
}

/// Sensor and left-stick parameter block (24 bytes).
pub open spec fn spec_sensor_stick_params() -> Seq<u8> {
    seq![0x50, 0xfd, 0x00, 0x00, 0xc6, 0x0f, 0x0f, 0x30, 0x61, 0x96, 0x30, 0xf3, 0xd4, 0x14, 0x54,
        0x41, 0x15, 0x54, 0xc7, 0x79, 0x9c, 0x33, 0x36, 0x63]
}

/// Right-stick parameter block (18 bytes).
pub open spec fn spec_stick_params_2() -> Seq<u8> {
    seq![0x0f, 0x30, 0x61, 0x96, 0x30, 0xf3, 0xd4, 0x14, 0x54, 0x41, 0x15, 0x54, 0xc7, 0x79, 0x9c,
        0x33, 0x36, 0x63]
}

/// Controller configuration block (25 bytes).
pub open spec fn spec_config() -> Seq<u8> {
    seq![0xba, 0x15, 0x62, 0x11, 0xb8, 0x7f, 0x29, 0x06, 0x5b, 0xff, 0xe7, 0x7e, 0x0e, 0x36, 0x56,
        0x9e, 0x85, 0x60, 0xff, 0x32, 0x32, 0x32, 0xff, 0xff, 0xff]
}

/// User stick calibration block (24 bytes); all `0xff` means "use defaults".
pub open spec fn spec_calibration() -> Seq<u8> {
    seq![0xff, 0xff, 0xff, 0xff, 0xff, 0xff, 0xff, 0xff, 0xff, 0xff, 0xff, 0xff, 0xff, 0xff, 0xff,
        0xff, 0xff, 0xff, 0xff, 0xff, 0xff, 0xff, 0xb2, 0xa1]
}

/// Motion sensor calibration block (24 bytes).
pub open spec fn spec_sensor_calibration() -> Seq<u8> {
    seq![0xbe, 0xff, 0x3e, 0x00, 0xf0, 0x01, 0x00, 0x40, 0x00, 0x40, 0x00, 0x40, 0xfe, 0xff, 0xfe,
        0xff, 0x08, 0x00, 0xe7, 0x3b, 0xe7, 0x3b, 0xe7, 0x3b]
}

/// The initial packed input block as bytes.
pub fn initial_input() -> (r: Vec<u8>)
    ensures
        r@ == spec_initial_input(),
{
    let r: Vec<u8> = vec![0x00, 0x80, 0x00, 0xf8, 0xd7, 0x7a, 0x22, 0xc8, 0x7b];
    assert(r@ =~= spec_initial_input());
    r
}

/// The serial number blob as bytes.
pub fn serial_number() -> (r: Vec<u8>)
    ensures
        r@ == spec_serial_number(),
{
    let r: Vec<u8> = vec![0xff, 0xff, 0xff, 0xff, 0xff, 0xff, 0xff, 0xff, 0xff, 0xff, 0xff, 0xff, 0xff, 0xff, 0xff, 0xff];
    assert(r@ =~= spec_serial_number());
    r
}

/// The sensor and left-stick parameter blob as bytes.
pub fn sensor_stick_params() -> (r: Vec<u8>)
    ensures
        r@ == spec_sensor_stick_params(),
{
    let r: Vec<u8> = vec![0x50, 0xfd, 0x00, 0x00, 0xc6, 0x0f, 0x0f, 0x30, 0x61, 0x96, 0x30, 0xf3,
        0xd4, 0x14, 0x54, 0x41, 0x15, 0x54, 0xc7, 0x79, 0x9c, 0x33, 0x36, 0x63];
    assert(r@ =~= spec_sensor_stick_params());
    r
}

/// The right-stick parameter blob as bytes.
pub fn stick_params_2() -> (r: Vec<u8>)
    ensures
        r@ == spec_stick_params_2(),
{
    let r: Vec<u8> = vec![0x0f, 0x30, 0x61, 0x96, 0x30, 0xf3, 0xd4, 0x14, 0x54, 0x41, 0x15, 0x54,
        0xc7, 0x79, 0x9c, 0x33, 0x36, 0x63];
    assert(r@ =~= spec_stick_params_2());
    r
}

/// The controller configuration blob as bytes.
pub fn config() -> (r: Vec<u8>)
    ensures
        r@ == spec_config(),
{
    let r: Vec<u8> = vec![0xba, 0x15, 0x62, 0x11, 0xb8, 0x7f, 0x29, 0x06, 0x5b, 0xff, 0xe7, 0x7e,
        0x0e, 0x36, 0x56, 0x9e, 0x85, 0x60, 0xff, 0x32, 0x32, 0x32, 0xff, 0xff, 0xff];
    assert(r@ =~= spec_config());
    r
}

/// The user stick calibration blob as bytes.
pub fn calibration() -> (r: Vec<u8>)
    ensures
        r@ == spec_calibration(),
{
    let r: Vec<u8> = vec![0xff, 0xff, 0xff, 0xff, 0xff, 0xff, 0xff, 0xff, 0xff, 0xff, 0xff, 0xff,
        0xff, 0xff, 0xff, 0xff, 0xff, 0xff, 0xff, 0xff, 0xff, 0xff, 0xb2, 0xa1];
    assert(r@ =~= spec_calibration());
    r
}

/// The motion sensor calibration blob as bytes.
pub fn sensor_calibration() -> (r: Vec<u8>)
    ensures
        r@ == spec_sensor_calibration(),
{
    let r: Vec<u8> = vec![0xbe, 0xff, 0x3e, 0x00, 0xf0, 0x01, 0x00, 0x40, 0x00, 0x40, 0x00, 0x40,
        0xfe, 0xff, 0xfe, 0xff, 0x08, 0x00, 0xe7, 0x3b, 0xe7, 0x3b, 0xe7, 0x3b];
    assert(r@ =~= spec_sensor_calibration());
    r
}

} // verus!
