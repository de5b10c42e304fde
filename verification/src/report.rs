//! Outbound HID report builders.  Every frame on the wire is exactly 64
//! bytes, zero padded; an oversized payload makes the builder drop the
//! report rather than truncate it.

use vstd::prelude::*;

verus! {

/// The fixed size of every outbound frame.
pub const REPORT_LEN: usize = 64;

/// A run of `n` zero bytes.
pub open spec fn zeros(n: int) -> Seq<u8> {
    Seq::new(n as nat, |i: int| 0u8)
}

/// The generic frame `[code, subcode, ...payload, ...zero padding]`,
/// or nothing when the payload cannot fit in 64 bytes.
pub open spec fn spec_report(code: u8, subcode: u8, payload: Seq<u8>) -> Option<Seq<u8>> {
    if payload.len() + 2 > 64 {
        None
    } else {
        Some(seq![code, subcode] + payload + zeros(62 - payload.len()))
    }
}

/// The subcommand acknowledgement frame: header `0x21, tag`, body
/// `[0x81, ...echoed input, 0x0c, ack, subcmd, ...payload]`.
pub open spec fn spec_ack_report(
    ack: u8,
    subcmd: u8,
    tag: u8,
    input: Seq<u8>,
    payload: Seq<u8>,
) -> Option<Seq<u8>> {
    spec_report(0x21, tag, seq![0x81u8] + input + seq![0x0cu8, ack, subcmd] + payload)
}

/// The simulated SPI-flash read reply: an acknowledgement with ack code
/// `0x90`, subcommand `0x10`, and body `[addr_lo, addr_hi, 0, 0, len, ...data]`.
pub open spec fn spec_flash_read_report(
    addr_lo: u8,
    addr_hi: u8,
    tag: u8,
    input: Seq<u8>,
    data: Seq<u8>,
) -> Option<Seq<u8>> {
    spec_ack_report(
        0x90,
        0x10,
        tag,
        input,
        seq![addr_lo, addr_hi, 0u8, 0u8, data.len() as u8] + data,
    )
}

/// The unsolicited input frame: `0x30, tag, 0x81`, the 9-byte packed
/// state, then zero padding to 64 bytes.
pub open spec fn spec_input_report(state: Seq<u8>, tag: u8) -> Seq<u8> {
    seq![0x30u8, tag, 0x81u8] + state + zeros(52)
}

/// Appends every byte of `src` to `dst`.
pub fn append_bytes(dst: &mut Vec<u8>, src: &Vec<u8>)
    ensures
        final(dst)@ == old(dst)@ + src@,
{
    let mut i: usize = 0;
    while i < src.len()
        invariant
            i <= src@.len(),
            dst@ == old(dst)@ + src@.subrange(0, i as int),
        decreases src@.len() - i,
    {
        dst.push(src[i]);
        i = i + 1;
        assert(dst@ =~= old(dst)@ + src@.subrange(0, i as int));
    }
    assert(dst@ =~= old(dst)@ + src@);
}

/// Appends zero bytes to `dst` until it is `n` bytes long.
fn pad_to(dst: &mut Vec<u8>, n: usize)
    requires
        old(dst)@.len() <= n,
    ensures
        final(dst)@ == old(dst)@ + zeros(n - old(dst)@.len()),
        final(dst)@.len() == n,
{
    while dst.len() < n
        invariant
            old(dst)@.len() <= dst@.len() <= n,
            dst@ == old(dst)@ + zeros(dst@.len() - old(dst)@.len()),
        decreases n - dst@.len(),
    {
        dst.push(0);
        assert(dst@ =~= old(dst)@ + zeros(dst@.len() - old(dst)@.len()));
    }
    assert(dst@ =~= old(dst)@ + zeros(n - old(dst)@.len()));
}

/// Builds the generic 64-byte frame `[code, subcode, ...payload, ...zeros]`,
/// or returns nothing when the payload is longer than 62 bytes.
pub fn report(code: u8, subcode: u8, payload: &Vec<u8>) -> (r: Option<Vec<u8>>)
    ensures
        r.deep_view() == spec_report(code, subcode, payload@),
        r is Some <==> payload@.len() <= 62,
        r is Some ==> r.unwrap()@.len() == 64,
{
    if payload.len() > 62 {
        return None;
    }
    let mut out: Vec<u8> = Vec::new();
    out.push(code);
    out.push(subcode);
    append_bytes(&mut out, payload);
    pad_to(&mut out, REPORT_LEN);
    assert(out@ =~= seq![code, subcode] + payload@ + zeros(62 - payload@.len()));
    Some(out)
}

/// Builds the subcommand acknowledgement frame around `report`.
pub fn ack_report(
    ack: u8,
    subcmd: u8,
    tag: u8,
    input: &Vec<u8>,
    payload: &Vec<u8>,
) -> (r: Option<Vec<u8>>)
    ensures
        r.deep_view() == spec_ack_report(ack, subcmd, tag, input@, payload@),
        r is Some <==> input@.len() + payload@.len() <= 58,
{
    if input.len() > 62 || payload.len() > 62 - input.len() || input.len() + payload.len() > 58 {
        assert(seq![0x81u8].len() + input@.len() + seq![0x0cu8, ack, subcmd].len() + payload@.len()
            > 62);
        return None;
    }
    let mut body: Vec<u8> = Vec::new();
    body.push(0x81);
    append_bytes(&mut body, input);
    body.push(0x0c);
    body.push(ack);
    body.push(subcmd);
    append_bytes(&mut body, payload);
    assert(body@ =~= seq![0x81u8] + input@ + seq![0x0cu8, ack, subcmd] + payload@);
    report(0x21, tag, &body)
}

/// Builds the simulated SPI-flash read reply around `ack_report`.
pub fn flash_read_report(
    addr_lo: u8,
    addr_hi: u8,
    tag: u8,
    input: &Vec<u8>,
    data: &Vec<u8>,
) -> (r: Option<Vec<u8>>)
    requires
        data@.len() <= 0x1d,
    ensures
        r.deep_view() == spec_flash_read_report(addr_lo, addr_hi, tag, input@, data@),
{
    let mut body: Vec<u8> = Vec::new();
    body.push(addr_lo);
    body.push(addr_hi);
    body.push(0x00);
    body.push(0x00);
    body.push(data.len() as u8);
    append_bytes(&mut body, data);
    assert(body@ =~= seq![addr_lo, addr_hi, 0u8, 0u8, data@.len() as u8] + data@);
    ack_report(0x90, 0x10, tag, input, &body)
}

/// Builds the unsolicited input frame carrying the packed state.
pub fn input_report(state: &Vec<u8>, tag: u8) -> (r: Vec<u8>)
    requires
        state@.len() == 9,
    ensures
        r@ == spec_input_report(state@, tag),
        r@.len() == 64,
{
    let mut out: Vec<u8> = Vec::new();
    out.push(0x30);
    out.push(tag);
    out.push(0x81);
    append_bytes(&mut out, state);
    pad_to(&mut out, REPORT_LEN);
    assert(out@ =~= spec_input_report(state@, tag));
    out
}

/// Reads the 9-byte packed state block back out of an input frame.
pub fn parse_input_state(frame: &Vec<u8>) -> (r: Vec<u8>)
    requires
        frame@.len() == 64,
    ensures
        r@ == frame@.subrange(3, 12),
{
    let mut r: Vec<u8> = Vec::new();
    let mut i: usize = 3;
    while i < 12
        invariant
            3 <= i <= 12,
            frame@.len() == 64,
            r@ == frame@.subrange(3, i as int),
        decreases 12 - i,
    {
        r.push(frame[i]);
        i = i + 1;
        assert(r@ =~= frame@.subrange(3, i as int));
    }
    r
}

/// An input frame embeds the packed state it was built from: parsing the
/// embedded 9-byte block out of `spec_input_report(state, tag)` gives back
/// `state` exactly, for every state and tag.
pub proof fn lemma_input_report_round_trip(state: Seq<u8>, tag: u8)
    requires
        state.len() == 9,
    ensures
        spec_input_report(state, tag).subrange(3, 12) == state,
{
    assert(spec_input_report(state, tag).subrange(3, 12) =~= state);
}

} // verus!
