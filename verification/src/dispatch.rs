//! Inbound command classification.  `dispatch` turns one inbound HID
//! report into at most one outbound reply; a buffer the console would not
//! recognise produces no reply at all.  `Responder` carries the identity
//! data the replies embed and the rolling tag for acknowledgement frames,
//! and applies the short-read splitting policy.

use vstd::prelude::*;
use crate::magic;
use crate::report::{
    spec_report, spec_ack_report, spec_flash_read_report, report, ack_report, flash_read_report,
    append_bytes,
};

verus! {

/// The canned reply to a simulated SPI-flash read of the address pair
/// `(lo, hi)`, or nothing when the address is not in the table.
pub open spec fn spec_flash_reply(
    lo: u8,
    hi: u8,
    tag: u8,
    input: Seq<u8>,
    colour: Seq<u8>,
) -> Option<Seq<u8>> {
    if lo == 0x00 && hi == 0x60 {
        spec_flash_read_report(0x00, 0x60, tag, input, magic::spec_serial_number())
    } else if lo == 0x50 && hi == 0x60 {
        spec_flash_read_report(0x50, 0x60, tag, input, colour)
    } else if lo == 0x80 && hi == 0x60 {
        spec_flash_read_report(0x80, 0x60, tag, input, magic::spec_sensor_stick_params())
    } else if lo == 0x98 && hi == 0x60 {
        spec_flash_read_report(0x98, 0x60, tag, input, magic::spec_stick_params_2())
    } else if lo == 0x3d && hi == 0x60 {
        spec_flash_read_report(0x3d, 0x60, tag, input, magic::spec_config())
    } else if lo == 0x10 && hi == 0x80 {
        spec_flash_read_report(0x10, 0x80, tag, input, magic::spec_calibration())
    } else if lo == 0x28 && hi == 0x80 {
        spec_flash_read_report(0x28, 0x80, tag, input, magic::spec_sensor_calibration())
    } else {
        None
    }
}

/// The reply, if any, that one inbound buffer earns: handshake frames
/// (first byte `0x80`) answer by a plain report, subcommand frames (first
/// byte `0x01`, longer than 16 bytes) answer by an acknowledgement keyed
/// on byte 10, and anything else is silently ignored.
pub open spec fn spec_dispatch(
    buf: Seq<u8>,
    input: Seq<u8>,
    colour: Seq<u8>,
    mac: Seq<u8>,
    tag: u8,
) -> Option<Seq<u8>> {
    if buf.len() < 2 {
        None
    } else if buf[0] == 0x80 {
        if buf[1] == 0x01 {
            spec_report(0x81, 0x01, seq![0x00u8, 0x03u8] + mac)
        } else if buf[1] == 0x02 {
            spec_report(0x81, 0x02, Seq::empty())
        } else {
            None
        }
    } else if buf[0] == 0x01 && buf.len() > 16 {
        if buf[10] == 0x01 {
            spec_ack_report(0x81, 0x01, tag, input, seq![0x03u8])
        } else if buf[10] == 0x02 {
            spec_ack_report(
                0x82,
                0x02,
                tag,
                input,
                seq![0x03u8, 0x48u8, 0x03u8, 0x02u8] + mac + seq![0x03u8, 0x01u8],
            )
        } else if buf[10] == 0x03 || buf[10] == 0x08 || buf[10] == 0x30 || buf[10] == 0x38
            || buf[10] == 0x40 || buf[10] == 0x48 {
            spec_ack_report(0x80, buf[10], tag, input, Seq::empty())
        } else if buf[10] == 0x04 {
            spec_ack_report(0x83, 0x04, tag, input, Seq::empty())
        } else if buf[10] == 0x21 {
            spec_ack_report(
                0xa0,
                0x21,
                tag,
                input,
                seq![0x01u8, 0x00u8, 0xffu8, 0x00u8, 0x03u8, 0x00u8, 0x05u8, 0x01u8],
            )
        } else if buf[10] == 0x10 {
            spec_flash_reply(buf[11], buf[12], tag, input, colour)
        } else {
            None
        }
    } else {
        None
    }
}

/// Answers a simulated SPI-flash read for the address pair `(lo, hi)`.
fn flash_reply(lo: u8, hi: u8, tag: u8, input: &Vec<u8>, colour: &Vec<u8>) -> (r: Option<Vec<u8>>)
    requires
        colour@.len() == 12,
    ensures
        r.deep_view() == spec_flash_reply(lo, hi, tag, input@, colour@),
{
    if lo == 0x00 && hi == 0x60 {
        let data = magic::serial_number();
        flash_read_report(0x00, 0x60, tag, input, &data)
    } else if lo == 0x50 && hi == 0x60 {
        flash_read_report(0x50, 0x60, tag, input, colour)
    } else if lo == 0x80 && hi == 0x60 {
        let data = magic::sensor_stick_params();
        flash_read_report(0x80, 0x60, tag, input, &data)
    } else if lo == 0x98 && hi == 0x60 {
        let data = magic::stick_params_2();
        flash_read_report(0x98, 0x60, tag, input, &data)
    } else if lo == 0x3d && hi == 0x60 {
        let data = magic::config();
        flash_read_report(0x3d, 0x60, tag, input, &data)
    } else if lo == 0x10 && hi == 0x80 {
        let data = magic::calibration();
        flash_read_report(0x10, 0x80, tag, input, &data)
    } else if lo == 0x28 && hi == 0x80 {
        let data = magic::sensor_calibration();
        flash_read_report(0x28, 0x80, tag, input, &data)
    } else {
        None
    }
}

/// Classifies one inbound buffer and builds its reply, exactly as
/// `spec_dispatch` describes.  `input` is the 9-byte packed input block
/// echoed inside acknowledgements, `colour` the 12-byte colour tuple,
/// `mac` the 6-byte link address, `tag` the rolling tag for tagged frames.
pub fn dispatch(
    buffer: &[u8],
    input: &Vec<u8>,
    colour: &Vec<u8>,
    mac: &Vec<u8>,
    tag: u8,
) -> (r: Option<Vec<u8>>)
    requires
        input@.len() == 9,
        colour@.len() == 12,
        mac@.len() == 6,
    ensures
        r.deep_view() == spec_dispatch(buffer@, input@, colour@, mac@, tag),
{
    if buffer.len() < 2 {
        return None;
    }
    let b0: u8 = *vstd::slice::slice_index_get(buffer, 0);
    if b0 == 0x80 {
        let b1: u8 = *vstd::slice::slice_index_get(buffer, 1);
        if b1 == 0x01 {
            let mut p: Vec<u8> = vec![0x00, 0x03];
            append_bytes(&mut p, mac);
            assert(p@ =~= seq![0x00u8, 0x03u8] + mac@);
            report(0x81, 0x01, &p)
        } else if b1 == 0x02 {
            let p: Vec<u8> = Vec::new();
            report(0x81, 0x02, &p)
        } else {
            None
        }
    } else if b0 == 0x01 && buffer.len() > 16 {
        let b10: u8 = *vstd::slice::slice_index_get(buffer, 10);
        if b10 == 0x01 {
            let p: Vec<u8> = vec![0x03];
            ack_report(0x81, 0x01, tag, input, &p)
        } else if b10 == 0x02 {
            let mut p: Vec<u8> = vec![0x03, 0x48, 0x03, 0x02];
            append_bytes(&mut p, mac);
            p.push(0x03);
            p.push(0x01);
            assert(p@ =~= seq![0x03u8, 0x48u8, 0x03u8, 0x02u8] + mac@ + seq![0x03u8, 0x01u8]);
            ack_report(0x82, 0x02, tag, input, &p)
        } else if b10 == 0x03 || b10 == 0x08 || b10 == 0x30 || b10 == 0x38 || b10 == 0x40
            || b10 == 0x48 {
            let p: Vec<u8> = Vec::new();
            ack_report(0x80, b10, tag, input, &p)
        } else if b10 == 0x04 {
            let p: Vec<u8> = Vec::new();
            ack_report(0x83, 0x04, tag, input, &p)
        } else if b10 == 0x21 {
            let p: Vec<u8> = vec![0x01, 0x00, 0xff, 0x00, 0x03, 0x00, 0x05, 0x01];
            ack_report(0xa0, 0x21, tag, input, &p)
        } else if b10 == 0x10 {
            let lo: u8 = *vstd::slice::slice_index_get(buffer, 11);
            let hi: u8 = *vstd::slice::slice_index_get(buffer, 12);
            flash_reply(lo, hi, tag, input, colour)
        } else {
            None
        }
    } else {
        None
    }
}

/// A short inbound read never reaches the subcommand path, so its reply
/// does not depend on the rolling tag.
pub proof fn lemma_short_dispatch_ignores_tag(
    buf: Seq<u8>,
    input: Seq<u8>,
    colour: Seq<u8>,
    mac: Seq<u8>,
    t1: u8,
    t2: u8,
)
    requires
        buf.len() <= 16,
    ensures
        spec_dispatch(buf, input, colour, mac, t1) == spec_dispatch(buf, input, colour, mac, t2),
{
}

/// The replies earned by the 2-byte slices of `buf` at even offsets
/// `i, i + 2, ...` below `read`, in order.  Such slices are handshake
/// frames at most, so no rolling tag is involved.
pub open spec fn spec_split_from(
    buf: Seq<u8>,
    i: int,
    read: int,
    input: Seq<u8>,
    colour: Seq<u8>,
    mac: Seq<u8>,
) -> Seq<Seq<u8>>
    decreases read - i + 1,
{
    if i >= read {
        Seq::empty()
    } else {
        let rest = spec_split_from(buf, i + 2, read, input, colour, mac);
        match spec_dispatch(buf.subrange(i, i + 2), input, colour, mac, 0) {
            Some(r) => seq![r] + rest,
            None => rest,
        }
    }
}

/// A reply sequence of zero or one element.
pub open spec fn spec_single(o: Option<Seq<u8>>) -> Seq<Seq<u8>> {
    match o {
        Some(r) => seq![r],
        None => Seq::empty(),
    }
}

/// The replies one bounded device read earns: a read of at least 10 bytes
/// is one whole command, a shorter one is a batch of independent 2-byte
/// micro-commands.
pub open spec fn spec_handle_read(
    buf: Seq<u8>,
    read: int,
    input: Seq<u8>,
    colour: Seq<u8>,
    mac: Seq<u8>,
    tag: u8,
) -> Seq<Seq<u8>> {
    if read >= 10 {
        spec_single(spec_dispatch(buf, input, colour, mac, tag))
    } else {
        spec_split_from(buf, 0, read, input, colour, mac)
    }
}

/// The dispatching half of the communication runtime: the identity data
/// replies embed, the echoed input block, and the rolling tag that makes
/// consecutive acknowledgement frames distinguishable.
pub struct Responder {
    /// 12-byte colour tuple: body, buttons, left grip, right grip.
    pub colour: Vec<u8>,
    /// 6-byte link address.
    pub mac_addr: Vec<u8>,
    /// 9-byte packed input block echoed inside acknowledgements.
    pub input: Vec<u8>,
    /// Rolling tag; increases (wrapping) with each tagged reply.
    pub tag: u8,
}

impl Responder {
    /// Identity fields have their fixed protocol sizes.
    pub open spec fn wf(&self) -> bool {
        &&& self.colour@.len() == 12
        &&& self.mac_addr@.len() == 6
        &&& self.input@.len() == 9
    }

    /// The identity data, which no dispatch call changes.
    pub open spec fn identity(&self) -> (Seq<u8>, Seq<u8>, Seq<u8>) {
        (self.colour@, self.mac_addr@, self.input@)
    }

    pub fn new(colour: Vec<u8>, mac_addr: Vec<u8>) -> (r: Responder)
        requires
            colour@.len() == 12,
            mac_addr@.len() == 6,
        ensures
            r.wf(),
            r.colour@ == colour@,
            r.mac_addr@ == mac_addr@,
            r.input@ == magic::spec_initial_input(),
            r.tag == 0,
    {
        Responder { colour, mac_addr, input: magic::initial_input(), tag: 0 }
    }

    /// Classifies the whole buffer as one command and advances the
    /// rolling tag when a reply goes out.
    pub fn respond(&mut self, buffer: &[u8]) -> (r: Option<Vec<u8>>)
        requires
            old(self).wf(),
        ensures
            final(self).wf(),
            final(self).identity() == old(self).identity(),
            r.deep_view() == spec_dispatch(
                buffer@,
                old(self).input@,
                old(self).colour@,
                old(self).mac_addr@,
                old(self).tag,
            ),
            final(self).tag == if r is Some {
                ((old(self).tag + 1) % 256) as u8
            } else {
                old(self).tag
            },
    {
        let r = dispatch(buffer, &self.input, &self.colour, &self.mac_addr, self.tag);
        if r.is_some() {
            self.tag = self.tag.wrapping_add(1);
        }
        r
    }

    /// Handles one bounded device read of `read` bytes sitting at the
    /// front of `buffer`: at least 10 bytes are one whole command; fewer
    /// are split into independent 2-byte micro-commands, each dispatched
    /// on its own.  Returns the replies in order.
    pub fn handle_read(&mut self, buffer: &[u8], read: usize) -> (out: Vec<Vec<u8>>)
        requires
            old(self).wf(),
            buffer@.len() == 64,
            read <= 64,
        ensures
            final(self).wf(),
            final(self).identity() == old(self).identity(),
            out.deep_view() == spec_handle_read(
                buffer@,
                read as int,
                old(self).input@,
                old(self).colour@,
                old(self).mac_addr@,
                old(self).tag,
            ),
            final(self).tag == if read >= 10 && out@.len() > 0 {
                ((old(self).tag + 1) % 256) as u8
            } else {
                old(self).tag
            },
    {
        let mut out: Vec<Vec<u8>> = Vec::new();
        if read >= 10 {
            let r = self.respond(buffer);
            match r {
                Some(rep) => {
                    out.push(rep);
                    assert(out.deep_view() =~~= spec_single(
                        spec_dispatch(buffer@, old(self).input@, old(self).colour@,
                            old(self).mac_addr@, old(self).tag),
                    ));
                }
                None => {
                    assert(out.deep_view() =~~= spec_single(
                        spec_dispatch(buffer@, old(self).input@, old(self).colour@,
                            old(self).mac_addr@, old(self).tag),
                    ));
                }
            }
        } else {
            let ghost full = spec_split_from(buffer@, 0, read as int, self.input@, self.colour@,
                self.mac_addr@);
            let mut i: usize = 0;
            while i < read
                invariant
                    self.wf(),
                    *self == *old(self),
                    buffer@.len() == 64,
                    read < 10,
                    i <= read + 1,
                    i % 2 == 0,
                    full == spec_split_from(buffer@, 0, read as int, self.input@, self.colour@,
                        self.mac_addr@),
                    out.deep_view() + spec_split_from(buffer@, i as int, read as int, self.input@,
                        self.colour@, self.mac_addr@) == full,
                decreases read + 2 - i,
            {
                let slice = vstd::slice::slice_subrange(buffer, i, i + 2);
                let r = dispatch(slice, &self.input, &self.colour, &self.mac_addr, 0);
                let ghost prev = out.deep_view();
                match r {
                    Some(rep) => {
                        out.push(rep);
                        assert(out.deep_view() =~~= prev + seq![rep@]);
                    }
                    None => {}
                }
                i = i + 2;
                assert(out.deep_view() + spec_split_from(buffer@, i as int, read as int,
                    self.input@, self.colour@, self.mac_addr@) =~~= full);
            }
            assert(spec_split_from(buffer@, i as int, read as int, self.input@, self.colour@,
                self.mac_addr@) =~~= Seq::<Seq<u8>>::empty());
            assert(out.deep_view() =~~= full);
        }
        out
    }
}

} // verus!
