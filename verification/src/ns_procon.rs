//! The emulated wireless gamepad: per-instance identity, the packed
//! button/axis state, the rolling tag for unsolicited input frames, and
//! the optional outbound queue that communication attaches.  Every state
//! mutation is legal whether or not communication is running; with no
//! queue attached a flush is a silent no-op.

use vstd::prelude::*;
use crate::magic;
use crate::queue::OutboundQueue;
use crate::report::{spec_input_report, input_report, zeros};
use crate::state::{spec_set_bit, spec_set_axis, set_bit, set_axis_bits, STATE_BYTES};

verus! {

/// Capacity of the outbound queue attached while communication runs.
pub const QUEUE_CAPACITY: usize = 10;

/// The 12-byte colour tuple built from a body colour: the body colour,
/// then black buttons and black grips — the button and grip bytes are
/// never given at creation, so they default to black.
pub open spec fn spec_colour(body: Seq<u8>) -> Seq<u8> {
    body + seq![0u8, 0u8, 0u8] + seq![0u8, 0u8, 0u8] + seq![0u8, 0u8, 0u8]
}

/// An emulated controller instance.
pub struct NsProcon {
    hid_path: String,
    input_state: Vec<u8>,
    colour: Vec<u8>,
    mac_addr: Vec<u8>,
    tag: u8,
    queue: Option<OutboundQueue>,
}

/// Relies on `rand::random`: six bytes drawn from the thread-local
/// generator.  The value is random, so nothing is promised beyond the
/// length.
#[verifier::external_body]
fn random_mac() -> (r: Vec<u8>)
    ensures
        r@.len() == 6,
{
    rand::random::<[u8; 6]>().to_vec()
}

impl NsProcon {
    /// Field sizes the protocol fixes: 9 state bytes, 12 colour bytes, a
    /// 6-byte link address, and a queue that respects its bound.
    pub closed spec fn wf(&self) -> bool {
        &&& self.input_state@.len() == STATE_BYTES
        &&& self.colour@.len() == 12
        &&& self.mac_addr@.len() == 6
        &&& match self.queue {
            Some(q) => q.wf(),
            None => true,
        }
    }

    /// The packed 72-bit button/axis state, as 9 bytes.
    pub closed spec fn state_model(&self) -> Seq<u8> {
        self.input_state@
    }

    /// The colour tuple replies embed.
    pub closed spec fn colour_model(&self) -> Seq<u8> {
        self.colour@
    }

    /// The link address replies embed.
    pub closed spec fn mac_model(&self) -> Seq<u8> {
        self.mac_addr@
    }

    /// The rolling tag the next unsolicited input frame will carry.
    pub closed spec fn tag_model(&self) -> u8 {
        self.tag
    }

    /// The device path communication will open.
    pub closed spec fn path_model(&self) -> Seq<char> {
        self.hid_path@
    }

    /// Whether an outbound queue is attached (communication running).
    pub closed spec fn attached(&self) -> bool {
        self.queue is Some
    }

    /// The frames queued for the writer, oldest first; empty when no
    /// queue is attached.
    pub closed spec fn queued(&self) -> Seq<Seq<u8>> {
        match self.queue {
            Some(q) => q.contents(),
            None => Seq::empty(),
        }
    }

    /// The attached queue's capacity; zero when none is attached.
    pub closed spec fn queue_cap(&self) -> int {
        match self.queue {
            Some(q) => q.cap(),
            None => 0,
        }
    }

    /// The identity and path, which no facade call changes.
    pub open spec fn same_identity(&self, other: &NsProcon) -> bool {
        &&& self.colour_model() == other.colour_model()
        &&& self.mac_model() == other.mac_model()
        &&& self.path_model() == other.path_model()
    }

    /// How one flush changes the queue and the tag, and what the caller
    /// learns.  With a queue attached and room in it, `frame` is appended
    /// and the tag advances by one, wrapping; a full queue refuses the
    /// frame and the queue is left as it was — `accepted` is false in
    /// exactly that case, so the caller can drain and retry and no frame
    /// is ever lost unnoticed.  With no queue attached the flush is a
    /// silent no-op by design and `accepted` is true.
    pub open spec fn spec_flush_effect(
        pre: &NsProcon,
        post: &NsProcon,
        frame: Seq<u8>,
        accepted: bool,
    ) -> bool {
        &&& post.attached() == pre.attached()
        &&& post.queue_cap() == pre.queue_cap()
        &&& (!accepted <==> pre.attached() && pre.queued().len() >= pre.queue_cap())
        &&& if pre.attached() && pre.queued().len() < pre.queue_cap() {
            &&& post.queued() == pre.queued().push(frame)
            &&& post.tag_model() == ((pre.tag_model() + 1) % 256) as u8
        } else {
            &&& post.queued() == pre.queued()
            &&& post.tag_model() == pre.tag_model()
        }
    }

    /// Queue and tag untouched.
    pub open spec fn same_queue(&self, other: &NsProcon) -> bool {
        &&& self.attached() == other.attached()
        &&& self.queued() == other.queued()
        &&& self.queue_cap() == other.queue_cap()
        &&& self.tag_model() == other.tag_model()
    }

    /// A fresh controller for the device at `path` with the given body
    /// colour: zeroed state except the charging-grip flag in byte 1, a
    /// random link address, no communication running.
    pub fn create(path: &str, body_col: [u8; 3]) -> (r: NsProcon)
        ensures
            r.wf(),
            r.state_model() == spec_set_bit(
                zeros(STATE_BYTES as int),
                crate::inputs::BUTTON_CHARGING_GRIP as int,
                true,
            ),
            r.colour_model() == spec_colour(body_col@),
            r.mac_model().len() == 6,
            r.path_model() == path@,
            r.tag_model() == 0,
            !r.attached(),
            r.queued() == Seq::<Seq<u8>>::empty(),
    {
        let mut input_state: Vec<u8> = vec![0, 0, 0, 0, 0, 0, 0, 0, 0];
        assert(input_state@ =~= zeros(STATE_BYTES as int));
        set_bit(&mut input_state, crate::inputs::BUTTON_CHARGING_GRIP, true);
        let mut colour: Vec<u8> = Vec::new();
        colour.push(body_col[0]);
        colour.push(body_col[1]);
        colour.push(body_col[2]);
        colour.push(0);
        colour.push(0);
        colour.push(0);
        colour.push(0);
        colour.push(0);
        colour.push(0);
        colour.push(0);
        colour.push(0);
        colour.push(0);
        assert(colour@ =~= spec_colour(body_col@));
        NsProcon {
            hid_path: path.to_owned(),
            input_state,
            colour,
            mac_addr: random_mac(),
            tag: 0,
            queue: None,
        }
    }

    /// Builds the current input frame and offers it to the attached
    /// queue, as `spec_flush_effect` describes.  Returns false exactly
    /// when a full queue refused the frame.
    fn send_input(&mut self) -> (accepted: bool)
        requires
            old(self).wf(),
        ensures
            final(self).wf(),
            final(self).same_identity(old(self)),
            final(self).state_model() == old(self).state_model(),
            NsProcon::spec_flush_effect(
                old(self),
                final(self),
                spec_input_report(old(self).state_model(), old(self).tag_model()),
                accepted,
            ),
    {
        match &mut self.queue {
            Some(q) => {
                let frame = input_report(&self.input_state, self.tag);
                let ok = q.push(frame);
                if ok {
                    self.tag = self.tag.wrapping_add(1);
                }
                ok
            }
            None => true,
        }
    }

    /// Sets or clears one of the 24 button bits; out-of-range indices are
    /// a no-op.  With `flush`, the new state is offered to the queue as
    /// one input frame; the result is false exactly when a full queue
    /// refused that frame, so the caller can drain and retry.
    pub fn set(&mut self, index: usize, value: bool, flush: bool) -> (accepted: bool)
        requires
            old(self).wf(),
        ensures
            final(self).wf(),
            final(self).same_identity(old(self)),
            final(self).state_model() == spec_set_bit(old(self).state_model(), index as int, value),
            flush ==> NsProcon::spec_flush_effect(
                old(self),
                final(self),
                spec_input_report(final(self).state_model(), old(self).tag_model()),
                accepted,
            ),
            !flush ==> accepted && final(self).same_queue(old(self)),
    {
        set_bit(&mut self.input_state, index, value);
        if flush {
            self.send_input()
        } else {
            true
        }
    }

    /// Presses one button: `set` with `true`.
    pub fn press(&mut self, index: usize, flush: bool) -> (accepted: bool)
        requires
            old(self).wf(),
        ensures
            final(self).wf(),
            final(self).same_identity(old(self)),
            final(self).state_model() == spec_set_bit(old(self).state_model(), index as int, true),
            flush ==> NsProcon::spec_flush_effect(
                old(self),
                final(self),
                spec_input_report(final(self).state_model(), old(self).tag_model()),
                accepted,
            ),
            !flush ==> accepted && final(self).same_queue(old(self)),
    {
        self.set(index, true, flush)
    }

    /// Releases one button: `set` with `false`.
    pub fn release(&mut self, index: usize, flush: bool) -> (accepted: bool)
        requires
            old(self).wf(),
        ensures
            final(self).wf(),
            final(self).same_identity(old(self)),
            final(self).state_model() == spec_set_bit(old(self).state_model(), index as int, false),
            flush ==> NsProcon::spec_flush_effect(
                old(self),
                final(self),
                spec_input_report(final(self).state_model(), old(self).tag_model()),
                accepted,
            ),
            !flush ==> accepted && final(self).same_queue(old(self)),
    {
        self.set(index, false, flush)
    }

    /// Stores `value >> 4` into one of the four 12-bit axis fields;
    /// out-of-range indices are a no-op.  With `flush`, the result is
    /// false exactly when a full queue refused the input frame.
    pub fn set_axis(&mut self, index: usize, value: u16, flush: bool) -> (accepted: bool)
        requires
            old(self).wf(),
        ensures
            final(self).wf(),
            final(self).same_identity(old(self)),
            final(self).state_model() == spec_set_axis(
                old(self).state_model(),
                index as int,
                value,
            ),
            flush ==> NsProcon::spec_flush_effect(
                old(self),
                final(self),
                spec_input_report(final(self).state_model(), old(self).tag_model()),
                accepted,
            ),
            !flush ==> accepted && final(self).same_queue(old(self)),
    {
        set_axis_bits(&mut self.input_state, index, value);
        if flush {
            self.send_input()
        } else {
            true
        }
    }

    /// Sends the current state unconditionally (still a silent no-op
    /// when no queue is attached).  Returns false exactly when a full
    /// queue refused the frame: the caller must drain the queue and
    /// retry, so no input report is ever lost unnoticed.
    pub fn flush_input(&mut self) -> (accepted: bool)
        requires
            old(self).wf(),
        ensures
            final(self).wf(),
            final(self).same_identity(old(self)),
            final(self).state_model() == old(self).state_model(),
            NsProcon::spec_flush_effect(
                old(self),
                final(self),
                spec_input_report(old(self).state_model(), old(self).tag_model()),
                accepted,
            ),
    {
        self.send_input()
    }

    /// Attaches a fresh bounded outbound queue: the transition from idle
    /// to running.  The device itself is opened and driven by the caller
    /// that owns the I/O.
    pub fn start_comms(&mut self)
        requires
            old(self).wf(),
        ensures
            final(self).wf(),
            final(self).same_identity(old(self)),
            final(self).state_model() == old(self).state_model(),
            final(self).tag_model() == old(self).tag_model(),
            final(self).attached(),
            final(self).queued() == Seq::<Seq<u8>>::empty(),
            final(self).queue_cap() == QUEUE_CAPACITY as int,
    {
        self.queue = Some(OutboundQueue::new(QUEUE_CAPACITY));
    }

    /// Detaches the queue: the transition back to idle.  Frames not yet
    /// drained are discarded and later flushes become no-ops.
    pub fn stop(&mut self)
        requires
            old(self).wf(),
        ensures
            final(self).wf(),
            final(self).same_identity(old(self)),
            final(self).state_model() == old(self).state_model(),
            final(self).tag_model() == old(self).tag_model(),
            !final(self).attached(),
            final(self).queued() == Seq::<Seq<u8>>::empty(),
    {
        self.queue = None;
    }

    /// Removes and returns the oldest queued frame, for the writer that
    /// drains the queue onto the device.
    pub fn pop_outbound(&mut self) -> (r: Option<Vec<u8>>)
        requires
            old(self).wf(),
        ensures
            final(self).wf(),
            final(self).same_identity(old(self)),
            final(self).state_model() == old(self).state_model(),
            final(self).tag_model() == old(self).tag_model(),
            final(self).attached() == old(self).attached(),
            final(self).queue_cap() == old(self).queue_cap(),
            old(self).queued().len() == 0 ==> r is None && final(self).queued()
                == old(self).queued(),
            old(self).queued().len() > 0 ==> r is Some && r.unwrap()@
                == old(self).queued()[0] && final(self).queued()
                == old(self).queued().drop_first(),
    {
        match &mut self.queue {
            Some(q) => q.pop(),
            None => None,
        }
    }

    /// A well-formed controller's models have the protocol's fixed
    /// sizes: 9 state bytes, 12 colour bytes, a 6-byte link address.
    /// `wf` is otherwise closed, so this is how callers outside the
    /// module bring the packed-state lemmas to bear on a controller.
    pub proof fn lemma_wf_lengths(&self)
        requires
            self.wf(),
        ensures
            self.state_model().len() == STATE_BYTES,
            self.colour_model().len() == 12,
            self.mac_model().len() == 6,
    {
    }

    /// The packed state as bytes, for callers that want to look at it.
    pub fn state_bytes(&self) -> (r: Vec<u8>)
        requires
            self.wf(),
        ensures
            r@ == self.state_model(),
    {
        let mut r: Vec<u8> = Vec::new();
        crate::report::append_bytes(&mut r, &self.input_state);
        assert(r@ =~= self.state_model());
        r
    }

    /// The 12-byte colour tuple.
    pub fn colour(&self) -> (r: &Vec<u8>)
        ensures
            r@ == self.colour_model(),
    {
        &self.colour
    }

    /// The 6-byte link address.
    pub fn mac_addr(&self) -> (r: &Vec<u8>)
        ensures
            r@ == self.mac_model(),
    {
        &self.mac_addr
    }

    /// The device path communication should open.
    pub fn hid_path(&self) -> (r: &str)
        ensures
            r@ == self.path_model(),
    {
        self.hid_path.as_str()
    }

    /// The dispatching half of the runtime for this instance: a
    /// `Responder` carrying this controller's identity.
    pub fn responder(&self) -> (r: crate::dispatch::Responder)
        requires
            self.wf(),
        ensures
            r.wf(),
            r.colour@ == self.colour_model(),
            r.mac_addr@ == self.mac_model(),
            r.input@ == magic::spec_initial_input(),
            r.tag == 0,
    {
        let mut colour: Vec<u8> = Vec::new();
        crate::report::append_bytes(&mut colour, &self.colour);
        let mut mac: Vec<u8> = Vec::new();
        crate::report::append_bytes(&mut mac, &self.mac_addr);
        assert(colour@ =~= self.colour_model());
        assert(mac@ =~= self.mac_model());
        crate::dispatch::Responder::new(colour, mac)
    }
}

} // verus!
