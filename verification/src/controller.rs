//! The controller abstraction: events a controller can raise towards its
//! owner, and the trait every emulated controller offers — a button/axis
//! mutation API with an optional immediate flush, and a start/stop
//! communication lifecycle.

use vstd::prelude::*;
use crate::state::{spec_set_bit, spec_set_axis};

verus! {

/// An event a controller reports to the code driving it.
pub enum ControllerEvent {
    /// The console asked for full input reporting.
    InputActive,
    /// The console assigned player lights (a bitmask of lit LEDs).
    PlayerLights(u8),
}

/// How one flush changes a controller's queue and rolling tag, and
/// what the caller learns: with a queue attached and room in it,
/// `frame` is appended and the tag advances by one, wrapping; a full
/// queue refuses the frame and leaves everything unchanged — `accepted`
/// is false in exactly that case, so the caller can drain and retry and
/// no frame is lost unnoticed; with no queue attached the flush is a
/// silent no-op.
pub open spec fn ctl_flush_effect(
    pre_attached: bool,
    pre_queued: Seq<Seq<u8>>,
    pre_cap: int,
    pre_tag: u8,
    post_queued: Seq<Seq<u8>>,
    post_tag: u8,
    frame: Seq<u8>,
    accepted: bool,
) -> bool {
    &&& (!accepted <==> pre_attached && pre_queued.len() >= pre_cap)
    &&& if pre_attached && pre_queued.len() < pre_cap {
        &&& post_queued == pre_queued.push(frame)
        &&& post_tag == ((pre_tag + 1) % 256) as u8
    } else {
        &&& post_queued == pre_queued
        &&& post_tag == pre_tag
    }
}

/// An emulated controller: packed button/axis state, an outbound queue
/// attached while communication runs, and a rolling tag for the input
/// frames it flushes.
pub trait Controller: Sized {
    /// Structural invariant of the implementation.
    spec fn ctl_wf(&self) -> bool;

    /// The packed 72-bit button/axis state, as 9 bytes.
    spec fn ctl_state(&self) -> Seq<u8>;

    /// Whether an outbound queue is attached.
    spec fn ctl_attached(&self) -> bool;

    /// The queued outbound frames, oldest first.
    spec fn ctl_queued(&self) -> Seq<Seq<u8>>;

    /// The attached queue's capacity.
    spec fn ctl_cap(&self) -> int;

    /// The rolling tag the next flushed input frame will carry.
    spec fn ctl_tag(&self) -> u8;

    /// The input frame a flush of the given state and tag emits.
    spec fn ctl_frame(&self, state: Seq<u8>, tag: u8) -> Seq<u8>;

    /// Begins communication: attaches an empty outbound queue.
    fn start_comms(&mut self)
        requires
            old(self).ctl_wf(),
        ensures
            final(self).ctl_wf(),
            final(self).ctl_state() == old(self).ctl_state(),
            final(self).ctl_attached(),
            final(self).ctl_queued() == Seq::<Seq<u8>>::empty(),
    ;

    /// Ends communication: detaches the queue; later flushes are no-ops.
    fn stop(&mut self)
        requires
            old(self).ctl_wf(),
        ensures
            final(self).ctl_wf(),
            final(self).ctl_state() == old(self).ctl_state(),
            !final(self).ctl_attached(),
    ;

    /// Sets or clears one button bit; out-of-range indices are a no-op.
    /// With `flush`, false means a full queue refused the input frame.
    fn set(&mut self, index: usize, value: bool, flush: bool) -> (accepted: bool)
        requires
            old(self).ctl_wf(),
        ensures
            final(self).ctl_wf(),
            final(self).ctl_state() == spec_set_bit(old(self).ctl_state(), index as int, value),
            final(self).ctl_attached() == old(self).ctl_attached(),
            final(self).ctl_cap() == old(self).ctl_cap(),
            flush ==> ctl_flush_effect(
                old(self).ctl_attached(),
                old(self).ctl_queued(),
                old(self).ctl_cap(),
                old(self).ctl_tag(),
                final(self).ctl_queued(),
                final(self).ctl_tag(),
                old(self).ctl_frame(final(self).ctl_state(), old(self).ctl_tag()),
                accepted,
            ),
            !flush ==> accepted && final(self).ctl_queued() == old(self).ctl_queued()
                && final(self).ctl_tag() == old(self).ctl_tag(),
    ;

    /// Presses one button.
    fn press(&mut self, index: usize, flush: bool) -> (accepted: bool)
        requires
            old(self).ctl_wf(),
        ensures
            final(self).ctl_wf(),
            final(self).ctl_state() == spec_set_bit(old(self).ctl_state(), index as int, true),
            final(self).ctl_attached() == old(self).ctl_attached(),
            final(self).ctl_cap() == old(self).ctl_cap(),
            flush ==> ctl_flush_effect(
                old(self).ctl_attached(),
                old(self).ctl_queued(),
                old(self).ctl_cap(),
                old(self).ctl_tag(),
                final(self).ctl_queued(),
                final(self).ctl_tag(),
                old(self).ctl_frame(final(self).ctl_state(), old(self).ctl_tag()),
                accepted,
            ),
            !flush ==> accepted && final(self).ctl_queued() == old(self).ctl_queued()
                && final(self).ctl_tag() == old(self).ctl_tag(),
    ;

    /// Releases one button.
    fn release(&mut self, index: usize, flush: bool) -> (accepted: bool)
        requires
            old(self).ctl_wf(),
        ensures
            final(self).ctl_wf(),
            final(self).ctl_state() == spec_set_bit(old(self).ctl_state(), index as int, false),
            final(self).ctl_attached() == old(self).ctl_attached(),
            final(self).ctl_cap() == old(self).ctl_cap(),
            flush ==> ctl_flush_effect(
                old(self).ctl_attached(),
                old(self).ctl_queued(),
                old(self).ctl_cap(),
                old(self).ctl_tag(),
                final(self).ctl_queued(),
                final(self).ctl_tag(),
                old(self).ctl_frame(final(self).ctl_state(), old(self).ctl_tag()),
                accepted,
            ),
            !flush ==> accepted && final(self).ctl_queued() == old(self).ctl_queued()
                && final(self).ctl_tag() == old(self).ctl_tag(),
    ;

    /// Stores `value >> 4` into one 12-bit axis field; out-of-range
    /// indices are a no-op.
    fn set_axis(&mut self, index: usize, value: u16, flush: bool) -> (accepted: bool)
        requires
            old(self).ctl_wf(),
        ensures
            final(self).ctl_wf(),
            final(self).ctl_state() == spec_set_axis(old(self).ctl_state(), index as int, value),
            final(self).ctl_attached() == old(self).ctl_attached(),
            final(self).ctl_cap() == old(self).ctl_cap(),
            flush ==> ctl_flush_effect(
                old(self).ctl_attached(),
                old(self).ctl_queued(),
                old(self).ctl_cap(),
                old(self).ctl_tag(),
                final(self).ctl_queued(),
                final(self).ctl_tag(),
                old(self).ctl_frame(final(self).ctl_state(), old(self).ctl_tag()),
                accepted,
            ),
            !flush ==> accepted && final(self).ctl_queued() == old(self).ctl_queued()
                && final(self).ctl_tag() == old(self).ctl_tag(),
    ;

    /// Sends the current state unconditionally (still a silent no-op
    /// when no queue is attached); false means a full queue refused the
    /// frame and the caller should drain and retry.
    fn flush_input(&mut self) -> (accepted: bool)
        requires
            old(self).ctl_wf(),
        ensures
            final(self).ctl_wf(),
            final(self).ctl_state() == old(self).ctl_state(),
            final(self).ctl_attached() == old(self).ctl_attached(),
            final(self).ctl_cap() == old(self).ctl_cap(),
            ctl_flush_effect(
                old(self).ctl_attached(),
                old(self).ctl_queued(),
                old(self).ctl_cap(),
                old(self).ctl_tag(),
                final(self).ctl_queued(),
                final(self).ctl_tag(),
                old(self).ctl_frame(old(self).ctl_state(), old(self).ctl_tag()),
                accepted,
            ),
    ;
}

impl Controller for crate::ns_procon::NsProcon {
    open spec fn ctl_wf(&self) -> bool {
        self.wf()
    }

    open spec fn ctl_state(&self) -> Seq<u8> {
        self.state_model()
    }

    open spec fn ctl_attached(&self) -> bool {
        self.attached()
    }

    open spec fn ctl_queued(&self) -> Seq<Seq<u8>> {
        self.queued()
    }

    open spec fn ctl_cap(&self) -> int {
        self.queue_cap()
    }

    open spec fn ctl_tag(&self) -> u8 {
        self.tag_model()
    }

    open spec fn ctl_frame(&self, state: Seq<u8>, tag: u8) -> Seq<u8> {
        crate::report::spec_input_report(state, tag)
    }

    fn start_comms(&mut self) {
        crate::ns_procon::NsProcon::start_comms(self);
    }

    fn stop(&mut self) {
        crate::ns_procon::NsProcon::stop(self);
    }

    fn set(&mut self, index: usize, value: bool, flush: bool) -> bool {
        crate::ns_procon::NsProcon::set(self, index, value, flush)
    }

    fn press(&mut self, index: usize, flush: bool) -> bool {
        crate::ns_procon::NsProcon::press(self, index, flush)
    }

    fn release(&mut self, index: usize, flush: bool) -> bool {
        crate::ns_procon::NsProcon::release(self, index, flush)
    }

    fn set_axis(&mut self, index: usize, value: u16, flush: bool) -> bool {
        crate::ns_procon::NsProcon::set_axis(self, index, value, flush)
    }

    fn flush_input(&mut self) -> bool {
        crate::ns_procon::NsProcon::flush_input(self)
    }
}

} // verus!
