//! The transfer handle and its one-shot completion cell.
//!
//! A transfer owns a busy channel and the two buffers of its legs. The
//! hardware reports the end of each leg; the completion interrupt fires once
//! for the whole chain, when its last leg ends or when a leg fails, and
//! resolves the completion cell with a status. Only then can the transfer be
//! freed, which gives back the channel, ready again, and both buffers.
use crate::buffer::Buffer;
use crate::dmac::{
    chain, leg_descriptor, leg_ok, linked_leg, Busy, CallbackStatus, Channel, DmacDescriptor,
    HwEvent, HwTrace, Ready, TriggerAction,
};
use vstd::prelude::*;

verus! {

/// The completion state of a transfer: how many of its legs have ended,
/// the status its callback received, and how many times the callback ran.
#[derive(Clone, Copy, Debug, PartialEq, Eq, Structural)]
pub struct Completion {
    pub legs_total: usize,
    pub legs_done: usize,
    pub status: Option<CallbackStatus>,
    pub callbacks: u32,
}

/// A completion state that can arise: the callback has run at most once,
/// and exactly when a status is recorded; a success means every leg ended.
pub open spec fn completion_wf(c: Completion) -> bool {
    &&& 1 <= c.legs_total
    &&& c.legs_done <= c.legs_total
    &&& c.callbacks <= 1
    &&& (c.status is None <==> c.callbacks == 0)
    &&& (c.status is None ==> c.legs_done < c.legs_total)
    &&& (c.status == Some(CallbackStatus::TransferComplete) ==> c.legs_done == c.legs_total)
}

/// The completion state of a chain of `legs` legs that has just begun.
pub open spec fn completion_start(legs: usize) -> Completion {
    Completion { legs_total: legs, legs_done: 0, status: None, callbacks: 0 }
}

/// The completion state after the hardware reports the end of one leg,
/// failed if `error`. Once resolved, the state no longer changes.
pub open spec fn completion_next(c: Completion, error: bool) -> Completion {
    if c.status is Some {
        c
    } else if error {
        Completion { status: Some(CallbackStatus::TransferError), callbacks: (c.callbacks + 1) as u32, ..c }
    } else if c.legs_done + 1 == c.legs_total {
        Completion {
            legs_done: (c.legs_done + 1) as usize,
            status: Some(CallbackStatus::TransferComplete),
            callbacks: (c.callbacks + 1) as u32,
            ..c
        }
    } else {
        Completion { legs_done: (c.legs_done + 1) as usize, ..c }
    }
}

/// The completion state after the leg ends `outcomes` (`true`: failed), in
/// order.
pub open spec fn completion_run(c: Completion, outcomes: Seq<bool>) -> Completion
    decreases outcomes.len(),
{
    if outcomes.len() == 0 {
        c
    } else {
        completion_run(completion_next(c, outcomes[0]), outcomes.drop_first())
    }
}

impl Completion {
    /// The completion cell of a chain of `legs` legs that has just begun.
    pub fn new(legs: usize) -> (r: Completion)
        requires
            legs >= 1,
        ensures
            r == completion_start(legs),
            completion_wf(r),
    {
        Completion { legs_total: legs, legs_done: 0, status: None, callbacks: 0 }
    }

    /// Record the end of one leg, failed if `error`; the completion
    /// interrupt fires, and the callback runs, when this resolves the cell.
    pub fn on_leg_end(&mut self, error: bool)
        requires
            completion_wf(*old(self)),
        ensures
            *final(self) == completion_next(*old(self), error),
            completion_wf(*final(self)),
        no_unwind
    {
        if let Some(_) = self.status {
            return;
        }
        if error {
            self.status = Some(CallbackStatus::TransferError);
            self.callbacks = self.callbacks + 1;
        } else if self.legs_done + 1 == self.legs_total {
            self.legs_done = self.legs_done + 1;
            self.status = Some(CallbackStatus::TransferComplete);
            self.callbacks = self.callbacks + 1;
        } else {
            self.legs_done = self.legs_done + 1;
        }
    }

    /// Whether the callback has run.
    pub fn is_resolved(&self) -> (r: bool)
        ensures
            r == self.status is Some,
    {
        self.status.is_some()
    }
}

/// The two ends of a transfer, owned by it for as long as it runs.
pub struct BufferPair<S, D> {
    pub source: S,
    pub destination: D,
}

/// An in-flight DMA transfer: a busy channel, the buffers its legs use, and
/// its completion cell.
pub struct Transfer<S, D> {
    channel: Channel<Busy>,
    buffers: BufferPair<S, D>,
    completion: Completion,
}

impl<S, D> Transfer<S, D> {
    #[verifier::type_invariant]
    spec fn inv(self) -> bool {
        &&& completion_wf(self.completion)
        &&& self.completion.legs_total == self.channel.spec_legs().len()
    }

    pub closed spec fn spec_channel(&self) -> Channel<Busy> {
        self.channel
    }

    pub closed spec fn spec_source(&self) -> S {
        self.buffers.source
    }

    pub closed spec fn spec_destination(&self) -> D {
        self.buffers.destination
    }

    pub closed spec fn spec_completion(&self) -> Completion {
        self.completion
    }

    /// The busy channel that runs the transfer.
    pub fn channel(&self) -> (r: &Channel<Busy>)
        ensures
            *r == self.spec_channel(),
    {
        &self.channel
    }

    pub fn source(&self) -> (r: &S)
        ensures
            *r == self.spec_source(),
    {
        &self.buffers.source
    }

    pub fn destination(&self) -> (r: &D)
        ensures
            *r == self.spec_destination(),
    {
        &self.buffers.destination
    }

    pub fn completion(&self) -> (r: Completion)
        ensures
            r == self.spec_completion(),
            completion_wf(r),
    {
        proof {
            use_type_invariant(self);
        }
        self.completion
    }

    /// Whether the completion callback has run.
    pub fn complete(&self) -> (r: bool)
        ensures
            r == self.spec_completion().status is Some,
    {
        self.completion.is_resolved()
    }

    /// The status the completion callback received, once it has run.
    pub fn status(&self) -> (r: Option<CallbackStatus>)
        ensures
            r == self.spec_completion().status,
    {
        self.completion.status
    }

    /// The hardware reports the end of one leg, failed if `error`.
    pub fn on_leg_end(&mut self, error: bool)
        ensures
            final(self).spec_completion() == completion_next(old(self).spec_completion(), error),
            final(self).spec_channel() == old(self).spec_channel(),
            final(self).spec_source() == old(self).spec_source(),
            final(self).spec_destination() == old(self).spec_destination(),
    {
        proof {
            use_type_invariant(&*self);
        }
        self.completion.on_leg_end(error);
    }

    /// Give back the channel, ready again, and both buffers, once the
    /// completion callback has run; otherwise hand the transfer back.
    pub fn free(self) -> (r: Result<(Channel<Ready>, S, D), Transfer<S, D>>)
        ensures
            self.spec_completion().status is Some <==> r is Ok,
            r matches Ok((ch, s, d)) ==> {
                &&& ch.spec_id() == self.spec_channel().spec_id()
                &&& ch.spec_interrupts() == self.spec_channel().spec_interrupts()
                &&& ch.spec_legs() == Seq::<DmacDescriptor>::empty()
                &&& ch.spec_trigger() is None
                &&& s == self.spec_source()
                &&& d == self.spec_destination()
            },
            r matches Err(t) ==> t == self,
    {
        if self.completion.is_resolved() {
            let Transfer { channel, buffers, completion: _ } = self;
            let BufferPair { source, destination } = buffers;
            Ok((channel.into_ready(), source, destination))
        } else {
            Err(self)
        }
    }
}

impl<S: Buffer, D: Buffer> Transfer<S, D> {
    /// Arm `channel` with the leg from `source` to `destination`, followed by
    /// the leg `next` if given, enable it on `trigger`, and hand back the
    /// transfer that now owns the channel and both buffers.
    pub fn begin_linked(
        channel: Channel<Ready>,
        source: S,
        destination: D,
        trigger: u8,
        action: TriggerAction,
        next: Option<&DmacDescriptor>,
        hw: &mut HwTrace,
    ) -> (r: Transfer<S, D>)
        requires
            leg_ok(&source, &destination),
        ensures
            r.spec_channel().spec_id() == channel.spec_id(),
            r.spec_channel().spec_interrupts() == channel.spec_interrupts(),
            r.spec_channel().spec_legs() == chain(leg_descriptor(&source, &destination), linked_leg(next)),
            r.spec_channel().spec_trigger() == Some((trigger, action)),
            r.spec_source() == source,
            r.spec_destination() == destination,
            r.spec_completion() == completion_start(r.spec_channel().spec_legs().len() as usize),
            final(hw)@ == old(hw)@.push(
                HwEvent::DescriptorCommitted {
                    channel: channel.spec_id(),
                    first: leg_descriptor(&source, &destination),
                    next: linked_leg(next),
                },
            ).push(HwEvent::ChannelEnabled { channel: channel.spec_id(), trigger, action }),
    {
        let mut ch = channel;
        ch.transfer_unchecked(&source, &destination, trigger, action, next, hw);
        let legs = ch.legs().len();
        let completion = Completion::new(legs);
        Transfer { channel: ch.into_busy(), buffers: BufferPair { source, destination }, completion }
    }

    /// Arm `channel` with the single leg from `source` to `destination`,
    /// enable it on `trigger`, and hand back the transfer that owns them.
    pub fn begin(
        channel: Channel<Ready>,
        source: S,
        destination: D,
        trigger: u8,
        action: TriggerAction,
        hw: &mut HwTrace,
    ) -> (r: Transfer<S, D>)
        requires
            leg_ok(&source, &destination),
        ensures
            r.spec_channel().spec_id() == channel.spec_id(),
            r.spec_channel().spec_interrupts() == channel.spec_interrupts(),
            r.spec_channel().spec_legs() == seq![leg_descriptor(&source, &destination)],
            r.spec_channel().spec_trigger() == Some((trigger, action)),
            r.spec_source() == source,
            r.spec_destination() == destination,
            r.spec_completion() == completion_start(1),
            final(hw)@ == old(hw)@.push(
                HwEvent::DescriptorCommitted {
                    channel: channel.spec_id(),
                    first: leg_descriptor(&source, &destination),
                    next: None,
                },
            ).push(HwEvent::ChannelEnabled { channel: channel.spec_id(), trigger, action }),
    {
        Self::begin_linked(channel, source, destination, trigger, action, None, hw)
    }
}

} // verus!
