//! The DMA controller as this library sees it: channels in a Ready or Busy
//! state, transfer-leg descriptors, the hardware operations they cause, and
//! the transfer handle that owns a busy channel until its completion.
use crate::buffer::{BeatSize, Buffer};
use vstd::prelude::*;

verus! {

/// How much one hardware trigger event moves.
#[derive(Clone, Copy, Debug, PartialEq, Eq, Structural)]
pub enum TriggerAction {
    Beat,
    Burst,
}

/// The chip families whose DMA controllers this library drives.
#[derive(Clone, Copy, Debug, PartialEq, Eq, Structural)]
pub enum ChipFamily {
    D11,
    D21,
    D5x,
}

/// The capability table of trigger granularity: only the D5x controller
/// moves a burst per peripheral trigger.
pub open spec fn family_trigger_action(family: ChipFamily) -> TriggerAction {
    match family {
        ChipFamily::D5x => TriggerAction::Burst,
        _ => TriggerAction::Beat,
    }
}

/// Trigger granularity of a chip family.
pub fn trigger_action(family: ChipFamily) -> (r: TriggerAction)
    ensures
        r == family_trigger_action(family),
{
    match family {
        ChipFamily::D5x => TriggerAction::Burst,
        _ => TriggerAction::Beat,
    }
}

/// The outcome handed to a transfer's completion callback.
#[derive(Clone, Copy, Debug, PartialEq, Eq, Structural)]
pub enum CallbackStatus {
    TransferComplete,
    TransferError,
}

/// Channel interrupt enables.
#[derive(Clone, Copy, Debug, PartialEq, Eq, Structural)]
pub struct InterruptFlags {
    /// Transfer complete.
    pub tcmpl: bool,
}

impl InterruptFlags {
    /// No interrupt enabled.
    pub fn new() -> (r: InterruptFlags)
        ensures
            !r.tcmpl,
    {
        InterruptFlags { tcmpl: false }
    }

    /// These flags with the transfer-complete enable set to `tcmpl`.
    pub fn with_tcmpl(self, tcmpl: bool) -> (r: InterruptFlags)
        ensures
            r.tcmpl == tcmpl,
    {
        InterruptFlags { tcmpl }
    }
}

/// Largest beat count of one descriptor: the hardware count field is 16 bits.
pub const MAX_BEAT_COUNT: usize = 65535;

/// One transfer leg as the DMA controller reads it from memory.
#[derive(Clone, Copy, Debug, PartialEq, Eq, Structural)]
pub struct DmacDescriptor {
    pub src_addr: usize,
    pub dst_addr: usize,
    pub beat: BeatSize,
    pub btcnt: u16,
    pub src_inc: bool,
    pub dst_inc: bool,
}

/// Whether a source and a destination can form one leg: same beat width, a
/// writable destination, beat counts that fit the descriptor, and either
/// equal counts or a one-beat end.
pub open spec fn leg_ok<S: Buffer, D: Buffer>(src: &S, dst: &D) -> bool {
    &&& src.spec_beat() == dst.spec_beat()
    &&& dst.spec_writable()
    &&& 1 <= src.spec_buffer_len() <= MAX_BEAT_COUNT
    &&& 1 <= dst.spec_buffer_len() <= MAX_BEAT_COUNT
    &&& (src.spec_buffer_len() == dst.spec_buffer_len() || src.spec_buffer_len() == 1
        || dst.spec_buffer_len() == 1)
}

/// The beat count of a leg: that of its longer end.
pub open spec fn leg_count(src_len: nat, dst_len: nat) -> nat {
    if src_len >= dst_len {
        src_len
    } else {
        dst_len
    }
}

/// The descriptor of the leg from `src` to `dst`.
pub open spec fn leg_descriptor<S: Buffer, D: Buffer>(src: &S, dst: &D) -> DmacDescriptor {
    DmacDescriptor {
        src_addr: src.spec_dma_ptr(),
        dst_addr: dst.spec_dma_ptr(),
        beat: src.spec_beat(),
        btcnt: leg_count(src.spec_buffer_len(), dst.spec_buffer_len()) as u16,
        src_inc: src.spec_incrementing(),
        dst_inc: dst.spec_incrementing(),
    }
}

impl DmacDescriptor {
    /// Descriptor of the leg from `src` to `dst`.
    pub fn for_leg<S: Buffer, D: Buffer>(src: &S, dst: &D) -> (r: DmacDescriptor)
        requires
            leg_ok(src, dst),
        ensures
            r == leg_descriptor(src, dst),
    {
        let src_len = src.buffer_len();
        let dst_len = dst.buffer_len();
        let count = if src_len >= dst_len {
            src_len
        } else {
            dst_len
        };
        DmacDescriptor {
            src_addr: src.dma_ptr(),
            dst_addr: dst.dma_ptr(),
            beat: src.beat_size(),
            btcnt: count as u16,
            src_inc: src.incrementing(),
            dst_inc: dst.incrementing(),
        }
    }
}

/// A hardware operation, in the order in which the hardware sees it.
#[derive(Clone, Copy, Debug, PartialEq, Eq, Structural)]
pub enum HwEvent {
    /// A channel's interrupt enables were written.
    InterruptsEnabled { channel: u8, flags: InterruptFlags },
    /// A channel's first descriptor was written, with the descriptor linked
    /// after it, if any.
    DescriptorCommitted { channel: u8, first: DmacDescriptor, next: Option<DmacDescriptor> },
    /// A channel was enabled on a peripheral trigger.
    ChannelEnabled { channel: u8, trigger: u8, action: TriggerAction },
    /// An I2C host issued a start condition for a transaction of `len` bytes.
    I2cStart { address: u8, len: u8, read: bool },
}

/// The record of the hardware operations performed, oldest first.
pub struct HwTrace {
    events: Vec<HwEvent>,
}

impl View for HwTrace {
    type V = Seq<HwEvent>;

    closed spec fn view(&self) -> Seq<HwEvent> {
        self.events@
    }
}

impl HwTrace {
    /// A trace in which nothing has happened yet.
    pub fn new() -> (r: HwTrace)
        ensures
            r@ == Seq::<HwEvent>::empty(),
    {
        HwTrace { events: Vec::new() }
    }

    /// The operations performed so far.
    pub fn events(&self) -> (r: &Vec<HwEvent>)
        ensures
            r@ == self@,
    {
        &self.events
    }

    pub(crate) fn record(&mut self, e: HwEvent)
        ensures
            final(self)@ == old(self)@.push(e),
    {
        self.events.push(e);
    }
}

/// Channel state: free, may be armed and started.
pub struct Ready;

/// Channel state: owned by an in-flight transfer.
pub struct Busy;

/// A DMA channel whose state, `Ready` or `Busy`, is part of its type.
///
/// A `Ready` channel is consumed when a transfer begins and only comes back
/// when that transfer is freed after its completion.
pub struct Channel<St> {
    id: u8,
    interrupts: InterruptFlags,
    legs: Vec<DmacDescriptor>,
    trigger: Option<(u8, TriggerAction)>,
    state: St,
}

impl<St> Channel<St> {
    pub closed spec fn spec_id(&self) -> u8 {
        self.id
    }

    pub closed spec fn spec_interrupts(&self) -> InterruptFlags {
        self.interrupts
    }

    /// The descriptors committed to the channel, first leg first.
    pub closed spec fn spec_legs(&self) -> Seq<DmacDescriptor> {
        self.legs@
    }

    /// The peripheral trigger and trigger action the channel was enabled on.
    pub closed spec fn spec_trigger(&self) -> Option<(u8, TriggerAction)> {
        self.trigger
    }

    pub fn id(&self) -> (r: u8)
        ensures
            r == self.spec_id(),
    {
        self.id
    }

    pub fn interrupts(&self) -> (r: InterruptFlags)
        ensures
            r == self.spec_interrupts(),
    {
        self.interrupts
    }

    pub fn legs(&self) -> (r: &Vec<DmacDescriptor>)
        ensures
            r@ == self.spec_legs(),
    {
        &self.legs
    }

    pub fn trigger(&self) -> (r: Option<(u8, TriggerAction)>)
        ensures
            r == self.spec_trigger(),
    {
        self.trigger
    }
}

/// The legs a channel runs: the first one, then the linked one if any.
pub open spec fn chain(first: DmacDescriptor, next: Option<DmacDescriptor>) -> Seq<DmacDescriptor> {
    match next {
        Some(n) => seq![first, n],
        None => seq![first],
    }
}

/// The descriptor that a link reference designates.
pub open spec fn linked_leg(next: Option<&DmacDescriptor>) -> Option<DmacDescriptor> {
    match next {
        Some(d) => Some(*d),
        None => None,
    }
}

impl Channel<Ready> {
    /// A free channel with no interrupt enabled and nothing committed.
    pub fn new(id: u8) -> (r: Channel<Ready>)
        ensures
            r.spec_id() == id,
            r.spec_interrupts() == (InterruptFlags { tcmpl: false }),
            r.spec_legs() == Seq::<DmacDescriptor>::empty(),
            r.spec_trigger() is None,
    {
        Channel { id, interrupts: InterruptFlags { tcmpl: false }, legs: Vec::new(), trigger: None, state: Ready }
    }

    /// Write the channel's interrupt enables.
    pub fn enable_interrupts(&mut self, flags: InterruptFlags, hw: &mut HwTrace)
        ensures
            final(self).spec_id() == old(self).spec_id(),
            final(self).spec_interrupts() == flags,
            final(self).spec_legs() == old(self).spec_legs(),
            final(self).spec_trigger() == old(self).spec_trigger(),
            final(hw)@ == old(hw)@.push(HwEvent::InterruptsEnabled { channel: old(self).spec_id(), flags }),
    {
        self.interrupts = flags;
        hw.record(HwEvent::InterruptsEnabled { channel: self.id, flags });
    }

    /// Run one leg from `src` to `dst`, followed by the leg `next` if given:
    /// commit the descriptors, then enable the channel on `trigger`. The
    /// linked leg is fully written before the channel can be triggered.
    pub fn transfer_unchecked<S: Buffer, D: Buffer>(
        &mut self,
        src: &S,
        dst: &D,
        trigger: u8,
        action: TriggerAction,
        next: Option<&DmacDescriptor>,
        hw: &mut HwTrace,
    )
        requires
            leg_ok(src, dst),
        ensures
            final(self).spec_id() == old(self).spec_id(),
            final(self).spec_interrupts() == old(self).spec_interrupts(),
            final(self).spec_legs() == chain(leg_descriptor(src, dst), linked_leg(next)),
            final(self).spec_trigger() == Some((trigger, action)),
            final(hw)@ == old(hw)@.push(
                HwEvent::DescriptorCommitted {
                    channel: old(self).spec_id(),
                    first: leg_descriptor(src, dst),
                    next: linked_leg(next),
                },
            ).push(HwEvent::ChannelEnabled { channel: old(self).spec_id(), trigger, action }),
    {
        let first = DmacDescriptor::for_leg(src, dst);
        let linked: Option<DmacDescriptor> = match next {
            Some(d) => Some(*d),
            None => None,
        };
        let mut legs: Vec<DmacDescriptor> = Vec::new();
        legs.push(first);
        match linked {
            Some(n) => legs.push(n),
            None => {},
        }
        proof {
            assert(legs@ =~= chain(first, linked));
        }
        self.legs = legs;
        hw.record(HwEvent::DescriptorCommitted { channel: self.id, first, next: linked });
        self.trigger = Some((trigger, action));
        hw.record(HwEvent::ChannelEnabled { channel: self.id, trigger, action });
    }

    pub(crate) fn into_busy(self) -> (r: Channel<Busy>)
        ensures
            r.spec_id() == self.spec_id(),
            r.spec_interrupts() == self.spec_interrupts(),
            r.spec_legs() == self.spec_legs(),
            r.spec_trigger() == self.spec_trigger(),
    {
        Channel { id: self.id, interrupts: self.interrupts, legs: self.legs, trigger: self.trigger, state: Busy }
    }
}

impl Channel<Busy> {
    /// The channel once its transfer has stopped: free again, with nothing
    /// committed.
    pub(crate) fn into_ready(self) -> (r: Channel<Ready>)
        ensures
            r.spec_id() == self.spec_id(),
            r.spec_interrupts() == self.spec_interrupts(),
            r.spec_legs() == Seq::<DmacDescriptor>::empty(),
            r.spec_trigger() is None,
    {
        Channel { id: self.id, interrupts: self.interrupts, legs: Vec::new(), trigger: None, state: Ready }
    }
}

} // verus!
