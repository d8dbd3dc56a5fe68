//! The transfer legs shared by every SERCOM peripheral: a read moves words
//! from the peripheral's data register into a buffer, a write moves a
//! buffer's words into it. The trigger action comes from the SERCOM's chip
//! family, never from the caller.
//!
//! The channel stays `Ready` in its type while the hardware runs the leg:
//! the caller must not reuse the channel or the buffer until the hardware
//! has stopped or completed the transfer.
use crate::buffer::{Buffer, SercomPtr};
use crate::dmac::{
    chain, family_trigger_action, leg_descriptor, leg_ok, linked_leg, trigger_action, Channel,
    DmacDescriptor, HwEvent, HwTrace, Ready,
};
use crate::sercom::Sercom;
use vstd::prelude::*;

verus! {

/// Read from the SERCOM data register `sercom_ptr` into `buf`, then run the
/// leg `next` if given.
pub fn read_dma_linked<B: Buffer>(
    channel: &mut Channel<Ready>,
    sercom: &Sercom,
    sercom_ptr: SercomPtr,
    buf: &B,
    next: Option<&DmacDescriptor>,
    hw: &mut HwTrace,
)
    requires
        leg_ok(&sercom_ptr, buf),
    ensures
        final(channel).spec_id() == old(channel).spec_id(),
        final(channel).spec_interrupts() == old(channel).spec_interrupts(),
        final(channel).spec_legs() == chain(leg_descriptor(&sercom_ptr, buf), linked_leg(next)),
        final(channel).spec_trigger() == Some((sercom.dma_rx_trigger, family_trigger_action(sercom.family))),
        final(hw)@ == old(hw)@.push(
            HwEvent::DescriptorCommitted {
                channel: old(channel).spec_id(),
                first: leg_descriptor(&sercom_ptr, buf),
                next: linked_leg(next),
            },
        ).push(
            HwEvent::ChannelEnabled {
                channel: old(channel).spec_id(),
                trigger: sercom.dma_rx_trigger,
                action: family_trigger_action(sercom.family),
            },
        ),
{
    let action = trigger_action(sercom.family);
    channel.transfer_unchecked(&sercom_ptr, buf, sercom.dma_rx_trigger, action, next, hw);
}

/// Read from the SERCOM data register `sercom_ptr` into `buf`.
pub fn read_dma<B: Buffer>(
    channel: &mut Channel<Ready>,
    sercom: &Sercom,
    sercom_ptr: SercomPtr,
    buf: &B,
    hw: &mut HwTrace,
)
    requires
        leg_ok(&sercom_ptr, buf),
    ensures
        final(channel).spec_id() == old(channel).spec_id(),
        final(channel).spec_interrupts() == old(channel).spec_interrupts(),
        final(channel).spec_legs() == seq![leg_descriptor(&sercom_ptr, buf)],
        final(channel).spec_trigger() == Some((sercom.dma_rx_trigger, family_trigger_action(sercom.family))),
        final(hw)@ == old(hw)@.push(
            HwEvent::DescriptorCommitted {
                channel: old(channel).spec_id(),
                first: leg_descriptor(&sercom_ptr, buf),
                next: None,
            },
        ).push(
            HwEvent::ChannelEnabled {
                channel: old(channel).spec_id(),
                trigger: sercom.dma_rx_trigger,
                action: family_trigger_action(sercom.family),
            },
        ),
{
    read_dma_linked(channel, sercom, sercom_ptr, buf, None, hw);
}

/// Write the words of `buf` into the SERCOM data register `sercom_ptr`,
/// then run the leg `next` if given.
pub fn write_dma_linked<B: Buffer>(
    channel: &mut Channel<Ready>,
    sercom: &Sercom,
    sercom_ptr: SercomPtr,
    buf: &B,
    next: Option<&DmacDescriptor>,
    hw: &mut HwTrace,
)
    requires
        leg_ok(buf, &sercom_ptr),
    ensures
        final(channel).spec_id() == old(channel).spec_id(),
        final(channel).spec_interrupts() == old(channel).spec_interrupts(),
        final(channel).spec_legs() == chain(leg_descriptor(buf, &sercom_ptr), linked_leg(next)),
        final(channel).spec_trigger() == Some((sercom.dma_tx_trigger, family_trigger_action(sercom.family))),
        final(hw)@ == old(hw)@.push(
            HwEvent::DescriptorCommitted {
                channel: old(channel).spec_id(),
                first: leg_descriptor(buf, &sercom_ptr),
                next: linked_leg(next),
            },
        ).push(
            HwEvent::ChannelEnabled {
                channel: old(channel).spec_id(),
                trigger: sercom.dma_tx_trigger,
                action: family_trigger_action(sercom.family),
            },
        ),
{
    let action = trigger_action(sercom.family);
    channel.transfer_unchecked(buf, &sercom_ptr, sercom.dma_tx_trigger, action, next, hw);
}

/// Write the words of `buf` into the SERCOM data register `sercom_ptr`.
pub fn write_dma<B: Buffer>(
    channel: &mut Channel<Ready>,
    sercom: &Sercom,
    sercom_ptr: SercomPtr,
    buf: &B,
    hw: &mut HwTrace,
)
    requires
        leg_ok(buf, &sercom_ptr),
    ensures
        final(channel).spec_id() == old(channel).spec_id(),
        final(channel).spec_interrupts() == old(channel).spec_interrupts(),
        final(channel).spec_legs() == seq![leg_descriptor(buf, &sercom_ptr)],
        final(channel).spec_trigger() == Some((sercom.dma_tx_trigger, family_trigger_action(sercom.family))),
        final(hw)@ == old(hw)@.push(
            HwEvent::DescriptorCommitted {
                channel: old(channel).spec_id(),
                first: leg_descriptor(buf, &sercom_ptr),
                next: None,
            },
        ).push(
            HwEvent::ChannelEnabled {
                channel: old(channel).spec_id(),
                trigger: sercom.dma_tx_trigger,
                action: family_trigger_action(sercom.family),
            },
        ),
{
    write_dma_linked(channel, sercom, sercom_ptr, buf, None, hw);
}

} // verus!
