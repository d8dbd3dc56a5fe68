//! Laws that relate the library's operations: what an I2C transaction of a
//! valid length arms, the order of the hardware operations of an I2C entry
//! point, and the one-shot completion of every transfer.
use crate::buffer::{BeatSize, Buffer};
use crate::dmac::{leg_descriptor, leg_ok, DmacDescriptor, HwEvent, InterruptFlags, TriggerAction, CallbackStatus};
use crate::sercom::{arm_events, i2c_len_ok, I2c, Spi, Uart};
use crate::transfer::{completion_next, completion_run, completion_start, completion_wf, Completion};
use vstd::prelude::*;

verus! {

/// The SERCOM peripherals, seen as the register end of a leg, are fixed
/// one-beat buffers at their data register, whatever their word width.
pub proof fn lemma_peripheral_registers_fixed(i2c: I2c, uart: Uart, spi: Spi)
    ensures
        !i2c.spec_incrementing() && i2c.spec_buffer_len() == 1,
        i2c.spec_dma_ptr() == i2c.spec_sercom().data_addr,
        !uart.spec_incrementing() && uart.spec_buffer_len() == 1,
        uart.spec_dma_ptr() == uart.spec_sercom().data_addr,
        !spi.spec_incrementing() && spi.spec_buffer_len() == 1,
        spi.spec_dma_ptr() == spi.spec_sercom().data_addr,
{
}

/// An I2C send of any length in `[1, 255]` can be armed, and its leg moves
/// exactly that many bytes, one per trigger, into the fixed data register.
pub proof fn lemma_i2c_send_arms<B: Buffer>(buf: B, i2c: I2c)
    requires
        i2c_len_ok(buf.spec_buffer_len()),
        buf.spec_beat() == BeatSize::Byte,
    ensures
        leg_ok(&buf, &i2c),
        leg_descriptor(&buf, &i2c).btcnt == buf.spec_buffer_len(),
        leg_descriptor(&buf, &i2c).dst_addr == i2c.spec_sercom().data_addr,
        !leg_descriptor(&buf, &i2c).dst_inc,
{
}

/// An I2C receive of any length in `[1, 255]` into a writable buffer can be
/// armed, and its leg moves exactly that many bytes out of the fixed data
/// register.
pub proof fn lemma_i2c_receive_arms<B: Buffer>(buf: B, i2c: I2c)
    requires
        i2c_len_ok(buf.spec_buffer_len()),
        buf.spec_beat() == BeatSize::Byte,
        buf.spec_writable(),
    ensures
        leg_ok(&i2c, &buf),
        leg_descriptor(&i2c, &buf).btcnt == buf.spec_buffer_len(),
        leg_descriptor(&i2c, &buf).src_addr == i2c.spec_sercom().data_addr,
        !leg_descriptor(&i2c, &buf).src_inc,
{
}

/// The hardware operations of an I2C DMA entry point: the channel's
/// interrupt enable, then its descriptor commit, then its trigger enable, all
/// come strictly before the start condition, which is the last operation.
pub proof fn lemma_i2c_arm_before_start(
    before: Seq<HwEvent>,
    channel: u8,
    first: DmacDescriptor,
    trigger: u8,
    action: TriggerAction,
    address: u8,
    len: u8,
    read: bool,
)
    ensures
        ({
            let t = before + arm_events(channel, first, trigger, action).push(
                HwEvent::I2cStart { address, len, read },
            );
            let n = before.len() as int;
            &&& t.len() == n + 4
            &&& t.subrange(0, n) == before
            &&& t[n] == HwEvent::InterruptsEnabled { channel, flags: InterruptFlags { tcmpl: true } }
            &&& t[n + 1] == HwEvent::DescriptorCommitted { channel, first, next: None }
            &&& t[n + 2] == HwEvent::ChannelEnabled { channel, trigger, action }
            &&& t[n + 3] == HwEvent::I2cStart { address, len, read }
            &&& forall|k: int| n <= k < n + 3 ==> !(#[trigger] t[k] is I2cStart)
        }),
{
    let t = before + arm_events(channel, first, trigger, action).push(
        HwEvent::I2cStart { address, len, read },
    );
    assert(t.subrange(0, before.len() as int) =~= before);
}

/// Once the callback has run, no further leg report changes the state.
pub proof fn lemma_resolved_stays(c: Completion, outcomes: Seq<bool>)
    requires
        c.status is Some,
    ensures
        completion_run(c, outcomes) == c,
    decreases outcomes.len(),
{
    if outcomes.len() > 0 {
        lemma_resolved_stays(completion_next(c, outcomes[0]), outcomes.drop_first());
    }
}

/// Whatever the hardware reports, the callback runs at most once, and only
/// together with a recorded status.
pub proof fn lemma_callback_at_most_once(c: Completion, outcomes: Seq<bool>)
    requires
        completion_wf(c),
    ensures
        completion_wf(completion_run(c, outcomes)),
        completion_run(c, outcomes).callbacks <= 1,
    decreases outcomes.len(),
{
    if outcomes.len() > 0 {
        lemma_callback_at_most_once(completion_next(c, outcomes[0]), outcomes.drop_first());
    }
}

proof fn lemma_run_from(c: Completion, outcomes: Seq<bool>)
    requires
        completion_wf(c),
        c.status is None,
        outcomes.len() >= c.legs_total - c.legs_done,
    ensures
        completion_run(c, outcomes).callbacks == 1,
        completion_run(c, outcomes).status == Some(CallbackStatus::TransferError) <==> exists|i: int|
            0 <= i < c.legs_total - c.legs_done && #[trigger] outcomes[i],
        completion_run(c, outcomes).status == Some(CallbackStatus::TransferComplete) <==> forall|i: int|
            0 <= i < c.legs_total - c.legs_done ==> !#[trigger] outcomes[i],
    decreases outcomes.len(),
{
    let c2 = completion_next(c, outcomes[0]);
    let rest = outcomes.drop_first();
    let remaining = c.legs_total - c.legs_done;
    if outcomes[0] || c.legs_done + 1 == c.legs_total {
        lemma_resolved_stays(c2, rest);
        if !outcomes[0] {
            assert forall|i: int| 0 <= i < remaining implies !#[trigger] outcomes[i] by {
                assert(i == 0);
            }
        }
    } else {
        lemma_run_from(c2, rest);
        if exists|i: int| 0 <= i < remaining && #[trigger] outcomes[i] {
            let i = choose|i: int| 0 <= i < remaining && #[trigger] outcomes[i];
            assert(rest[i - 1] == outcomes[i]);
        }
        if exists|j: int| 0 <= j < remaining - 1 && #[trigger] rest[j] {
            let j = choose|j: int| 0 <= j < remaining - 1 && #[trigger] rest[j];
            assert(outcomes[j + 1] == rest[j]);
        }
        if forall|j: int| 0 <= j < remaining - 1 ==> !#[trigger] rest[j] {
            assert forall|i: int| 0 <= i < remaining implies !#[trigger] outcomes[i] by {
                if i > 0 {
                    assert(rest[i - 1] == outcomes[i]);
                }
            }
        }
    }
}

/// A transfer of `legs` chained legs whose hardware has reported the end of
/// every leg runs its callback exactly once: with an error status exactly
/// when one of its legs failed, with a success status otherwise.
pub proof fn lemma_callback_exactly_once(legs: usize, outcomes: Seq<bool>)
    requires
        legs >= 1,
        outcomes.len() >= legs,
    ensures
        completion_run(completion_start(legs), outcomes).callbacks == 1,
        completion_run(completion_start(legs), outcomes).status == Some(CallbackStatus::TransferError)
            <==> exists|i: int| 0 <= i < legs && #[trigger] outcomes[i],
        completion_run(completion_start(legs), outcomes).status == Some(
            CallbackStatus::TransferComplete,
        ) <==> forall|i: int| 0 <= i < legs ==> !#[trigger] outcomes[i],
{
    lemma_run_from(completion_start(legs), outcomes);
}

proof fn lemma_quiet_from(c: Completion, outcomes: Seq<bool>)
    requires
        completion_wf(c),
        c.status is None,
        c.legs_done + outcomes.len() < c.legs_total,
        forall|i: int| 0 <= i < outcomes.len() ==> !#[trigger] outcomes[i],
    ensures
        completion_run(c, outcomes).callbacks == 0,
        completion_run(c, outcomes).legs_done == c.legs_done + outcomes.len(),
    decreases outcomes.len(),
{
    if outcomes.len() > 0 {
        let rest = outcomes.drop_first();
        assert(!outcomes[0]);
        assert forall|i: int| 0 <= i < rest.len() implies !#[trigger] rest[i] by {
            assert(rest[i] == outcomes[i + 1]);
        }
        lemma_quiet_from(completion_next(c, outcomes[0]), rest);
    }
}

/// In a chain of linked legs, the successful end of any leg but the last
/// fires no interrupt: the chain as a whole fires one.
pub proof fn lemma_no_interrupt_between_legs(legs: usize, outcomes: Seq<bool>)
    requires
        outcomes.len() < legs,
        forall|i: int| 0 <= i < outcomes.len() ==> !#[trigger] outcomes[i],
    ensures
        completion_run(completion_start(legs), outcomes).callbacks == 0,
        completion_run(completion_start(legs), outcomes).status is None,
        completion_run(completion_start(legs), outcomes).legs_done == outcomes.len(),
{
    lemma_quiet_from(completion_start(legs), outcomes);
    lemma_callback_at_most_once(completion_start(legs), outcomes);
}

} // verus!
