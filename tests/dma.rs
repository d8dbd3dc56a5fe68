use sercom_dma::buffer::{BeatSize, Buffer, MutSliceBuffer, SercomPtr, SharedSliceBuffer};
use sercom_dma::dmac::{
    trigger_action, CallbackStatus, Channel, ChipFamily, DmacDescriptor, HwEvent, HwTrace,
    InterruptFlags, TriggerAction,
};
use sercom_dma::engine::{read_dma, read_dma_linked, write_dma, write_dma_linked};
use sercom_dma::sercom::{i2c_dma_len_ok, BusState, I2c, I2cError, I2cStatus, Sercom, Spi, Uart};
use sercom_dma::transfer::{Completion, Transfer};

const DATA: usize = 0x4200_0828;
const RAM: usize = 0x2000_0100;

fn sercom(family: ChipFamily) -> Sercom {
    Sercom { family, data_addr: DATA, dma_rx_trigger: 0x04, dma_tx_trigger: 0x05 }
}

fn idle() -> I2cStatus {
    I2cStatus { bus_state: BusState::Idle, bus_error: false, arbitration_lost: false, length_error: false }
}

fn tcmpl() -> InterruptFlags {
    InterruptFlags::new().with_tcmpl(true)
}

#[test]
fn beat_widths() {
    assert_eq!(BeatSize::Byte.bytes(), 1);
    assert_eq!(BeatSize::HalfWord.bytes(), 2);
    assert_eq!(BeatSize::Word.bytes(), 4);
}

#[test]
fn register_adapter_is_one_fixed_beat() {
    for beat in [BeatSize::Byte, BeatSize::HalfWord, BeatSize::Word] {
        let p = SercomPtr::new(DATA, beat);
        assert!(!p.incrementing());
        assert_eq!(p.buffer_len(), 1);
        assert_eq!(p.dma_ptr(), DATA);
        assert_eq!(p.beat_size(), beat);
    }
}

#[test]
fn shared_slice_of_ten_bytes() {
    let s = SharedSliceBuffer::from_slice(RAM, 10, BeatSize::Byte);
    assert_eq!(s.buffer_len(), 10);
    assert!(s.incrementing());
    assert_eq!(s.dma_ptr(), RAM + 10);
}

#[test]
fn shared_slice_of_one_word_does_not_increment() {
    let s = SharedSliceBuffer::from_slice(RAM, 1, BeatSize::Word);
    assert_eq!(s.buffer_len(), 1);
    assert!(!s.incrementing());
    assert_eq!(s.dma_ptr(), RAM);
}

#[test]
fn shared_slice_counts_beats_not_bytes() {
    let s = SharedSliceBuffer::from_slice_unchecked(RAM, RAM + 12, BeatSize::Word);
    assert_eq!(s.buffer_len(), 3);
    assert!(s.incrementing());
    assert_eq!(s.dma_ptr(), RAM + 12);
    let h = SharedSliceBuffer::from_slice(RAM, 4, BeatSize::HalfWord);
    assert_eq!(h.buffer_len(), 4);
    assert_eq!(h.dma_ptr(), RAM + 8);
}

#[test]
fn empty_shared_slice() {
    let s = SharedSliceBuffer::from_slice(RAM, 0, BeatSize::Byte);
    assert_eq!(s.buffer_len(), 0);
    assert!(!s.incrementing());
    assert_eq!(s.dma_ptr(), RAM);
}

#[test]
fn mut_slice_matches_shared_slice_geometry() {
    let m = MutSliceBuffer::from_slice(RAM, 6, BeatSize::HalfWord);
    assert_eq!(m.buffer_len(), 6);
    assert!(m.incrementing());
    assert_eq!(m.dma_ptr(), RAM + 12);
    let one = MutSliceBuffer::from_slice_unchecked(RAM, RAM + 2, BeatSize::HalfWord);
    assert_eq!(one.buffer_len(), 1);
    assert!(!one.incrementing());
}

#[test]
fn trigger_action_by_family() {
    assert_eq!(trigger_action(ChipFamily::D5x), TriggerAction::Burst);
    assert_eq!(trigger_action(ChipFamily::D21), TriggerAction::Beat);
    assert_eq!(trigger_action(ChipFamily::D11), TriggerAction::Beat);
}

#[test]
fn descriptor_of_memory_to_register_leg() {
    let s = SharedSliceBuffer::from_slice(RAM, 10, BeatSize::Byte);
    let p = SercomPtr::new(DATA, BeatSize::Byte);
    let d = DmacDescriptor::for_leg(&s, &p);
    assert_eq!(
        d,
        DmacDescriptor {
            src_addr: RAM + 10,
            dst_addr: DATA,
            beat: BeatSize::Byte,
            btcnt: 10,
            src_inc: true,
            dst_inc: false,
        }
    );
}

#[test]
fn descriptor_of_register_to_memory_leg() {
    let m = MutSliceBuffer::from_slice(RAM, 300, BeatSize::HalfWord);
    let p = SercomPtr::new(DATA, BeatSize::HalfWord);
    let d = DmacDescriptor::for_leg(&p, &m);
    assert_eq!(d.src_addr, DATA);
    assert_eq!(d.dst_addr, RAM + 600);
    assert_eq!(d.btcnt, 300);
    assert!(!d.src_inc);
    assert!(d.dst_inc);
}

#[test]
fn bus_check_on_idle_bus_hands_out_token() {
    let mut i2c = I2c::new(sercom(ChipFamily::D21), idle());
    assert!(i2c.init_dma_transfer().is_ok());
}

#[test]
fn bus_check_errors() {
    let cases = [
        (I2cStatus { bus_error: true, ..idle() }, I2cError::BusError),
        (I2cStatus { arbitration_lost: true, ..idle() }, I2cError::ArbitrationLost),
        (I2cStatus { length_error: true, ..idle() }, I2cError::LengthError),
        (I2cStatus { bus_state: BusState::Busy, ..idle() }, I2cError::BusError),
        (I2cStatus { bus_state: BusState::Owner, ..idle() }, I2cError::BusError),
        (I2cStatus { bus_state: BusState::Unknown, ..idle() }, I2cError::BusError),
        (I2cStatus { bus_error: true, arbitration_lost: true, ..idle() }, I2cError::BusError),
        (I2cStatus { arbitration_lost: true, length_error: true, ..idle() }, I2cError::ArbitrationLost),
    ];
    for (status, expected) in cases {
        let mut i2c = I2c::new(sercom(ChipFamily::D21), status);
        match i2c.init_dma_transfer() {
            Ok(_) => panic!("bus check passed on {:?}", status),
            Err(e) => assert_eq!(e, expected),
        }
        assert_eq!(i2c.read_status(), status);
    }
}

#[test]
fn i2c_length_bounds() {
    assert!(!i2c_dma_len_ok(0));
    assert!(i2c_dma_len_ok(1));
    assert!(i2c_dma_len_ok(10));
    assert!(i2c_dma_len_ok(255));
    assert!(!i2c_dma_len_ok(256));
}

#[test]
fn i2c_zero_length_send_is_refused_before_any_register_write() {
    let buf = SharedSliceBuffer::from_slice(RAM, 0, BeatSize::Byte);
    let hw = HwTrace::new();
    assert!(!i2c_dma_len_ok(buf.buffer_len()));
    assert!(hw.events().is_empty());
}

#[test]
fn i2c_send_of_256_bytes_is_refused() {
    let buf = SharedSliceBuffer::from_slice(RAM, 256, BeatSize::Byte);
    assert!(!i2c_dma_len_ok(buf.buffer_len()));
}

#[test]
fn i2c_send_ten_bytes_busy_until_complete() {
    let mut hw = HwTrace::new();
    let mut i2c = I2c::new(sercom(ChipFamily::D21), idle());
    let token = i2c.init_dma_transfer().unwrap();
    let buf = SharedSliceBuffer::from_slice(RAM, 10, BeatSize::Byte);
    let channel = Channel::new(3);
    let xfer = i2c.send_with_dma(0x50, token, buf, channel, &mut hw);
    assert_eq!(xfer.channel().id(), 3);
    assert_eq!(xfer.channel().legs().len(), 1);
    assert_eq!(xfer.channel().trigger(), Some((0x05, TriggerAction::Beat)));
    assert!(!xfer.complete());
    assert_eq!(xfer.status(), None);
    let mut xfer = match xfer.free() {
        Ok(_) => panic!("a running transfer gave its channel back"),
        Err(t) => t,
    };
    xfer.on_leg_end(false);
    assert!(xfer.complete());
    assert_eq!(xfer.status(), Some(CallbackStatus::TransferComplete));
    assert_eq!(xfer.completion().callbacks, 1);
    let (channel, buf, i2c) = match xfer.free() {
        Ok(parts) => parts,
        Err(_) => panic!("a completed transfer kept its channel"),
    };
    assert_eq!(channel.id(), 3);
    assert!(channel.legs().is_empty());
    assert_eq!(channel.trigger(), None);
    assert_eq!(buf.buffer_len(), 10);
    assert_eq!(i2c.data_ptr(), DATA);
}

#[test]
fn i2c_send_arms_dma_before_start_condition() {
    let mut hw = HwTrace::new();
    let mut i2c = I2c::new(sercom(ChipFamily::D5x), idle());
    let token = i2c.init_dma_transfer().unwrap();
    let buf = SharedSliceBuffer::from_slice(RAM, 10, BeatSize::Byte);
    let _xfer = i2c.send_with_dma(0x50, token, buf, Channel::new(0), &mut hw);
    let leg = DmacDescriptor {
        src_addr: RAM + 10,
        dst_addr: DATA,
        beat: BeatSize::Byte,
        btcnt: 10,
        src_inc: true,
        dst_inc: false,
    };
    assert_eq!(
        hw.events(),
        &vec![
            HwEvent::InterruptsEnabled { channel: 0, flags: tcmpl() },
            HwEvent::DescriptorCommitted { channel: 0, first: leg, next: None },
            HwEvent::ChannelEnabled { channel: 0, trigger: 0x05, action: TriggerAction::Burst },
            HwEvent::I2cStart { address: 0x50, len: 10, read: false },
        ]
    );
}

#[test]
fn i2c_receive_arms_dma_before_start_condition() {
    let mut hw = HwTrace::new();
    let mut i2c = I2c::new(sercom(ChipFamily::D21), idle());
    let token = i2c.init_dma_transfer().unwrap();
    let buf = MutSliceBuffer::from_slice(RAM, 255, BeatSize::Byte);
    let xfer = i2c.receive_with_dma(0x1e, token, buf, Channel::new(1), &mut hw);
    let ev = hw.events();
    assert_eq!(ev.len(), 4);
    assert_eq!(ev[0], HwEvent::InterruptsEnabled { channel: 1, flags: tcmpl() });
    match ev[1] {
        HwEvent::DescriptorCommitted { channel, first, next } => {
            assert_eq!(channel, 1);
            assert_eq!(first.src_addr, DATA);
            assert_eq!(first.dst_addr, RAM + 255);
            assert_eq!(first.btcnt, 255);
            assert!(!first.src_inc);
            assert!(first.dst_inc);
            assert_eq!(next, None);
        }
        other => panic!("unexpected {:?}", other),
    }
    assert_eq!(ev[2], HwEvent::ChannelEnabled { channel: 1, trigger: 0x04, action: TriggerAction::Beat });
    assert_eq!(ev[3], HwEvent::I2cStart { address: 0x1e, len: 255, read: true });
    assert_eq!(xfer.destination().buffer_len(), 255);
    assert_eq!(xfer.channel().interrupts(), tcmpl());
}

#[test]
fn i2c_one_byte_transaction() {
    let mut hw = HwTrace::new();
    let mut i2c = I2c::new(sercom(ChipFamily::D11), idle());
    let token = i2c.init_dma_transfer().unwrap();
    let buf = SharedSliceBuffer::from_slice(RAM, 1, BeatSize::Byte);
    let xfer = i2c.send_with_dma(0x08, token, buf, Channel::new(2), &mut hw);
    assert_eq!(hw.events()[3], HwEvent::I2cStart { address: 0x08, len: 1, read: false });
    assert_eq!(xfer.channel().legs()[0].btcnt, 1);
    assert!(!xfer.channel().legs()[0].src_inc);
}

#[test]
fn hardware_error_resolves_with_error_once() {
    let mut hw = HwTrace::new();
    let uart = Uart::new(sercom(ChipFamily::D21), BeatSize::Byte);
    let buf = SharedSliceBuffer::from_slice(RAM, 4, BeatSize::Byte);
    let mut xfer = uart.send_with_dma(buf, Channel::new(5), &mut hw);
    xfer.on_leg_end(true);
    assert_eq!(xfer.status(), Some(CallbackStatus::TransferError));
    assert_eq!(xfer.completion().callbacks, 1);
    xfer.on_leg_end(false);
    xfer.on_leg_end(true);
    assert_eq!(xfer.status(), Some(CallbackStatus::TransferError));
    assert_eq!(xfer.completion().callbacks, 1);
    assert!(xfer.free().is_ok());
}

#[test]
fn normal_finish_resolves_with_success_once() {
    let mut hw = HwTrace::new();
    let uart = Uart::new(sercom(ChipFamily::D21), BeatSize::Byte);
    let buf = MutSliceBuffer::from_slice(RAM, 4, BeatSize::Byte);
    let mut xfer = uart.receive_with_dma(buf, Channel::new(5), &mut hw);
    assert_eq!(xfer.completion().callbacks, 0);
    xfer.on_leg_end(false);
    xfer.on_leg_end(true);
    assert_eq!(xfer.status(), Some(CallbackStatus::TransferComplete));
    assert_eq!(xfer.completion().callbacks, 1);
}

#[test]
fn linked_chain_fires_one_interrupt() {
    let mut hw = HwTrace::new();
    let src = SharedSliceBuffer::from_slice(RAM, 8, BeatSize::Byte);
    let reg = SercomPtr::new(DATA, BeatSize::Byte);
    let second = DmacDescriptor {
        src_addr: RAM + 0x100,
        dst_addr: DATA,
        beat: BeatSize::Byte,
        btcnt: 16,
        src_inc: true,
        dst_inc: false,
    };
    let mut xfer =
        Transfer::begin_linked(Channel::new(7), src, reg, 0x05, TriggerAction::Beat, Some(&second), &mut hw);
    assert_eq!(xfer.channel().legs().len(), 2);
    assert_eq!(xfer.channel().legs()[1], second);
    assert_eq!(xfer.completion().legs_total, 2);
    xfer.on_leg_end(false);
    assert_eq!(xfer.completion().callbacks, 0);
    assert!(!xfer.complete());
    xfer.on_leg_end(false);
    assert_eq!(xfer.completion().callbacks, 1);
    assert_eq!(xfer.status(), Some(CallbackStatus::TransferComplete));
    xfer.on_leg_end(false);
    assert_eq!(xfer.completion().callbacks, 1);
}

#[test]
fn linked_chain_error_in_first_leg() {
    let mut c = Completion::new(2);
    c.on_leg_end(true);
    assert_eq!(c.status, Some(CallbackStatus::TransferError));
    assert_eq!(c.callbacks, 1);
    assert_eq!(c.legs_done, 0);
    c.on_leg_end(false);
    assert_eq!(c.callbacks, 1);
    assert!(c.is_resolved());
}

#[test]
fn completion_cell_counts_legs() {
    let mut c = Completion::new(3);
    assert!(!c.is_resolved());
    c.on_leg_end(false);
    c.on_leg_end(false);
    assert_eq!(c.legs_done, 2);
    assert_eq!(c.callbacks, 0);
    c.on_leg_end(false);
    assert_eq!(c.legs_done, 3);
    assert_eq!(c.status, Some(CallbackStatus::TransferComplete));
    assert_eq!(c.callbacks, 1);
}

#[test]
fn engine_write_commits_one_leg() {
    let mut hw = HwTrace::new();
    let s = sercom(ChipFamily::D5x);
    let mut ch = Channel::new(2);
    let buf = SharedSliceBuffer::from_slice(RAM, 32, BeatSize::Byte);
    write_dma(&mut ch, &s, SercomPtr::new(DATA, BeatSize::Byte), &buf, &mut hw);
    assert_eq!(ch.trigger(), Some((0x05, TriggerAction::Burst)));
    assert_eq!(ch.legs().len(), 1);
    assert_eq!(ch.legs()[0].src_addr, RAM + 32);
    assert_eq!(ch.legs()[0].dst_addr, DATA);
    assert_eq!(ch.legs()[0].btcnt, 32);
    assert_eq!(hw.events().len(), 2);
    assert_eq!(hw.events()[1], HwEvent::ChannelEnabled { channel: 2, trigger: 0x05, action: TriggerAction::Burst });
}

#[test]
fn engine_read_commits_one_leg() {
    let mut hw = HwTrace::new();
    let s = sercom(ChipFamily::D21);
    let mut ch = Channel::new(4);
    let buf = MutSliceBuffer::from_slice(RAM, 5, BeatSize::Word);
    read_dma(&mut ch, &s, SercomPtr::new(DATA, BeatSize::Word), &buf, &mut hw);
    assert_eq!(ch.trigger(), Some((0x04, TriggerAction::Beat)));
    assert_eq!(ch.legs()[0].src_addr, DATA);
    assert_eq!(ch.legs()[0].dst_addr, RAM + 20);
    assert_eq!(ch.legs()[0].beat, BeatSize::Word);
    assert_eq!(ch.legs()[0].btcnt, 5);
}

#[test]
fn engine_linked_legs_commit_before_enable() {
    let mut hw = HwTrace::new();
    let s = sercom(ChipFamily::D21);
    let mut ch = Channel::new(6);
    let first = MutSliceBuffer::from_slice(RAM, 3, BeatSize::Byte);
    let second = DmacDescriptor::for_leg(&SercomPtr::new(DATA, BeatSize::Byte), &MutSliceBuffer::from_slice(RAM + 64, 7, BeatSize::Byte));
    read_dma_linked(&mut ch, &s, SercomPtr::new(DATA, BeatSize::Byte), &first, Some(&second), &mut hw);
    assert_eq!(ch.legs().len(), 2);
    assert_eq!(ch.legs()[1], second);
    match hw.events()[0] {
        HwEvent::DescriptorCommitted { next, .. } => assert_eq!(next, Some(second)),
        other => panic!("unexpected {:?}", other),
    }
    assert_eq!(hw.events()[1], HwEvent::ChannelEnabled { channel: 6, trigger: 0x04, action: TriggerAction::Beat });

    let mut ch2 = Channel::new(8);
    let out = SharedSliceBuffer::from_slice(RAM, 2, BeatSize::Byte);
    write_dma_linked(&mut ch2, &s, SercomPtr::new(DATA, BeatSize::Byte), &out, None, &mut hw);
    assert_eq!(ch2.legs().len(), 1);
    assert_eq!(hw.events().len(), 4);
}

#[test]
fn uart_send_arms_without_start() {
    let mut hw = HwTrace::new();
    let uart = Uart::new(sercom(ChipFamily::D5x), BeatSize::HalfWord);
    let buf = SharedSliceBuffer::from_slice(RAM, 9, BeatSize::HalfWord);
    let xfer = uart.send_with_dma(buf, Channel::new(0), &mut hw);
    assert_eq!(hw.events().len(), 3);
    assert_eq!(hw.events()[0], HwEvent::InterruptsEnabled { channel: 0, flags: tcmpl() });
    assert_eq!(xfer.channel().trigger(), Some((0x05, TriggerAction::Burst)));
    assert_eq!(xfer.channel().legs()[0].src_addr, RAM + 18);
    assert_eq!(xfer.channel().legs()[0].btcnt, 9);
}

#[test]
fn spi_send_and_receive() {
    let mut hw = HwTrace::new();
    let spi = Spi::new(sercom(ChipFamily::D21), BeatSize::Byte);
    let buf = SharedSliceBuffer::from_slice(RAM, 16, BeatSize::Byte);
    let mut xfer = spi.send_with_dma(buf, Channel::new(1), &mut hw);
    assert_eq!(xfer.channel().trigger(), Some((0x05, TriggerAction::Beat)));
    xfer.on_leg_end(false);
    let (ch, _buf, spi) = match xfer.free() {
        Ok(parts) => parts,
        Err(_) => panic!("transfer did not complete"),
    };
    let dst = MutSliceBuffer::from_slice(RAM + 0x40, 16, BeatSize::Byte);
    let xfer = spi.receive_with_dma(dst, ch, &mut hw);
    assert_eq!(xfer.channel().id(), 1);
    assert_eq!(xfer.channel().trigger(), Some((0x04, TriggerAction::Beat)));
    assert_eq!(xfer.channel().legs()[0].dst_addr, RAM + 0x40 + 16);
    assert_eq!(hw.events().len(), 6);
}
