//! SERCOM peripherals and their DMA entry points.
//!
//! Each entry point enables the channel's transfer-complete interrupt,
//! commits the leg between the peripheral's data register and the caller's
//! buffer on the family's trigger action, and only then starts the
//! peripheral. The I2C entry points also need a bus-ready token, which only
//! a successful bus check hands out.
use crate::buffer::{BeatSize, Buffer};
use crate::dmac::{
    family_trigger_action, leg_descriptor, trigger_action, ChipFamily, DmacDescriptor, HwEvent,
    HwTrace, InterruptFlags, Ready, Channel, TriggerAction,
};
use crate::transfer::{completion_start, Transfer};
use vstd::prelude::*;

verus! {

/// What the DMA engine needs to know of one SERCOM instance.
#[derive(Clone, Copy, Debug, PartialEq, Eq, Structural)]
pub struct Sercom {
    /// The chip family, which fixes the trigger granularity.
    pub family: ChipFamily,
    /// Address of the data register.
    pub data_addr: usize,
    /// Trigger source that asks the DMA controller to read a received word.
    pub dma_rx_trigger: u8,
    /// Trigger source that asks the DMA controller for a word to send.
    pub dma_tx_trigger: u8,
}

/// The hardware operations that arm a channel for the single leg `first`:
/// the transfer-complete interrupt is enabled, the descriptor committed, and
/// the channel enabled on `trigger`.
pub open spec fn arm_events(channel: u8, first: DmacDescriptor, trigger: u8, action: TriggerAction) -> Seq<HwEvent> {
    seq![
        HwEvent::InterruptsEnabled { channel, flags: InterruptFlags { tcmpl: true } },
        HwEvent::DescriptorCommitted { channel, first, next: None },
        HwEvent::ChannelEnabled { channel, trigger, action },
    ]
}

/// Enable the transfer-complete interrupt of `channel`, then arm it with the
/// leg from `source` to `destination` and begin the transfer.
fn arm<S: Buffer, D: Buffer>(
    channel: Channel<Ready>,
    source: S,
    destination: D,
    trigger: u8,
    action: TriggerAction,
    hw: &mut HwTrace,
) -> (r: Transfer<S, D>)
    requires
        crate::dmac::leg_ok(&source, &destination),
    ensures
        r.spec_channel().spec_id() == channel.spec_id(),
        r.spec_channel().spec_interrupts() == (InterruptFlags { tcmpl: true }),
        r.spec_channel().spec_legs() == seq![leg_descriptor(&source, &destination)],
        r.spec_channel().spec_trigger() == Some((trigger, action)),
        r.spec_source() == source,
        r.spec_destination() == destination,
        r.spec_completion() == completion_start(1),
        final(hw)@ == old(hw)@ + arm_events(
            channel.spec_id(),
            leg_descriptor(&source, &destination),
            trigger,
            action,
        ),
{
    let mut channel = channel;
    let flags = InterruptFlags::new().with_tcmpl(true);
    channel.enable_interrupts(flags, hw);
    let r = Transfer::begin(channel, source, destination, trigger, action, hw);
    proof {
        assert(hw@ =~= old(hw)@ + arm_events(
            channel.spec_id(),
            leg_descriptor(&source, &destination),
            trigger,
            action,
        ));
    }
    r
}

/// State of the I2C bus as the host sees it.
#[derive(Clone, Copy, Debug, PartialEq, Eq, Structural)]
pub enum BusState {
    Unknown,
    Idle,
    Owner,
    Busy,
}

/// The I2C host's status register.
#[derive(Clone, Copy, Debug, PartialEq, Eq, Structural)]
pub struct I2cStatus {
    pub bus_state: BusState,
    pub bus_error: bool,
    pub arbitration_lost: bool,
    pub length_error: bool,
}

/// Why an I2C bus cannot start a transaction.
#[derive(Clone, Copy, Debug, PartialEq, Eq, Structural)]
pub enum I2cError {
    /// A bus error was flagged, or the bus is not idle.
    BusError,
    ArbitrationLost,
    LengthError,
}

/// What the bus check reports for a status: the error flags in order of
/// precedence, then whether the bus is idle.
pub open spec fn bus_check(status: I2cStatus) -> Result<(), I2cError> {
    if status.bus_error {
        Err(I2cError::BusError)
    } else if status.arbitration_lost {
        Err(I2cError::ArbitrationLost)
    } else if status.length_error {
        Err(I2cError::LengthError)
    } else if status.bus_state != BusState::Idle {
        Err(I2cError::BusError)
    } else {
        Ok(())
    }
}

/// Token standing for an I2C bus found ready to start a transaction. Only
/// [`I2c::init_dma_transfer`] makes one.
pub struct I2cBusReady {
    checked: (),
}

/// Largest I2C DMA transaction: the host's length field is 8 bits.
pub const I2C_MAX_DMA_LEN: usize = 255;

/// Whether an I2C DMA transaction may move `len` bytes.
pub open spec fn i2c_len_ok(len: nat) -> bool {
    1 <= len <= I2C_MAX_DMA_LEN
}

/// Whether an I2C DMA transaction may move `len` bytes: the I2C entry
/// points must not be called on any other length.
pub fn i2c_dma_len_ok(len: usize) -> (r: bool)
    ensures
        r == i2c_len_ok(len as nat),
{
    len >= 1 && len <= I2C_MAX_DMA_LEN
}

/// An I2C host on a SERCOM; its data register is one byte wide.
pub struct I2c {
    sercom: Sercom,
    status: I2cStatus,
}

impl I2c {
    pub closed spec fn spec_sercom(&self) -> Sercom {
        self.sercom
    }

    pub closed spec fn spec_status(&self) -> I2cStatus {
        self.status
    }

    /// A configured I2C host whose status register reads `status`.
    pub fn new(sercom: Sercom, status: I2cStatus) -> (r: I2c)
        ensures
            r.spec_sercom() == sercom,
            r.spec_status() == status,
    {
        I2c { sercom, status }
    }

    pub fn sercom(&self) -> (r: Sercom)
        ensures
            r == self.spec_sercom(),
    {
        self.sercom
    }

    pub fn read_status(&self) -> (r: I2cStatus)
        ensures
            r == self.spec_status(),
    {
        self.status
    }

    /// Address of the data register.
    pub fn data_ptr(&self) -> (r: usize)
        ensures
            r == self.spec_sercom().data_addr,
    {
        self.sercom.data_addr
    }

    fn check_bus_status(&self) -> (r: Result<(), I2cError>)
        ensures
            r == bus_check(self.spec_status()),
    {
        let status = self.status;
        if status.bus_error {
            Err(I2cError::BusError)
        } else if status.arbitration_lost {
            Err(I2cError::ArbitrationLost)
        } else if status.length_error {
            Err(I2cError::LengthError)
        } else if status.bus_state != BusState::Idle {
            Err(I2cError::BusError)
        } else {
            Ok(())
        }
    }

    /// Check that the bus can start a transaction, and hand out the token
    /// that the DMA entry points ask for if it can.
    pub fn init_dma_transfer(&mut self) -> (r: Result<I2cBusReady, I2cError>)
        ensures
            *final(self) == *old(self),
            r is Ok <==> bus_check(old(self).spec_status()) is Ok,
            r matches Err(e) ==> bus_check(old(self).spec_status()) == Err::<(), I2cError>(e),
    {
        match self.check_bus_status() {
            Ok(()) => Ok(I2cBusReady { checked: () }),
            Err(e) => Err(e),
        }
    }

    fn start_dma(&self, address: u8, len: u8, read: bool, hw: &mut HwTrace)
        ensures
            final(hw)@ == old(hw)@.push(HwEvent::I2cStart { address, len, read }),
    {
        hw.record(HwEvent::I2cStart { address, len, read });
    }

    /// Receive `buf.buffer_len()` bytes from the device at `address` into
    /// `buf`: arm the channel on the host's receive trigger, then issue the
    /// start condition of the read. The transfer owns the host and `buf`.
    pub fn receive_with_dma<B: Buffer>(
        self,
        address: u8,
        _ready_token: I2cBusReady,
        buf: B,
        channel: Channel<Ready>,
        hw: &mut HwTrace,
    ) -> (r: Transfer<I2c, B>)
        requires
            i2c_len_ok(buf.spec_buffer_len()),
            buf.spec_beat() == BeatSize::Byte,
            buf.spec_writable(),
        ensures
            r.spec_channel().spec_id() == channel.spec_id(),
            r.spec_channel().spec_interrupts() == (InterruptFlags { tcmpl: true }),
            r.spec_channel().spec_legs() == seq![leg_descriptor(&self, &buf)],
            r.spec_channel().spec_trigger() == Some(
                (self.spec_sercom().dma_rx_trigger, family_trigger_action(self.spec_sercom().family)),
            ),
            r.spec_source() == self,
            r.spec_destination() == buf,
            r.spec_completion() == completion_start(1),
            final(hw)@ == old(hw)@ + arm_events(
                channel.spec_id(),
                leg_descriptor(&self, &buf),
                self.spec_sercom().dma_rx_trigger,
                family_trigger_action(self.spec_sercom().family),
            ).push(HwEvent::I2cStart { address, len: buf.spec_buffer_len() as u8, read: true }),
    {
        let len = buf.buffer_len();
        let action = trigger_action(self.sercom.family);
        let trigger = self.sercom.dma_rx_trigger;
        let xfer = arm(channel, self, buf, trigger, action, hw);
        xfer.source().start_dma(address, len as u8, true, hw);
        xfer
    }

    /// Send the bytes of `buf` to the device at `address`: arm the channel
    /// on the host's send trigger, then issue the start condition of the
    /// write. The transfer owns `buf` and the host.
    pub fn send_with_dma<B: Buffer>(
        self,
        address: u8,
        _ready_token: I2cBusReady,
        buf: B,
        channel: Channel<Ready>,
        hw: &mut HwTrace,
    ) -> (r: Transfer<B, I2c>)
        requires
            i2c_len_ok(buf.spec_buffer_len()),
            buf.spec_beat() == BeatSize::Byte,
        ensures
            r.spec_channel().spec_id() == channel.spec_id(),
            r.spec_channel().spec_interrupts() == (InterruptFlags { tcmpl: true }),
            r.spec_channel().spec_legs() == seq![leg_descriptor(&buf, &self)],
            r.spec_channel().spec_trigger() == Some(
                (self.spec_sercom().dma_tx_trigger, family_trigger_action(self.spec_sercom().family)),
            ),
            r.spec_source() == buf,
            r.spec_destination() == self,
            r.spec_completion() == completion_start(1),
            final(hw)@ == old(hw)@ + arm_events(
                channel.spec_id(),
                leg_descriptor(&buf, &self),
                self.spec_sercom().dma_tx_trigger,
                family_trigger_action(self.spec_sercom().family),
            ).push(HwEvent::I2cStart { address, len: buf.spec_buffer_len() as u8, read: false }),
    {
        let len = buf.buffer_len();
        let action = trigger_action(self.sercom.family);
        let trigger = self.sercom.dma_tx_trigger;
        let xfer = arm(channel, buf, self, trigger, action, hw);
        xfer.destination().start_dma(address, len as u8, false, hw);
        xfer
    }
}

impl Buffer for I2c {
    open spec fn spec_dma_ptr(&self) -> usize {
        self.spec_sercom().data_addr
    }

    open spec fn spec_incrementing(&self) -> bool {
        false
    }

    open spec fn spec_buffer_len(&self) -> nat {
        1
    }

    open spec fn spec_beat(&self) -> BeatSize {
        BeatSize::Byte
    }

    open spec fn spec_writable(&self) -> bool {
        true
    }

    fn dma_ptr(&self) -> (r: usize) {
        self.data_ptr()
    }

    fn incrementing(&self) -> (r: bool) {
        false
    }

    fn buffer_len(&self) -> (r: usize) {
        1
    }

    fn beat_size(&self) -> (r: BeatSize) {
        BeatSize::Byte
    }
}

/// A UART on a SERCOM whose data register holds one word of `beat`.
pub struct Uart {
    sercom: Sercom,
    beat: BeatSize,
}

impl Uart {
    pub closed spec fn spec_sercom(&self) -> Sercom {
        self.sercom
    }

    pub closed spec fn spec_word(&self) -> BeatSize {
        self.beat
    }

    /// A configured UART whose words are one `beat` wide.
    pub fn new(sercom: Sercom, beat: BeatSize) -> (r: Uart)
        ensures
            r.spec_sercom() == sercom,
            r.spec_word() == beat,
    {
        Uart { sercom, beat }
    }

    pub fn sercom(&self) -> (r: Sercom)
        ensures
            r == self.spec_sercom(),
    {
        self.sercom
    }

    /// Address of the data register.
    pub fn data_ptr(&self) -> (r: usize)
        ensures
            r == self.spec_sercom().data_addr,
    {
        self.sercom.data_addr
    }

    /// Receive into `buf`: arm the channel on the receive trigger. The
    /// transfer owns the UART and `buf`.
    pub fn receive_with_dma<B: Buffer>(self, buf: B, channel: Channel<Ready>, hw: &mut HwTrace) -> (r: Transfer<Uart, B>)
        requires
            crate::dmac::leg_ok(&self, &buf),
        ensures
            r.spec_channel().spec_id() == channel.spec_id(),
            r.spec_channel().spec_interrupts() == (InterruptFlags { tcmpl: true }),
            r.spec_channel().spec_legs() == seq![leg_descriptor(&self, &buf)],
            r.spec_channel().spec_trigger() == Some(
                (self.spec_sercom().dma_rx_trigger, family_trigger_action(self.spec_sercom().family)),
            ),
            r.spec_source() == self,
            r.spec_destination() == buf,
            r.spec_completion() == completion_start(1),
            final(hw)@ == old(hw)@ + arm_events(
                channel.spec_id(),
                leg_descriptor(&self, &buf),
                self.spec_sercom().dma_rx_trigger,
                family_trigger_action(self.spec_sercom().family),
            ),
    {
        let action = trigger_action(self.sercom.family);
        let trigger = self.sercom.dma_rx_trigger;
        arm(channel, self, buf, trigger, action, hw)
    }

    /// Send the words of `buf`: arm the channel on the send trigger. The
    /// transfer owns `buf` and the UART.
    pub fn send_with_dma<B: Buffer>(self, buf: B, channel: Channel<Ready>, hw: &mut HwTrace) -> (r: Transfer<B, Uart>)
        requires
            crate::dmac::leg_ok(&buf, &self),
        ensures
            r.spec_channel().spec_id() == channel.spec_id(),
            r.spec_channel().spec_interrupts() == (InterruptFlags { tcmpl: true }),
            r.spec_channel().spec_legs() == seq![leg_descriptor(&buf, &self)],
            r.spec_channel().spec_trigger() == Some(
                (self.spec_sercom().dma_tx_trigger, family_trigger_action(self.spec_sercom().family)),
            ),
            r.spec_source() == buf,
            r.spec_destination() == self,
            r.spec_completion() == completion_start(1),
            final(hw)@ == old(hw)@ + arm_events(
                channel.spec_id(),
                leg_descriptor(&buf, &self),
                self.spec_sercom().dma_tx_trigger,
                family_trigger_action(self.spec_sercom().family),
            ),
    {
        let action = trigger_action(self.sercom.family);
        let trigger = self.sercom.dma_tx_trigger;
        arm(channel, buf, self, trigger, action, hw)
    }
}

impl Buffer for Uart {
    open spec fn spec_dma_ptr(&self) -> usize {
        self.spec_sercom().data_addr
    }

    open spec fn spec_incrementing(&self) -> bool {
        false
    }

    open spec fn spec_buffer_len(&self) -> nat {
        1
    }

    open spec fn spec_beat(&self) -> BeatSize {
        self.spec_word()
    }

    open spec fn spec_writable(&self) -> bool {
        true
    }

    fn dma_ptr(&self) -> (r: usize) {
        self.data_ptr()
    }

    fn incrementing(&self) -> (r: bool) {
        false
    }

    fn buffer_len(&self) -> (r: usize) {
        1
    }

    fn beat_size(&self) -> (r: BeatSize) {
        self.beat
    }
}

/// A SPI host on a SERCOM whose data register holds one word of `beat`.
pub struct Spi {
    sercom: Sercom,
    beat: BeatSize,
}

impl Spi {
    pub closed spec fn spec_sercom(&self) -> Sercom {
        self.sercom
    }

    pub closed spec fn spec_word(&self) -> BeatSize {
        self.beat
    }

    /// A configured SPI host whose words are one `beat` wide.
    pub fn new(sercom: Sercom, beat: BeatSize) -> (r: Spi)
        ensures
            r.spec_sercom() == sercom,
            r.spec_word() == beat,
    {
        Spi { sercom, beat }
    }

    pub fn sercom(&self) -> (r: Sercom)
        ensures
            r == self.spec_sercom(),
    {
        self.sercom
    }

    /// Address of the data register.
    pub fn data_ptr(&self) -> (r: usize)
        ensures
            r == self.spec_sercom().data_addr,
    {
        self.sercom.data_addr
    }

    /// Receive into `buf`: arm the channel on the receive trigger. The
    /// transfer owns the SPI host and `buf`. Full-duplex transfers over two
    /// channels supersede this single-channel form, which arms the same leg
    /// through the same engine.
    pub fn receive_with_dma<B: Buffer>(self, buf: B, channel: Channel<Ready>, hw: &mut HwTrace) -> (r: Transfer<Spi, B>)
        requires
            crate::dmac::leg_ok(&self, &buf),
        ensures
            r.spec_channel().spec_id() == channel.spec_id(),
            r.spec_channel().spec_interrupts() == (InterruptFlags { tcmpl: true }),
            r.spec_channel().spec_legs() == seq![leg_descriptor(&self, &buf)],
            r.spec_channel().spec_trigger() == Some(
                (self.spec_sercom().dma_rx_trigger, family_trigger_action(self.spec_sercom().family)),
            ),
            r.spec_source() == self,
            r.spec_destination() == buf,
            r.spec_completion() == completion_start(1),
            final(hw)@ == old(hw)@ + arm_events(
                channel.spec_id(),
                leg_descriptor(&self, &buf),
                self.spec_sercom().dma_rx_trigger,
                family_trigger_action(self.spec_sercom().family),
            ),
    {
        let action = trigger_action(self.sercom.family);
        let trigger = self.sercom.dma_rx_trigger;
        arm(channel, self, buf, trigger, action, hw)
    }

    /// Send the words of `buf`: arm the channel on the send trigger. The
    /// transfer owns `buf` and the SPI host. Full-duplex transfers over two
    /// channels supersede this single-channel form, which arms the same leg
    /// through the same engine.
    pub fn send_with_dma<B: Buffer>(self, buf: B, channel: Channel<Ready>, hw: &mut HwTrace) -> (r: Transfer<B, Spi>)
        requires
            crate::dmac::leg_ok(&buf, &self),
        ensures
            r.spec_channel().spec_id() == channel.spec_id(),
            r.spec_channel().spec_interrupts() == (InterruptFlags { tcmpl: true }),
            r.spec_channel().spec_legs() == seq![leg_descriptor(&buf, &self)],
            r.spec_channel().spec_trigger() == Some(
                (self.spec_sercom().dma_tx_trigger, family_trigger_action(self.spec_sercom().family)),
            ),
            r.spec_source() == buf,
            r.spec_destination() == self,
            r.spec_completion() == completion_start(1),
            final(hw)@ == old(hw)@ + arm_events(
                channel.spec_id(),
                leg_descriptor(&buf, &self),
                self.spec_sercom().dma_tx_trigger,
                family_trigger_action(self.spec_sercom().family),
            ),
    {
        let action = trigger_action(self.sercom.family);
        let trigger = self.sercom.dma_tx_trigger;
        arm(channel, buf, self, trigger, action, hw)
    }
}

impl Buffer for Spi {
    open spec fn spec_dma_ptr(&self) -> usize {
        self.spec_sercom().data_addr
    }

    open spec fn spec_incrementing(&self) -> bool {
        false
    }

    open spec fn spec_buffer_len(&self) -> nat {
        1
    }

    open spec fn spec_beat(&self) -> BeatSize {
        self.spec_word()
    }

    open spec fn spec_writable(&self) -> bool {
        true
    }

    fn dma_ptr(&self) -> (r: usize) {
        self.data_ptr()
    }

    fn incrementing(&self) -> (r: bool) {
        false
    }

    fn buffer_len(&self) -> (r: usize) {
        1
    }

    fn beat_size(&self) -> (r: BeatSize) {
        self.beat
    }
}

} // verus!
