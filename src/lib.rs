//! A verified model of the SERCOM DMA transfer engine: buffer adapters, the
//! low-level transfer legs shared by every serial peripheral, and the I2C,
//! UART and SPI entry points that arm a DMA channel before starting the
//! peripheral.
pub mod buffer;
pub mod dmac;
pub mod transfer;
pub mod sercom;
pub mod engine;
pub mod laws;
