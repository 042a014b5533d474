//! Hardware abstraction core of a small microcontroller kernel: peripheral clocks,
//! clock-aware register access, the DMA channel pool with its shared power
//! domain, and the chip and board interfaces that the kernel's main loop
//! drives.
pub mod chip;
pub mod clock;
pub mod dma;
pub mod mmio;
pub mod nrf51;
pub mod platform;
pub mod process;
pub mod storm;
