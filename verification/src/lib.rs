//! Verified model of the STM32F4 general purpose input / output driver.
pub mod bits;
pub mod gpio;
pub mod regs;
