//! Verified decision logic of bare-metal STM32L476 peripheral drivers: the
//! state machines, frame layouts, counters and arithmetic that the firmware
//! runs between its register accesses.
//!
//! - `nor_flash`: erase and write-read state machines of a W25Qxx SPI NOR
//!   flash, and the command frames they send.
//! - `tsl`: the TSL2561 light sensor state machine, the visible-light
//!   extraction, the moving-average filter and the PWM duty mapping.
//! - `blinker`: button press counting and blink speed selection.
//! - `uart_echo`: idle-line frame measurement and echo decision.
use vstd::prelude::*;

pub mod blinker;
pub mod nor_flash;
pub mod tsl;
pub mod uart_echo;

verus! {

} // verus!
