//! Verified interactive logic of a set of SAM microcontroller demo
//! applications: UART byte classification, a bounded line editor with its
//! command parser, the EEPROM read/write command semantics, and the
//! region-mask and configuration logic of the integrity check monitor (ICM)
//! peripheral demo.
//!
//! Hardware access itself (clocks, peripherals, interrupt dispatch) is not
//! part of this crate; the functions here decide, over plain values, what a
//! firmware image does with the bytes it receives and the results the
//! peripherals hand back.

pub mod buffer;
pub mod compare;
pub mod eeprom;
pub mod icm;
pub mod parse;
pub mod session;
pub mod uart;
