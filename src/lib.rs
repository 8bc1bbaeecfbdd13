//! Peripheral binding layer for SAM x7x microcontrollers: the CAN dependency
//! token with its pin and clock checks, and the non-blocking serial transmit
//! primitives, all over plain models of the hardware registers.

pub mod can;
pub mod clocks;
pub mod generic;
pub mod gmac;
pub mod pio;
pub mod serial;
