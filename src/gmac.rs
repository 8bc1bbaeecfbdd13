//! Registers of the Ethernet MAC.

pub mod efrsl;
pub mod gmac_tbft255;
