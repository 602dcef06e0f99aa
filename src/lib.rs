//! Typed command/response encoding for the control protocol of a WCH-Link
//! debug probe attached to RISC-V microcontrollers.
//!
//! Every command turns into the exact payload bytes the probe firmware
//! expects, and every response decodes raw bytes into a validated value or a
//! decode error. Both directions are specified over byte sequences and proved.

pub mod chip;
pub mod commands;
pub mod error;
pub mod text;

pub use chip::{RiscvChip, WchLinkVariant};
pub use error::Error;
