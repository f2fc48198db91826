//! Register addresses and bus addresses of the device, fixed by the
//! datasheet. Two register pages share the address space; every register
//! named here lives on page 0.

use vstd::prelude::*;

verus! {

/// Seven-bit bus address the device answers on by default.
pub const DEFAULT_ADDR: u8 = 0x29;
/// Seven-bit bus address when the address pin is pulled the other way.
pub const ALTERNATE_ADDR: u8 = 0x28;

/// Chip identity register.
pub const CHIP_ID: u8 = 0xA0;
/// Page-select register; reachable from either page.
pub const PAGE_ID: u8 = 0x01;

/// Operating-mode register.
pub const OPR_MODE: u8 = 0x1C;
/// Power-mode register.
pub const PWR_MODE: u8 = 0x3E;
/// System-trigger register: soft reset, self test, oscillator selection.
pub const SYS_TRIGGER: u8 = 0x3F;

/// Temperature-source selector register.
pub const TEMP_SOURCE: u8 = 0x40;
/// Temperature data register.
pub const TEMP: u8 = 0x34;

/// Unit-selection register.
pub const UNIT_SEL: u8 = 0x3B;

/// Bit written to [`SYS_TRIGGER`] to request a soft reset.
pub const SYS_TRIGGER_RESET: u8 = 0x20;
/// Bit written to [`SYS_TRIGGER`] to select the external oscillator.
pub const SYS_TRIGGER_EXT_OSC: u8 = 0x80;

} // verus!
