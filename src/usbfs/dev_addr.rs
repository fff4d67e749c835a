//! USB device address register.
use vstd::prelude::*;
use crate::usbfs::{field8, set_field8};

verus! {

/// Marker of the register, with its value after reset.
#[allow(non_camel_case_types)]
pub struct DEV_ADDR_SPEC;

impl DEV_ADDR_SPEC {
    pub const RESET_VALUE: u8 = 0;
}

/// A value read from the register.
#[derive(Clone, Copy, Debug, PartialEq, Eq, Structural)]
pub struct R {
    pub bits: u8,
}

impl R {
    /// Bits 0:6 - USB device address.
    pub fn usb_addr(&self) -> (r: u8)
        ensures
            r == field8(self.bits, 0u8, 0x7fu8),
    {
        (self.bits >> 0u8) & 0x7fu8
    }
}

/// A value being composed for a write to the register.
#[derive(Clone, Copy, Debug, PartialEq, Eq, Structural)]
pub struct W {
    pub bits: u8,
}

impl W {
    /// Starts from the reset value.
    pub fn reset() -> (r: W)
        ensures
            r.bits == DEV_ADDR_SPEC::RESET_VALUE,
    {
        W { bits: DEV_ADDR_SPEC::RESET_VALUE }
    }

    /// Bits 0:6 - USB device address.
    pub fn usb_addr(&mut self, value: u8)
        ensures
            final(self).bits == set_field8(old(self).bits, 0u8, 0x7fu8, value),
    {
        let v = value;
        self.bits = (self.bits & !(0x7fu8 << 0u8)) | ((v & 0x7fu8) << 0u8);
    }
}

} // verus!
