//! Endpoint X control register.
use vstd::prelude::*;
use crate::usbfs::{field32, set_field32};

verus! {

/// Marker of the register, with its value after reset.
#[allow(non_camel_case_types)]
pub struct EPX_CTRL_SPEC;

impl EPX_CTRL_SPEC {
    pub const RESET_VALUE: u32 = 0;
}

/// A value read from the register.
#[derive(Clone, Copy, Debug, PartialEq, Eq, Structural)]
pub struct R {
    pub bits: u32,
}

impl R {
    /// Bits 0:7 - Endpoint (8-15) transmit enable.
    pub fn t_en(&self) -> (r: u8)
        ensures
            r == field32(self.bits, 0u32, 0xffu32) as u8,
    {
        ((self.bits >> 0u32) & 0xffu32) as u8
    }

    /// Bits 8:15 - Endpoint (8-15) receive enable.
    pub fn r_en(&self) -> (r: u8)
        ensures
            r == field32(self.bits, 8u32, 0xffu32) as u8,
    {
        ((self.bits >> 8u32) & 0xffu32) as u8
    }

    /// Bits 17:23 - Transmit endpoint alternate enable.
    pub fn t_af(&self) -> (r: u8)
        ensures
            r == field32(self.bits, 0x11u32, 0x7fu32) as u8,
    {
        ((self.bits >> 0x11u32) & 0x7fu32) as u8
    }
}

/// A value being composed for a write to the register.
#[derive(Clone, Copy, Debug, PartialEq, Eq, Structural)]
pub struct W {
    pub bits: u32,
}

impl W {
    /// Starts from the reset value.
    pub fn reset() -> (r: W)
        ensures
            r.bits == EPX_CTRL_SPEC::RESET_VALUE,
    {
        W { bits: EPX_CTRL_SPEC::RESET_VALUE }
    }

    /// Bits 0:7 - Endpoint (8-15) transmit enable.
    pub fn t_en(&mut self, value: u8)
        ensures
            final(self).bits == set_field32(old(self).bits, 0u32, 0xffu32, value as u32),
    {
        let v = value as u32;
        self.bits = (self.bits & !(0xffu32 << 0u32)) | ((v & 0xffu32) << 0u32);
    }

    /// Bits 8:15 - Endpoint (8-15) receive enable.
    pub fn r_en(&mut self, value: u8)
        ensures
            final(self).bits == set_field32(old(self).bits, 8u32, 0xffu32, value as u32),
    {
        let v = value as u32;
        self.bits = (self.bits & !(0xffu32 << 8u32)) | ((v & 0xffu32) << 8u32);
    }

    /// Bits 17:23 - Transmit endpoint alternate enable.
    pub fn t_af(&mut self, value: u8)
        ensures
            final(self).bits == set_field32(old(self).bits, 0x11u32, 0x7fu32, value as u32),
    {
        let v = value as u32;
        self.bits = (self.bits & !(0x7fu32 << 0x11u32)) | ((v & 0x7fu32) << 0x11u32);
    }
}

} // verus!
