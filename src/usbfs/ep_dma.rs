//! Start address of the endpoint buffer.
use vstd::prelude::*;
use crate::usbfs::{field32, set_field32};

verus! {

/// Marker of the register, with its value after reset.
#[allow(non_camel_case_types)]
pub struct EP_DMA_SPEC;

impl EP_DMA_SPEC {
    pub const RESET_VALUE: u32 = 0;
}

/// A value read from the register.
#[derive(Clone, Copy, Debug, PartialEq, Eq, Structural)]
pub struct R {
    pub bits: u32,
}

impl R {
    /// Bits 0:14 - Start address of the endpoint buffer, must be 4 byte aligned.
    pub fn buf_addr(&self) -> (r: u16)
        ensures
            r == field32(self.bits, 0u32, 0x7fffu32) as u16,
    {
        ((self.bits >> 0u32) & 0x7fffu32) as u16
    }
}

/// A value being composed for a write to the register.
#[derive(Clone, Copy, Debug, PartialEq, Eq, Structural)]
pub struct W {
    pub bits: u32,
}

impl W {
    /// Starts from the reset value.
    pub fn reset() -> (r: W)
        ensures
            r.bits == EP_DMA_SPEC::RESET_VALUE,
    {
        W { bits: EP_DMA_SPEC::RESET_VALUE }
    }

    /// Bits 0:14 - Start address of the endpoint buffer, must be 4 byte aligned.
    pub fn buf_addr(&mut self, value: u16)
        ensures
            final(self).bits == set_field32(old(self).bits, 0u32, 0x7fffu32, value as u32),
    {
        let v = value as u32;
        self.bits = (self.bits & !(0x7fffu32 << 0u32)) | ((v & 0x7fffu32) << 0u32);
    }
}

} // verus!
