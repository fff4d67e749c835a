//! Endpoint transmit length.
use vstd::prelude::*;
use crate::usbfs::{field16, set_field16};

verus! {

/// Marker of the register, with its value after reset.
#[allow(non_camel_case_types)]
pub struct EP_TX_LEN_SPEC;

impl EP_TX_LEN_SPEC {
    pub const RESET_VALUE: u16 = 0;
}

/// A value read from the register.
#[derive(Clone, Copy, Debug, PartialEq, Eq, Structural)]
pub struct R {
    pub bits: u16,
}

impl R {
    /// Bits 0:6 - The number of bytes to be transmitted by the endpoint.
    pub fn t_len(&self) -> (r: u8)
        ensures
            r == field16(self.bits, 0u16, 0x7fu16) as u8,
    {
        ((self.bits >> 0u16) & 0x7fu16) as u8
    }
}

/// A value being composed for a write to the register.
#[derive(Clone, Copy, Debug, PartialEq, Eq, Structural)]
pub struct W {
    pub bits: u16,
}

impl W {
    /// Starts from the reset value.
    pub fn reset() -> (r: W)
        ensures
            r.bits == EP_TX_LEN_SPEC::RESET_VALUE,
    {
        W { bits: EP_TX_LEN_SPEC::RESET_VALUE }
    }

    /// Bits 0:6 - The number of bytes to be transmitted by the endpoint.
    pub fn t_len(&mut self, value: u8)
        ensures
            final(self).bits == set_field16(old(self).bits, 0u16, 0x7fu16, value as u16),
    {
        let v = value as u16;
        self.bits = (self.bits & !(0x7fu16 << 0u16)) | ((v & 0x7fu16) << 0u16);
    }
}

} // verus!
