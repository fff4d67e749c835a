//! USB receive length register.
use vstd::prelude::*;
use crate::usbfs::{field16};

verus! {

/// Marker of the register, with its value after reset.
#[allow(non_camel_case_types)]
pub struct RX_LEN_SPEC;

impl RX_LEN_SPEC {
    pub const RESET_VALUE: u16 = 0;
}

/// A value read from the register.
#[derive(Clone, Copy, Debug, PartialEq, Eq, Structural)]
pub struct R {
    pub bits: u16,
}

impl R {
    /// Bits 0:6 - The current number of data bytes received by the USB endpoint.
    pub fn rx_len(&self) -> (r: u8)
        ensures
            r == field16(self.bits, 0u16, 0x7fu16) as u8,
    {
        ((self.bits >> 0u16) & 0x7fu16) as u8
    }
}

} // verus!
