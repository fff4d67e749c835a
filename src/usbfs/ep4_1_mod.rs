//! Endpoint 1 and 4 mode control.
use vstd::prelude::*;
use crate::usbfs::{bit8, set_bit8};

verus! {

/// Marker of the register, with its value after reset.
#[allow(non_camel_case_types)]
pub struct EP4_1_MOD_SPEC;

impl EP4_1_MOD_SPEC {
    pub const RESET_VALUE: u8 = 0;
}

/// A value read from the register.
#[derive(Clone, Copy, Debug, PartialEq, Eq, Structural)]
pub struct R {
    pub bits: u8,
}

impl R {
    /// Bit 2 - Endpoint 4 transmit enable.
    pub fn ep4_t_en(&self) -> (r: bool)
        ensures
            r == bit8(self.bits, 2u8),
    {
        (self.bits >> 2u8) & 1u8 != 0
    }

    /// Bit 3 - Endpoint 4 receive enable.
    pub fn ep4_r_en(&self) -> (r: bool)
        ensures
            r == bit8(self.bits, 3u8),
    {
        (self.bits >> 3u8) & 1u8 != 0
    }

    /// Bit 4 - Endpoint 1 buffer mode control.
    pub fn ep1_buf_mod(&self) -> (r: bool)
        ensures
            r == bit8(self.bits, 4u8),
    {
        (self.bits >> 4u8) & 1u8 != 0
    }

    /// Bit 6 - Endpoint 1 transmit enable.
    pub fn ep1_t_en(&self) -> (r: bool)
        ensures
            r == bit8(self.bits, 6u8),
    {
        (self.bits >> 6u8) & 1u8 != 0
    }

    /// Bit 7 - Endpoint 1 receive enable.
    pub fn ep1_r_en(&self) -> (r: bool)
        ensures
            r == bit8(self.bits, 7u8),
    {
        (self.bits >> 7u8) & 1u8 != 0
    }
}

/// A value being composed for a write to the register.
#[derive(Clone, Copy, Debug, PartialEq, Eq, Structural)]
pub struct W {
    pub bits: u8,
}

impl W {
    /// Starts from the reset value.
    pub fn reset() -> (r: W)
        ensures
            r.bits == EP4_1_MOD_SPEC::RESET_VALUE,
    {
        W { bits: EP4_1_MOD_SPEC::RESET_VALUE }
    }

    /// Bit 2 - Endpoint 4 transmit enable.
    pub fn ep4_t_en(&mut self, value: bool)
        ensures
            final(self).bits == set_bit8(old(self).bits, 2u8, value),
    {
        if value {
            self.bits = self.bits | (1u8 << 2u8);
        } else {
            self.bits = self.bits & !(1u8 << 2u8);
        }
    }

    /// Bit 3 - Endpoint 4 receive enable.
    pub fn ep4_r_en(&mut self, value: bool)
        ensures
            final(self).bits == set_bit8(old(self).bits, 3u8, value),
    {
        if value {
            self.bits = self.bits | (1u8 << 3u8);
        } else {
            self.bits = self.bits & !(1u8 << 3u8);
        }
    }

    /// Bit 4 - Endpoint 1 buffer mode control.
    pub fn ep1_buf_mod(&mut self, value: bool)
        ensures
            final(self).bits == set_bit8(old(self).bits, 4u8, value),
    {
        if value {
            self.bits = self.bits | (1u8 << 4u8);
        } else {
            self.bits = self.bits & !(1u8 << 4u8);
        }
    }

    /// Bit 6 - Endpoint 1 transmit enable.
    pub fn ep1_t_en(&mut self, value: bool)
        ensures
            final(self).bits == set_bit8(old(self).bits, 6u8, value),
    {
        if value {
            self.bits = self.bits | (1u8 << 6u8);
        } else {
            self.bits = self.bits & !(1u8 << 6u8);
        }
    }

    /// Bit 7 - Endpoint 1 receive enable.
    pub fn ep1_r_en(&mut self, value: bool)
        ensures
            final(self).bits == set_bit8(old(self).bits, 7u8, value),
    {
        if value {
            self.bits = self.bits | (1u8 << 7u8);
        } else {
            self.bits = self.bits & !(1u8 << 7u8);
        }
    }
}

} // verus!
