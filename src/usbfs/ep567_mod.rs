//! Endpoint 5, 6 and 7 mode control.
use vstd::prelude::*;
use crate::usbfs::{bit8, set_bit8};

verus! {

/// Marker of the register, with its value after reset.
#[allow(non_camel_case_types)]
pub struct EP567_MOD_SPEC;

impl EP567_MOD_SPEC {
    pub const RESET_VALUE: u8 = 0;
}

/// A value read from the register.
#[derive(Clone, Copy, Debug, PartialEq, Eq, Structural)]
pub struct R {
    pub bits: u8,
}

impl R {
    /// Bit 0 - Endpoint 5 transmit enable.
    pub fn ep5_t_en(&self) -> (r: bool)
        ensures
            r == bit8(self.bits, 0u8),
    {
        (self.bits >> 0u8) & 1u8 != 0
    }

    /// Bit 1 - Endpoint 5 receive enable.
    pub fn ep5_r_en(&self) -> (r: bool)
        ensures
            r == bit8(self.bits, 1u8),
    {
        (self.bits >> 1u8) & 1u8 != 0
    }

    /// Bit 2 - Endpoint 6 transmit enable.
    pub fn ep6_t_en(&self) -> (r: bool)
        ensures
            r == bit8(self.bits, 2u8),
    {
        (self.bits >> 2u8) & 1u8 != 0
    }

    /// Bit 3 - Endpoint 6 receive enable.
    pub fn ep6_r_en(&self) -> (r: bool)
        ensures
            r == bit8(self.bits, 3u8),
    {
        (self.bits >> 3u8) & 1u8 != 0
    }

    /// Bit 4 - Endpoint 7 transmit enable.
    pub fn ep7_t_en(&self) -> (r: bool)
        ensures
            r == bit8(self.bits, 4u8),
    {
        (self.bits >> 4u8) & 1u8 != 0
    }

    /// Bit 5 - Endpoint 7 receive enable.
    pub fn ep7_r_en(&self) -> (r: bool)
        ensures
            r == bit8(self.bits, 5u8),
    {
        (self.bits >> 5u8) & 1u8 != 0
    }
}

/// A value being composed for a write to the register.
#[derive(Clone, Copy, Debug, PartialEq, Eq, Structural)]
pub struct W {
    pub bits: u8,
}

impl W {
    /// Starts from the reset value.
    pub fn reset() -> (r: W)
        ensures
            r.bits == EP567_MOD_SPEC::RESET_VALUE,
    {
        W { bits: EP567_MOD_SPEC::RESET_VALUE }
    }

    /// Bit 0 - Endpoint 5 transmit enable.
    pub fn ep5_t_en(&mut self, value: bool)
        ensures
            final(self).bits == set_bit8(old(self).bits, 0u8, value),
    {
        if value {
            self.bits = self.bits | (1u8 << 0u8);
        } else {
            self.bits = self.bits & !(1u8 << 0u8);
        }
    }

    /// Bit 1 - Endpoint 5 receive enable.
    pub fn ep5_r_en(&mut self, value: bool)
        ensures
            final(self).bits == set_bit8(old(self).bits, 1u8, value),
    {
        if value {
            self.bits = self.bits | (1u8 << 1u8);
        } else {
            self.bits = self.bits & !(1u8 << 1u8);
        }
    }

    /// Bit 2 - Endpoint 6 transmit enable.
    pub fn ep6_t_en(&mut self, value: bool)
        ensures
            final(self).bits == set_bit8(old(self).bits, 2u8, value),
    {
        if value {
            self.bits = self.bits | (1u8 << 2u8);
        } else {
            self.bits = self.bits & !(1u8 << 2u8);
        }
    }

    /// Bit 3 - Endpoint 6 receive enable.
    pub fn ep6_r_en(&mut self, value: bool)
        ensures
            final(self).bits == set_bit8(old(self).bits, 3u8, value),
    {
        if value {
            self.bits = self.bits | (1u8 << 3u8);
        } else {
            self.bits = self.bits & !(1u8 << 3u8);
        }
    }

    /// Bit 4 - Endpoint 7 transmit enable.
    pub fn ep7_t_en(&mut self, value: bool)
        ensures
            final(self).bits == set_bit8(old(self).bits, 4u8, value),
    {
        if value {
            self.bits = self.bits | (1u8 << 4u8);
        } else {
            self.bits = self.bits & !(1u8 << 4u8);
        }
    }

    /// Bit 5 - Endpoint 7 receive enable.
    pub fn ep7_r_en(&mut self, value: bool)
        ensures
            final(self).bits == set_bit8(old(self).bits, 5u8, value),
    {
        if value {
            self.bits = self.bits | (1u8 << 5u8);
        } else {
            self.bits = self.bits & !(1u8 << 5u8);
        }
    }
}

} // verus!
