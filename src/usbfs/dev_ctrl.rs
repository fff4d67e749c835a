//! USB device physical port control.
use vstd::prelude::*;
use crate::usbfs::{bit8, set_bit8};

verus! {

/// Marker of the register, with its value after reset.
#[allow(non_camel_case_types)]
pub struct DEV_CTRL_SPEC;

impl DEV_CTRL_SPEC {
    pub const RESET_VALUE: u8 = 0;
}

/// A value read from the register.
#[derive(Clone, Copy, Debug, PartialEq, Eq, Structural)]
pub struct R {
    pub bits: u8,
}

impl R {
    /// Bit 0 - USB device physical port enable.
    pub fn port_en(&self) -> (r: bool)
        ensures
            r == bit8(self.bits, 0u8),
    {
        (self.bits >> 0u8) & 1u8 != 0
    }

    /// Bit 1 - General flag bit, user-defined.
    pub fn gp_flag(&self) -> (r: bool)
        ensures
            r == bit8(self.bits, 1u8),
    {
        (self.bits >> 1u8) & 1u8 != 0
    }

    /// Bit 2 - USB device port low speed enable.
    pub fn low_speed(&self) -> (r: bool)
        ensures
            r == bit8(self.bits, 2u8),
    {
        (self.bits >> 2u8) & 1u8 != 0
    }

    /// Bit 4 - Current UDM pin state.
    pub fn dm_pin(&self) -> (r: bool)
        ensures
            r == bit8(self.bits, 4u8),
    {
        (self.bits >> 4u8) & 1u8 != 0
    }

    /// Bit 5 - Current UDP pin state.
    pub fn dp_pin(&self) -> (r: bool)
        ensures
            r == bit8(self.bits, 5u8),
    {
        (self.bits >> 5u8) & 1u8 != 0
    }

    /// Bit 7 - USB device port UDP/UDM pulldown resistor disable.
    pub fn pd_dis(&self) -> (r: bool)
        ensures
            r == bit8(self.bits, 7u8),
    {
        (self.bits >> 7u8) & 1u8 != 0
    }
}

/// A value being composed for a write to the register.
#[derive(Clone, Copy, Debug, PartialEq, Eq, Structural)]
pub struct W {
    pub bits: u8,
}

impl W {
    /// Starts from the reset value.
    pub fn reset() -> (r: W)
        ensures
            r.bits == DEV_CTRL_SPEC::RESET_VALUE,
    {
        W { bits: DEV_CTRL_SPEC::RESET_VALUE }
    }

    /// Bit 0 - USB device physical port enable.
    pub fn port_en(&mut self, value: bool)
        ensures
            final(self).bits == set_bit8(old(self).bits, 0u8, value),
    {
        if value {
            self.bits = self.bits | (1u8 << 0u8);
        } else {
            self.bits = self.bits & !(1u8 << 0u8);
        }
    }

    /// Bit 1 - General flag bit, user-defined.
    pub fn gp_flag(&mut self, value: bool)
        ensures
            final(self).bits == set_bit8(old(self).bits, 1u8, value),
    {
        if value {
            self.bits = self.bits | (1u8 << 1u8);
        } else {
            self.bits = self.bits & !(1u8 << 1u8);
        }
    }

    /// Bit 2 - USB device port low speed enable.
    pub fn low_speed(&mut self, value: bool)
        ensures
            final(self).bits == set_bit8(old(self).bits, 2u8, value),
    {
        if value {
            self.bits = self.bits | (1u8 << 2u8);
        } else {
            self.bits = self.bits & !(1u8 << 2u8);
        }
    }

    /// Bit 7 - USB device port UDP/UDM pulldown resistor disable.
    pub fn pd_dis(&mut self, value: bool)
        ensures
            final(self).bits == set_bit8(old(self).bits, 7u8, value),
    {
        if value {
            self.bits = self.bits | (1u8 << 7u8);
        } else {
            self.bits = self.bits & !(1u8 << 7u8);
        }
    }
}

} // verus!
