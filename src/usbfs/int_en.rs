//! USB interrupt enable register.
use vstd::prelude::*;
use crate::usbfs::{bit8, set_bit8};

verus! {

/// Marker of the register, with its value after reset.
#[allow(non_camel_case_types)]
pub struct INT_EN_SPEC;

impl INT_EN_SPEC {
    pub const RESET_VALUE: u8 = 0;
}

/// A value read from the register.
#[derive(Clone, Copy, Debug, PartialEq, Eq, Structural)]
pub struct R {
    pub bits: u8,
}

impl R {
    /// Bit 0 - USB bus reset event interrupt.
    pub fn bus_rst(&self) -> (r: bool)
        ensures
            r == bit8(self.bits, 0u8),
    {
        (self.bits >> 0u8) & 1u8 != 0
    }

    /// Bit 1 - USB transfer (excluding SETUP transaction) completion interrupt.
    pub fn transfer(&self) -> (r: bool)
        ensures
            r == bit8(self.bits, 1u8),
    {
        (self.bits >> 1u8) & 1u8 != 0
    }

    /// Bit 2 - USB bus suspend or wakeup event interrupt.
    pub fn suspend(&self) -> (r: bool)
        ensures
            r == bit8(self.bits, 2u8),
    {
        (self.bits >> 2u8) & 1u8 != 0
    }

    /// Bit 3 - USB host mode, SOF receive completion interrupt.
    pub fn sof_act(&self) -> (r: bool)
        ensures
            r == bit8(self.bits, 3u8),
    {
        (self.bits >> 3u8) & 1u8 != 0
    }

    /// Bit 4 - FIFO overflow interrupt.
    pub fn fifo_ov(&self) -> (r: bool)
        ensures
            r == bit8(self.bits, 4u8),
    {
        (self.bits >> 4u8) & 1u8 != 0
    }

    /// Bit 6 - USB device mode, receive NAK interrupt.
    pub fn dev_nak(&self) -> (r: bool)
        ensures
            r == bit8(self.bits, 6u8),
    {
        (self.bits >> 6u8) & 1u8 != 0
    }

    /// Bit 7 - USB device mode, receive SOF interrupt.
    pub fn dev_sof(&self) -> (r: bool)
        ensures
            r == bit8(self.bits, 7u8),
    {
        (self.bits >> 7u8) & 1u8 != 0
    }
}

/// A value being composed for a write to the register.
#[derive(Clone, Copy, Debug, PartialEq, Eq, Structural)]
pub struct W {
    pub bits: u8,
}

impl W {
    /// Starts from the reset value.
    pub fn reset() -> (r: W)
        ensures
            r.bits == INT_EN_SPEC::RESET_VALUE,
    {
        W { bits: INT_EN_SPEC::RESET_VALUE }
    }

    /// Bit 0 - USB bus reset event interrupt.
    pub fn bus_rst(&mut self, value: bool)
        ensures
            final(self).bits == set_bit8(old(self).bits, 0u8, value),
    {
        if value {
            self.bits = self.bits | (1u8 << 0u8);
        } else {
            self.bits = self.bits & !(1u8 << 0u8);
        }
    }

    /// Bit 1 - USB transfer (excluding SETUP transaction) completion interrupt.
    pub fn transfer(&mut self, value: bool)
        ensures
            final(self).bits == set_bit8(old(self).bits, 1u8, value),
    {
        if value {
            self.bits = self.bits | (1u8 << 1u8);
        } else {
            self.bits = self.bits & !(1u8 << 1u8);
        }
    }

    /// Bit 2 - USB bus suspend or wakeup event interrupt.
    pub fn suspend(&mut self, value: bool)
        ensures
            final(self).bits == set_bit8(old(self).bits, 2u8, value),
    {
        if value {
            self.bits = self.bits | (1u8 << 2u8);
        } else {
            self.bits = self.bits & !(1u8 << 2u8);
        }
    }

    /// Bit 3 - USB host mode, SOF receive completion interrupt.
    pub fn sof_act(&mut self, value: bool)
        ensures
            final(self).bits == set_bit8(old(self).bits, 3u8, value),
    {
        if value {
            self.bits = self.bits | (1u8 << 3u8);
        } else {
            self.bits = self.bits & !(1u8 << 3u8);
        }
    }

    /// Bit 4 - FIFO overflow interrupt.
    pub fn fifo_ov(&mut self, value: bool)
        ensures
            final(self).bits == set_bit8(old(self).bits, 4u8, value),
    {
        if value {
            self.bits = self.bits | (1u8 << 4u8);
        } else {
            self.bits = self.bits & !(1u8 << 4u8);
        }
    }

    /// Bit 6 - USB device mode, receive NAK interrupt.
    pub fn dev_nak(&mut self, value: bool)
        ensures
            final(self).bits == set_bit8(old(self).bits, 6u8, value),
    {
        if value {
            self.bits = self.bits | (1u8 << 6u8);
        } else {
            self.bits = self.bits & !(1u8 << 6u8);
        }
    }

    /// Bit 7 - USB device mode, receive SOF interrupt.
    pub fn dev_sof(&mut self, value: bool)
        ensures
            final(self).bits == set_bit8(old(self).bits, 7u8, value),
    {
        if value {
            self.bits = self.bits | (1u8 << 7u8);
        } else {
            self.bits = self.bits & !(1u8 << 7u8);
        }
    }
}

} // verus!
