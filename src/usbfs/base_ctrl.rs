//! USB control register.
use vstd::prelude::*;
use crate::usbfs::{bit8, field8, set_bit8, set_field8};

verus! {

/// Marker of the register, with its value after reset.
#[allow(non_camel_case_types)]
pub struct BASE_CTRL_SPEC;

impl BASE_CTRL_SPEC {
    pub const RESET_VALUE: u8 = 0x06;
}

/// A value read from the register.
#[derive(Clone, Copy, Debug, PartialEq, Eq, Structural)]
pub struct R {
    pub bits: u8,
}

impl R {
    /// Bit 0 - Enables DMA for USB, this bit must be set to 1 in normal transfer mode.
    pub fn dma_en(&self) -> (r: bool)
        ensures
            r == bit8(self.bits, 0u8),
    {
        (self.bits >> 0u8) & 1u8 != 0
    }

    /// Bit 1 - USB FIFO and interrupt flag clear.
    pub fn clr_all(&self) -> (r: bool)
        ensures
            r == bit8(self.bits, 1u8),
    {
        (self.bits >> 1u8) & 1u8 != 0
    }

    /// Bit 2 - USB protocol processor software reset control.
    pub fn rst_sie(&self) -> (r: bool)
        ensures
            r == bit8(self.bits, 2u8),
    {
        (self.bits >> 2u8) & 1u8 != 0
    }

    /// Bit 3 - USB transfer completion interrupt flag not cleared to zero auto pause enable bit.
    pub fn int_busy(&self) -> (r: bool)
        ensures
            r == bit8(self.bits, 3u8),
    {
        (self.bits >> 3u8) & 1u8 != 0
    }

    /// Bits 4:5 - SYS_MODE
    pub fn sys_mode(&self) -> (r: u8)
        ensures
            r == field8(self.bits, 4u8, 3u8),
    {
        (self.bits >> 4u8) & 3u8
    }

    /// Bit 6 - USB low speed enable bit.
    pub fn low_speed(&self) -> (r: bool)
        ensures
            r == bit8(self.bits, 6u8),
    {
        (self.bits >> 6u8) & 1u8 != 0
    }

    /// Bit 7 - USB operating mode selection bits.
    pub fn host_mode(&self) -> (r: bool)
        ensures
            r == bit8(self.bits, 7u8),
    {
        (self.bits >> 7u8) & 1u8 != 0
    }
}

/// A value being composed for a write to the register.
#[derive(Clone, Copy, Debug, PartialEq, Eq, Structural)]
pub struct W {
    pub bits: u8,
}

impl W {
    /// Starts from the reset value.
    pub fn reset() -> (r: W)
        ensures
            r.bits == BASE_CTRL_SPEC::RESET_VALUE,
    {
        W { bits: BASE_CTRL_SPEC::RESET_VALUE }
    }

    /// Bit 0 - Enables DMA for USB, this bit must be set to 1 in normal transfer mode.
    pub fn dma_en(&mut self, value: bool)
        ensures
            final(self).bits == set_bit8(old(self).bits, 0u8, value),
    {
        if value {
            self.bits = self.bits | (1u8 << 0u8);
        } else {
            self.bits = self.bits & !(1u8 << 0u8);
        }
    }

    /// Bit 1 - USB FIFO and interrupt flag clear.
    pub fn clr_all(&mut self, value: bool)
        ensures
            final(self).bits == set_bit8(old(self).bits, 1u8, value),
    {
        if value {
            self.bits = self.bits | (1u8 << 1u8);
        } else {
            self.bits = self.bits & !(1u8 << 1u8);
        }
    }

    /// Bit 2 - USB protocol processor software reset control.
    pub fn rst_sie(&mut self, value: bool)
        ensures
            final(self).bits == set_bit8(old(self).bits, 2u8, value),
    {
        if value {
            self.bits = self.bits | (1u8 << 2u8);
        } else {
            self.bits = self.bits & !(1u8 << 2u8);
        }
    }

    /// Bit 3 - USB transfer completion interrupt flag not cleared to zero auto pause enable bit.
    pub fn int_busy(&mut self, value: bool)
        ensures
            final(self).bits == set_bit8(old(self).bits, 3u8, value),
    {
        if value {
            self.bits = self.bits | (1u8 << 3u8);
        } else {
            self.bits = self.bits & !(1u8 << 3u8);
        }
    }

    /// Bits 4:5 - SYS_MODE
    pub fn sys_mode(&mut self, value: u8)
        ensures
            final(self).bits == set_field8(old(self).bits, 4u8, 3u8, value),
    {
        let v = value;
        self.bits = (self.bits & !(3u8 << 4u8)) | ((v & 3u8) << 4u8);
    }

    /// Bit 6 - USB low speed enable bit.
    pub fn low_speed(&mut self, value: bool)
        ensures
            final(self).bits == set_bit8(old(self).bits, 6u8, value),
    {
        if value {
            self.bits = self.bits | (1u8 << 6u8);
        } else {
            self.bits = self.bits & !(1u8 << 6u8);
        }
    }

    /// Bit 7 - USB operating mode selection bits.
    pub fn host_mode(&mut self, value: bool)
        ensures
            final(self).bits == set_bit8(old(self).bits, 7u8, value),
    {
        if value {
            self.bits = self.bits | (1u8 << 7u8);
        } else {
            self.bits = self.bits & !(1u8 << 7u8);
        }
    }
}

} // verus!
