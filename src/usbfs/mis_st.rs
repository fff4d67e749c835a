//! USB miscellaneous status register.
use vstd::prelude::*;
use crate::usbfs::{bit8};

verus! {

/// Marker of the register, with its value after reset.
#[allow(non_camel_case_types)]
pub struct MIS_ST_SPEC;

impl MIS_ST_SPEC {
    pub const RESET_VALUE: u8 = 0;
}

/// A value read from the register.
#[derive(Clone, Copy, Debug, PartialEq, Eq, Structural)]
pub struct R {
    pub bits: u8,
}

impl R {
    /// Bit 0 - USB device attach status for the port in USB host mode.
    pub fn dev_attach(&self) -> (r: bool)
        ensures
            r == bit8(self.bits, 0u8),
    {
        (self.bits >> 0u8) & 1u8 != 0
    }

    /// Bit 1 - DM_LEVEL
    pub fn dm_level(&self) -> (r: bool)
        ensures
            r == bit8(self.bits, 1u8),
    {
        (self.bits >> 1u8) & 1u8 != 0
    }

    /// Bit 2 - USB suspend.
    pub fn suspend(&self) -> (r: bool)
        ensures
            r == bit8(self.bits, 2u8),
    {
        (self.bits >> 2u8) & 1u8 != 0
    }

    /// Bit 3 - USB bus reset.
    pub fn bus_rst(&self) -> (r: bool)
        ensures
            r == bit8(self.bits, 3u8),
    {
        (self.bits >> 3u8) & 1u8 != 0
    }

    /// Bit 4 - USB receive FIFO data ready.
    pub fn r_fifo_rdy(&self) -> (r: bool)
        ensures
            r == bit8(self.bits, 4u8),
    {
        (self.bits >> 4u8) & 1u8 != 0
    }

    /// Bit 5 - USB protocol handler free.
    pub fn sie_free(&self) -> (r: bool)
        ensures
            r == bit8(self.bits, 5u8),
    {
        (self.bits >> 5u8) & 1u8 != 0
    }

    /// Bit 6 - SOF packet transfer status in USB host mode.
    pub fn sof_act(&self) -> (r: bool)
        ensures
            r == bit8(self.bits, 6u8),
    {
        (self.bits >> 6u8) & 1u8 != 0
    }

    /// Bit 7 - SOF packet presage status in USB host mode.
    pub fn sof_pres(&self) -> (r: bool)
        ensures
            r == bit8(self.bits, 7u8),
    {
        (self.bits >> 7u8) & 1u8 != 0
    }
}

} // verus!
