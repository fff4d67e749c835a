//! USB interrupt status register.
use vstd::prelude::*;
use crate::usbfs::{bit8, field8};

verus! {

/// Marker of the register, with its value after reset.
#[allow(non_camel_case_types)]
pub struct INT_ST_SPEC;

impl INT_ST_SPEC {
    pub const RESET_VALUE: u8 = 0;
}

#[allow(non_camel_case_types)]
#[derive(Clone, Copy, Debug, PartialEq, Eq, Structural)]
pub enum TOKEN_A {
    Out,
    Sof,
    In,
    Setup,
}

impl TOKEN_A {
    pub open spec fn spec_bits(self) -> u8 {
        match self {
            TOKEN_A::Out => 0u8,
            TOKEN_A::Sof => 1u8,
            TOKEN_A::In => 2u8,
            TOKEN_A::Setup => 3u8,
        }
    }

    /// The field value of the variant.
    pub fn to_bits(self) -> (r: u8)
        ensures
            r == self.spec_bits(),
    {
        match self {
            TOKEN_A::Out => 0u8,
            TOKEN_A::Sof => 1u8,
            TOKEN_A::In => 2u8,
            TOKEN_A::Setup => 3u8,
        }
    }
}

/// Reader of a field with named values.
#[allow(non_camel_case_types)]
#[derive(Clone, Copy, Debug, PartialEq, Eq, Structural)]
pub struct TOKEN_R {
    pub bits: u8,
}

impl TOKEN_R {
    /// The named value of the field.
    pub fn variant(&self) -> (r: TOKEN_A)
        requires
            self.bits < 4,
        ensures
            r.spec_bits() == self.bits,
    {
        match self.bits {
            0 => TOKEN_A::Out,
            1 => TOKEN_A::Sof,
            2 => TOKEN_A::In,
            _ => TOKEN_A::Setup,
        }
    }

    /// Whether the field holds `Out`.
    pub fn is_out(&self) -> (r: bool)
        ensures
            r == (self.bits == 0u8),
    {
        self.bits == 0u8
    }

    /// Whether the field holds `Sof`.
    pub fn is_sof(&self) -> (r: bool)
        ensures
            r == (self.bits == 1u8),
    {
        self.bits == 1u8
    }

    /// Whether the field holds `In`.
    pub fn is_in(&self) -> (r: bool)
        ensures
            r == (self.bits == 2u8),
    {
        self.bits == 2u8
    }

    /// Whether the field holds `Setup`.
    pub fn is_setup(&self) -> (r: bool)
        ensures
            r == (self.bits == 3u8),
    {
        self.bits == 3u8
    }
}

/// A value read from the register.
#[derive(Clone, Copy, Debug, PartialEq, Eq, Structural)]
pub struct R {
    pub bits: u8,
}

impl R {
    /// Bits 0:3 - In device mode, the endpoint number of the current USB transfer transaction.
    pub fn endp(&self) -> (r: u8)
        ensures
            r == field8(self.bits, 0u8, 0xfu8),
    {
        (self.bits >> 0u8) & 0xfu8
    }

    /// Bits 4:5 - In device mode, the token PID identifier of XXb the current USB transfer transaction.
    pub fn token(&self) -> (r: TOKEN_R)
        ensures
            r.bits == field8(self.bits, 4u8, 3u8) as u8,
            r.bits <= 3u8,
    {
        let b = self.bits;
        let v = (b >> 4u8) & 3u8;
        assert(v <= 3u8) by (bit_vector)
            requires
                v == (b >> 4u8) & 3u8,
        ;
        TOKEN_R { bits: v as u8 }
    }

    /// Bit 6 - Toggle bit of received packet matched expected.
    pub fn tog_ok(&self) -> (r: bool)
        ensures
            r == bit8(self.bits, 6u8),
    {
        (self.bits >> 6u8) & 1u8 != 0
    }

    /// Bit 7 - SETUP transaction completed.
    pub fn setup_act(&self) -> (r: bool)
        ensures
            r == bit8(self.bits, 7u8),
    {
        (self.bits >> 7u8) & 1u8 != 0
    }
}

} // verus!
