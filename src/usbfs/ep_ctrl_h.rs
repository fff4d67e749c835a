//! Endpoint control register.
use vstd::prelude::*;
use crate::usbfs::{bit16, field16, set_bit16, set_field16};

verus! {

/// Marker of the register, with its value after reset.
#[allow(non_camel_case_types)]
pub struct EP_CTRL_H_SPEC;

impl EP_CTRL_H_SPEC {
    pub const RESET_VALUE: u16 = 0;
}

#[allow(non_camel_case_types)]
#[derive(Clone, Copy, Debug, PartialEq, Eq, Structural)]
pub enum T_RES_A {
    Ack,
    Nyet,
    Nak,
    Stall,
}

impl T_RES_A {
    pub open spec fn spec_bits(self) -> u8 {
        match self {
            T_RES_A::Ack => 0u8,
            T_RES_A::Nyet => 1u8,
            T_RES_A::Nak => 2u8,
            T_RES_A::Stall => 3u8,
        }
    }

    /// The field value of the variant.
    pub fn to_bits(self) -> (r: u8)
        ensures
            r == self.spec_bits(),
    {
        match self {
            T_RES_A::Ack => 0u8,
            T_RES_A::Nyet => 1u8,
            T_RES_A::Nak => 2u8,
            T_RES_A::Stall => 3u8,
        }
    }
}

#[allow(non_camel_case_types)]
#[derive(Clone, Copy, Debug, PartialEq, Eq, Structural)]
pub enum R_RES_A {
    Ack,
    Nyet,
    Nak,
    Stall,
}

impl R_RES_A {
    pub open spec fn spec_bits(self) -> u8 {
        match self {
            R_RES_A::Ack => 0u8,
            R_RES_A::Nyet => 1u8,
            R_RES_A::Nak => 2u8,
            R_RES_A::Stall => 3u8,
        }
    }

    /// The field value of the variant.
    pub fn to_bits(self) -> (r: u8)
        ensures
            r == self.spec_bits(),
    {
        match self {
            R_RES_A::Ack => 0u8,
            R_RES_A::Nyet => 1u8,
            R_RES_A::Nak => 2u8,
            R_RES_A::Stall => 3u8,
        }
    }
}

/// Reader of a field with named values.
#[allow(non_camel_case_types)]
#[derive(Clone, Copy, Debug, PartialEq, Eq, Structural)]
pub struct T_RES_R {
    pub bits: u8,
}

impl T_RES_R {
    /// The named value of the field.
    pub fn variant(&self) -> (r: T_RES_A)
        requires
            self.bits < 4,
        ensures
            r.spec_bits() == self.bits,
    {
        match self.bits {
            0 => T_RES_A::Ack,
            1 => T_RES_A::Nyet,
            2 => T_RES_A::Nak,
            _ => T_RES_A::Stall,
        }
    }

    /// Whether the field holds `Ack`.
    pub fn is_ack(&self) -> (r: bool)
        ensures
            r == (self.bits == 0u8),
    {
        self.bits == 0u8
    }

    /// Whether the field holds `Nyet`.
    pub fn is_nyet(&self) -> (r: bool)
        ensures
            r == (self.bits == 1u8),
    {
        self.bits == 1u8
    }

    /// Whether the field holds `Nak`.
    pub fn is_nak(&self) -> (r: bool)
        ensures
            r == (self.bits == 2u8),
    {
        self.bits == 2u8
    }

    /// Whether the field holds `Stall`.
    pub fn is_stall(&self) -> (r: bool)
        ensures
            r == (self.bits == 3u8),
    {
        self.bits == 3u8
    }
}

/// Reader of a field with named values.
#[allow(non_camel_case_types)]
#[derive(Clone, Copy, Debug, PartialEq, Eq, Structural)]
pub struct R_RES_R {
    pub bits: u8,
}

impl R_RES_R {
    /// The named value of the field.
    pub fn variant(&self) -> (r: R_RES_A)
        requires
            self.bits < 4,
        ensures
            r.spec_bits() == self.bits,
    {
        match self.bits {
            0 => R_RES_A::Ack,
            1 => R_RES_A::Nyet,
            2 => R_RES_A::Nak,
            _ => R_RES_A::Stall,
        }
    }

    /// Whether the field holds `Ack`.
    pub fn is_ack(&self) -> (r: bool)
        ensures
            r == (self.bits == 0u8),
    {
        self.bits == 0u8
    }

    /// Whether the field holds `Nyet`.
    pub fn is_nyet(&self) -> (r: bool)
        ensures
            r == (self.bits == 1u8),
    {
        self.bits == 1u8
    }

    /// Whether the field holds `Nak`.
    pub fn is_nak(&self) -> (r: bool)
        ensures
            r == (self.bits == 2u8),
    {
        self.bits == 2u8
    }

    /// Whether the field holds `Stall`.
    pub fn is_stall(&self) -> (r: bool)
        ensures
            r == (self.bits == 3u8),
    {
        self.bits == 3u8
    }
}

/// A value read from the register.
#[derive(Clone, Copy, Debug, PartialEq, Eq, Structural)]
pub struct R {
    pub bits: u16,
}

impl R {
    /// Bits 0:1 - Endpoint transmitter response control.
    pub fn t_res(&self) -> (r: T_RES_R)
        ensures
            r.bits == field16(self.bits, 0u16, 3u16) as u8,
            r.bits <= 3u8,
    {
        let b = self.bits;
        let v = (b >> 0u16) & 3u16;
        assert(v <= 3u16) by (bit_vector)
            requires
                v == (b >> 0u16) & 3u16,
        ;
        T_RES_R { bits: v as u8 }
    }

    /// Bits 2:3 - Endpoint receiver response control.
    pub fn r_res(&self) -> (r: R_RES_R)
        ensures
            r.bits == field16(self.bits, 2u16, 3u16) as u8,
            r.bits <= 3u8,
    {
        let b = self.bits;
        let v = (b >> 2u16) & 3u16;
        assert(v <= 3u16) by (bit_vector)
            requires
                v == (b >> 2u16) & 3u16,
        ;
        R_RES_R { bits: v as u8 }
    }

    /// Bit 6 - Endpoint transmitter toggle bit.
    pub fn t_tog(&self) -> (r: bool)
        ensures
            r == bit16(self.bits, 6u16),
    {
        (self.bits >> 6u16) & 1u16 != 0
    }

    /// Bit 7 - Endpoint receiver toggle bit.
    pub fn r_tog(&self) -> (r: bool)
        ensures
            r == bit16(self.bits, 7u16),
    {
        (self.bits >> 7u16) & 1u16 != 0
    }
}

/// A value being composed for a write to the register.
#[derive(Clone, Copy, Debug, PartialEq, Eq, Structural)]
pub struct W {
    pub bits: u16,
}

impl W {
    /// Starts from the reset value.
    pub fn reset() -> (r: W)
        ensures
            r.bits == EP_CTRL_H_SPEC::RESET_VALUE,
    {
        W { bits: EP_CTRL_H_SPEC::RESET_VALUE }
    }

    /// Bits 0:1 - Endpoint transmitter response control.
    pub fn t_res(&mut self, value: T_RES_A)
        ensures
            final(self).bits == set_field16(old(self).bits, 0u16, 3u16, value.spec_bits() as u16),
    {
        let v = value.to_bits() as u16;
        self.bits = (self.bits & !(3u16 << 0u16)) | ((v & 3u16) << 0u16);
    }

    /// Bits 2:3 - Endpoint receiver response control.
    pub fn r_res(&mut self, value: R_RES_A)
        ensures
            final(self).bits == set_field16(old(self).bits, 2u16, 3u16, value.spec_bits() as u16),
    {
        let v = value.to_bits() as u16;
        self.bits = (self.bits & !(3u16 << 2u16)) | ((v & 3u16) << 2u16);
    }

    /// Bit 6 - Endpoint transmitter toggle bit.
    pub fn t_tog(&mut self, value: bool)
        ensures
            final(self).bits == set_bit16(old(self).bits, 6u16, value),
    {
        if value {
            self.bits = self.bits | (1u16 << 6u16);
        } else {
            self.bits = self.bits & !(1u16 << 6u16);
        }
    }

    /// Bit 7 - Endpoint receiver toggle bit.
    pub fn r_tog(&mut self, value: bool)
        ensures
            final(self).bits == set_bit16(old(self).bits, 7u16, value),
    {
        if value {
            self.bits = self.bits | (1u16 << 7u16);
        } else {
            self.bits = self.bits & !(1u16 << 7u16);
        }
    }
}

/// Writer of a field with named values.
#[allow(non_camel_case_types)]
pub struct T_RES_W;

impl T_RES_W {
    /// Writes `Ack` to the field.
    pub fn ack(w: &mut W)
        ensures
            final(w).bits == set_field16(old(w).bits, 0u16, 3u16, 0u16),
    {
        w.bits = (w.bits & !(3u16 << 0u16)) | ((0u16 & 3u16) << 0u16);
    }

    /// Writes `Nyet` to the field.
    pub fn nyet(w: &mut W)
        ensures
            final(w).bits == set_field16(old(w).bits, 0u16, 3u16, 1u16),
    {
        w.bits = (w.bits & !(3u16 << 0u16)) | ((1u16 & 3u16) << 0u16);
    }

    /// Writes `Nak` to the field.
    pub fn nak(w: &mut W)
        ensures
            final(w).bits == set_field16(old(w).bits, 0u16, 3u16, 2u16),
    {
        w.bits = (w.bits & !(3u16 << 0u16)) | ((2u16 & 3u16) << 0u16);
    }

    /// Writes `Stall` to the field.
    pub fn stall(w: &mut W)
        ensures
            final(w).bits == set_field16(old(w).bits, 0u16, 3u16, 3u16),
    {
        w.bits = (w.bits & !(3u16 << 0u16)) | ((3u16 & 3u16) << 0u16);
    }
}

/// Writer of a field with named values.
#[allow(non_camel_case_types)]
pub struct R_RES_W;

impl R_RES_W {
    /// Writes `Ack` to the field.
    pub fn ack(w: &mut W)
        ensures
            final(w).bits == set_field16(old(w).bits, 2u16, 3u16, 0u16),
    {
        w.bits = (w.bits & !(3u16 << 2u16)) | ((0u16 & 3u16) << 2u16);
    }

    /// Writes `Nyet` to the field.
    pub fn nyet(w: &mut W)
        ensures
            final(w).bits == set_field16(old(w).bits, 2u16, 3u16, 1u16),
    {
        w.bits = (w.bits & !(3u16 << 2u16)) | ((1u16 & 3u16) << 2u16);
    }

    /// Writes `Nak` to the field.
    pub fn nak(w: &mut W)
        ensures
            final(w).bits == set_field16(old(w).bits, 2u16, 3u16, 2u16),
    {
        w.bits = (w.bits & !(3u16 << 2u16)) | ((2u16 & 3u16) << 2u16);
    }

    /// Writes `Stall` to the field.
    pub fn stall(w: &mut W)
        ensures
            final(w).bits == set_field16(old(w).bits, 2u16, 3u16, 3u16),
    {
        w.bits = (w.bits & !(3u16 << 2u16)) | ((3u16 & 3u16) << 2u16);
    }
}

} // verus!
