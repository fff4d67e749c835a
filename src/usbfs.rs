//! Registers of the USB full-speed device controller: the value of each
//! register as plain bits, with readers and writers for its fields.
use vstd::prelude::*;

pub mod base_ctrl;
pub mod dev_ctrl;
pub mod int_en;
pub mod dev_addr;
pub mod mis_st;
pub mod int_fg;
pub mod int_st;
pub mod rx_len;
pub mod ep4_1_mod;
pub mod ep2_3_mod;
pub mod ep567_mod;
pub mod ep_dma;
pub mod ep_tx_len;
pub mod ep_ctrl_h;
pub mod epx_ctrl;

verus! {

/// Bit `n` of a 8-bit register value.
pub open spec fn bit8(bits: u8, n: u8) -> bool {
    (bits >> n) & 1u8 != 0
}

/// The field of a 8-bit register value at bit `shift`, `mask` wide.
pub open spec fn field8(bits: u8, shift: u8, mask: u8) -> u8 {
    (bits >> shift) & mask
}

/// A 8-bit register value with bit `n` set to `value`.
pub open spec fn set_bit8(bits: u8, n: u8, value: bool) -> u8 {
    if value {
        bits | (1u8 << n)
    } else {
        bits & !(1u8 << n)
    }
}

/// A 8-bit register value with the field at `shift` (of width `mask`) set
/// to `value`, cut to the field's width.
pub open spec fn set_field8(bits: u8, shift: u8, mask: u8, value: u8) -> u8 {
    (bits & !(mask << shift)) | ((value & mask) << shift)
}

/// Bit `n` of a 16-bit register value.
pub open spec fn bit16(bits: u16, n: u16) -> bool {
    (bits >> n) & 1u16 != 0
}

/// The field of a 16-bit register value at bit `shift`, `mask` wide.
pub open spec fn field16(bits: u16, shift: u16, mask: u16) -> u16 {
    (bits >> shift) & mask
}

/// A 16-bit register value with bit `n` set to `value`.
pub open spec fn set_bit16(bits: u16, n: u16, value: bool) -> u16 {
    if value {
        bits | (1u16 << n)
    } else {
        bits & !(1u16 << n)
    }
}

/// A 16-bit register value with the field at `shift` (of width `mask`) set
/// to `value`, cut to the field's width.
pub open spec fn set_field16(bits: u16, shift: u16, mask: u16, value: u16) -> u16 {
    (bits & !(mask << shift)) | ((value & mask) << shift)
}

/// Bit `n` of a 32-bit register value.
pub open spec fn bit32(bits: u32, n: u32) -> bool {
    (bits >> n) & 1u32 != 0
}

/// The field of a 32-bit register value at bit `shift`, `mask` wide.
pub open spec fn field32(bits: u32, shift: u32, mask: u32) -> u32 {
    (bits >> shift) & mask
}

/// A 32-bit register value with bit `n` set to `value`.
pub open spec fn set_bit32(bits: u32, n: u32, value: bool) -> u32 {
    if value {
        bits | (1u32 << n)
    } else {
        bits & !(1u32 << n)
    }
}

/// A 32-bit register value with the field at `shift` (of width `mask`) set
/// to `value`, cut to the field's width.
pub open spec fn set_field32(bits: u32, shift: u32, mask: u32, value: u32) -> u32 {
    (bits & !(mask << shift)) | ((value & mask) << shift)
}

/// The values of the controller's registers.
pub struct RegisterBlock {
    /// 0x00 - USB control register.
    pub base_ctrl: u8,
    /// 0x01 - USB device physical port control.
    pub dev_ctrl: u8,
    /// 0x02 - USB interrupt enable register.
    pub int_en: u8,
    /// 0x03 - USB device address register.
    pub dev_addr: u8,
    /// 0x05 - USB miscellaneous status register.
    pub mis_st: u8,
    /// 0x06 - USB interrupt flag register.
    pub int_fg: u8,
    /// 0x07 - USB interrupt status register.
    pub int_st: u8,
    /// 0x08 - USB receive length register.
    pub rx_len: u16,
    /// 0x0c - Endpoint 1 and 4 mode control.
    pub ep4_1_mod: u8,
    /// 0x0d - Endpoint 2 and 3 mode control.
    pub ep2_3_mod: u8,
    /// 0x0e - Endpoint 5, 6 and 7 mode control.
    pub ep567_mod: u8,
    /// 0x10 - Start address of the endpoint buffer.
    pub ep0_dma: u32,
    /// 0x14 - Start address of the endpoint buffer.
    pub ep1_dma: u32,
    /// 0x18 - Start address of the endpoint buffer.
    pub ep2_dma: u32,
    /// 0x1c - Start address of the endpoint buffer.
    pub ep3_dma: u32,
    /// 0x20 - Endpoint transmit length.
    pub ep0_tx_len: u16,
    /// 0x22 - Endpoint control register.
    pub ep0_ctrl_h: u16,
    /// 0x24 - Endpoint transmit length.
    pub ep1_tx_len: u16,
    /// 0x26 - Endpoint control register.
    pub ep1_ctrl_h: u16,
    /// 0x28 - Endpoint transmit length.
    pub ep2_tx_len: u16,
    /// 0x2a - Endpoint control register.
    pub ep2_ctrl_h: u16,
    /// 0x2c - Endpoint transmit length.
    pub ep3_tx_len: u16,
    /// 0x2e - Endpoint control register.
    pub ep3_ctrl_h: u16,
    /// 0x30 - Endpoint transmit length.
    pub ep4_tx_len: u16,
    /// 0x32 - Endpoint control register.
    pub ep4_ctrl_h: u16,
    /// 0x70 - Endpoint X control register.
    pub epx_ctrl: u32,
}

/// A bit of a 8-bit register reads back what was written to it, and the
/// other bits keep their values.
pub proof fn bit8_reads_back(bits: u8, n: u8, m: u8, value: bool)
    requires
        n < 8,
        m < 8,
    ensures
        bit8(set_bit8(bits, n, value), n) == value,
        m != n ==> bit8(set_bit8(bits, n, value), m) == bit8(bits, m),
{
    if value {
        assert(((bits | (1u8 << n)) >> n) & 1u8 != 0) by (bit_vector)
            requires
                n < 8,
        ;
        assert(m != n ==> ((((bits | (1u8 << n)) >> m) & 1u8 != 0) == (((bits >> m) & 1u8) != 0))) by (bit_vector)
            requires
                n < 8,
                m < 8,
        ;
    } else {
        assert(((bits & !(1u8 << n)) >> n) & 1u8 == 0) by (bit_vector)
            requires
                n < 8,
        ;
        assert(m != n ==> ((((bits & !(1u8 << n)) >> m) & 1u8 != 0) == (((bits >> m) & 1u8) != 0))) by (bit_vector)
            requires
                n < 8,
                m < 8,
        ;
    }
}

/// A bit of a 16-bit register reads back what was written to it, and the
/// other bits keep their values.
pub proof fn bit16_reads_back(bits: u16, n: u16, m: u16, value: bool)
    requires
        n < 16,
        m < 16,
    ensures
        bit16(set_bit16(bits, n, value), n) == value,
        m != n ==> bit16(set_bit16(bits, n, value), m) == bit16(bits, m),
{
    if value {
        assert(((bits | (1u16 << n)) >> n) & 1u16 != 0) by (bit_vector)
            requires
                n < 16,
        ;
        assert(m != n ==> ((((bits | (1u16 << n)) >> m) & 1u16 != 0) == (((bits >> m) & 1u16) != 0))) by (bit_vector)
            requires
                n < 16,
                m < 16,
        ;
    } else {
        assert(((bits & !(1u16 << n)) >> n) & 1u16 == 0) by (bit_vector)
            requires
                n < 16,
        ;
        assert(m != n ==> ((((bits & !(1u16 << n)) >> m) & 1u16 != 0) == (((bits >> m) & 1u16) != 0))) by (bit_vector)
            requires
                n < 16,
                m < 16,
        ;
    }
}

/// A bit of a 32-bit register reads back what was written to it, and the
/// other bits keep their values.
pub proof fn bit32_reads_back(bits: u32, n: u32, m: u32, value: bool)
    requires
        n < 32,
        m < 32,
    ensures
        bit32(set_bit32(bits, n, value), n) == value,
        m != n ==> bit32(set_bit32(bits, n, value), m) == bit32(bits, m),
{
    if value {
        assert(((bits | (1u32 << n)) >> n) & 1u32 != 0) by (bit_vector)
            requires
                n < 32,
        ;
        assert(m != n ==> ((((bits | (1u32 << n)) >> m) & 1u32 != 0) == (((bits >> m) & 1u32) != 0))) by (bit_vector)
            requires
                n < 32,
                m < 32,
        ;
    } else {
        assert(((bits & !(1u32 << n)) >> n) & 1u32 == 0) by (bit_vector)
            requires
                n < 32,
        ;
        assert(m != n ==> ((((bits & !(1u32 << n)) >> m) & 1u32 != 0) == (((bits >> m) & 1u32) != 0))) by (bit_vector)
            requires
                n < 32,
                m < 32,
        ;
    }
}

} // verus!
