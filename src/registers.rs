use vstd::prelude::*;

use crate::flag_value;

verus! {

/// The eight 8-bit register names; `F` reads the packed flags.
#[derive(Debug, Clone, Copy, PartialEq, Eq, Structural)]
pub enum R8 {
    A,
    F,
    B,
    C,
    D,
    E,
    H,
    L,
}

/// The 16-bit register views.
#[derive(Debug, Clone, Copy, PartialEq, Eq, Structural)]
pub enum R16 {
    AF,
    BC,
    DE,
    HL,
    SP,
}

/// The register file of the SM83 core. The flags are kept unpacked; `F` is
/// only ever seen through `get_reg_f`, whose low nibble is zero.
#[derive(Debug, Clone, Copy, PartialEq, Eq)]
pub struct Registers {
    pub a: u8,
    pub b: u8,
    pub c: u8,
    pub d: u8,
    pub e: u8,
    pub h: u8,
    pub l: u8,
    pub z_flag: bool,
    pub n_flag: bool,
    pub h_flag: bool,
    pub c_flag: bool,
    pub sp: u16,
    pub pc: u16,
}

/// The 16-bit value made of a high and a low byte.
pub open spec fn word(h: u8, l: u8) -> u16 {
    (h as int * 256 + l as int) as u16
}

impl Registers {
    /// The packed flag byte: Z, N, H, C in bits 7 to 4.
    pub open spec fn f(self) -> u8 {
        (flag_value(self.z_flag, 128) + flag_value(self.n_flag, 64) + flag_value(self.h_flag, 32)
            + flag_value(self.c_flag, 16)) as u8
    }

    pub open spec fn af(self) -> u16 {
        word(self.a, self.f())
    }

    pub open spec fn bc(self) -> u16 {
        word(self.b, self.c)
    }

    pub open spec fn de(self) -> u16 {
        word(self.d, self.e)
    }

    pub open spec fn hl(self) -> u16 {
        word(self.h, self.l)
    }

    /// The register file after `AF` is written with `v`.
    pub open spec fn with_af(self, v: u16) -> Registers {
        Registers {
            a: (v / 256) as u8,
            z_flag: (v % 256) / 128 == 1,
            n_flag: (v % 128) / 64 == 1,
            h_flag: (v % 64) / 32 == 1,
            c_flag: (v % 32) / 16 == 1,
            ..self
        }
    }

    pub open spec fn with_bc(self, v: u16) -> Registers {
        Registers { b: (v / 256) as u8, c: (v % 256) as u8, ..self }
    }

    pub open spec fn with_de(self, v: u16) -> Registers {
        Registers { d: (v / 256) as u8, e: (v % 256) as u8, ..self }
    }

    pub open spec fn with_hl(self, v: u16) -> Registers {
        Registers { h: (v / 256) as u8, l: (v % 256) as u8, ..self }
    }

    /// The value of an 8-bit register.
    pub open spec fn r8(self, r: R8) -> u8 {
        match r {
            R8::A => self.a,
            R8::F => self.f(),
            R8::B => self.b,
            R8::C => self.c,
            R8::D => self.d,
            R8::E => self.e,
            R8::H => self.h,
            R8::L => self.l,
        }
    }

    /// The register file after an 8-bit register other than `F` is written.
    pub open spec fn with_r8(self, r: R8, v: u8) -> Registers {
        match r {
            R8::A => Registers { a: v, ..self },
            R8::F => self,
            R8::B => Registers { b: v, ..self },
            R8::C => Registers { c: v, ..self },
            R8::D => Registers { d: v, ..self },
            R8::E => Registers { e: v, ..self },
            R8::H => Registers { h: v, ..self },
            R8::L => Registers { l: v, ..self },
        }
    }

    /// The value of a 16-bit register view.
    pub open spec fn r16(self, r: R16) -> u16 {
        match r {
            R16::AF => self.af(),
            R16::BC => self.bc(),
            R16::DE => self.de(),
            R16::HL => self.hl(),
            R16::SP => self.sp,
        }
    }

    pub open spec fn with_r16(self, r: R16, v: u16) -> Registers {
        match r {
            R16::AF => self.with_af(v),
            R16::BC => self.with_bc(v),
            R16::DE => self.with_de(v),
            R16::HL => self.with_hl(v),
            R16::SP => Registers { sp: v, ..self },
        }
    }

    /// All registers and flags cleared, the program counter at the cartridge entry.
    pub open spec fn new_spec() -> Registers {
        Registers {
            a: 0,
            b: 0,
            c: 0,
            d: 0,
            e: 0,
            h: 0,
            l: 0,
            z_flag: false,
            n_flag: false,
            h_flag: false,
            c_flag: false,
            sp: 0,
            pc: 0x100,
        }
    }

    pub fn new() -> (r: Registers)
        ensures
            r == Registers::new_spec(),
            r == (Registers {
                a: 0,
                b: 0,
                c: 0,
                d: 0,
                e: 0,
                h: 0,
                l: 0,
                z_flag: false,
                n_flag: false,
                h_flag: false,
                c_flag: false,
                sp: 0,
                pc: 0x100,
            }),
    {
        Registers {
            a: 0,
            b: 0,
            c: 0,
            d: 0,
            e: 0,
            h: 0,
            l: 0,
            z_flag: false,
            n_flag: false,
            h_flag: false,
            c_flag: false,
            sp: 0,
            pc: 0x100,
        }
    }

    pub fn get_reg_f(&self) -> (r: u8)
        ensures
            r == self.f(),
            r % 16 == 0,
    {
        let mut f: u8 = 0;
        if self.z_flag {
            f = f + 128;
        }
        if self.n_flag {
            f = f + 64;
        }
        if self.h_flag {
            f = f + 32;
        }
        if self.c_flag {
            f = f + 16;
        }
        f
    }

    pub fn get_reg_af(&self) -> (r: u16)
        ensures
            r == self.af(),
    {
        to_u16(self.a, self.get_reg_f())
    }

    pub fn set_reg_af(&mut self, v: u16)
        ensures
            *final(self) == old(self).with_af(v),
    {
        self.a = high_bits(v);
        let lower = low_bits(v);
        self.z_flag = lower / 128 == 1;
        self.n_flag = (lower % 128) / 64 == 1;
        self.h_flag = (lower % 64) / 32 == 1;
        self.c_flag = (lower % 32) / 16 == 1;
    }

    pub fn get_reg_bc(&self) -> (r: u16)
        ensures
            r == self.bc(),
    {
        to_u16(self.b, self.c)
    }

    pub fn set_reg_bc(&mut self, v: u16)
        ensures
            *final(self) == old(self).with_bc(v),
    {
        self.b = high_bits(v);
        self.c = low_bits(v);
    }

    pub fn get_reg_de(&self) -> (r: u16)
        ensures
            r == self.de(),
    {
        to_u16(self.d, self.e)
    }

    pub fn set_reg_de(&mut self, v: u16)
        ensures
            *final(self) == old(self).with_de(v),
    {
        self.d = high_bits(v);
        self.e = low_bits(v);
    }

    pub fn get_reg_hl(&self) -> (r: u16)
        ensures
            r == self.hl(),
    {
        to_u16(self.h, self.l)
    }

    pub fn set_reg_hl(&mut self, v: u16)
        ensures
            *final(self) == old(self).with_hl(v),
    {
        self.h = high_bits(v);
        self.l = low_bits(v);
    }

    /// Reads an 8-bit register.
    pub fn read_r8(&self, reg: R8) -> (r: u8)
        ensures
            r == self.r8(reg),
    {
        match reg {
            R8::A => self.a,
            R8::F => self.get_reg_f(),
            R8::B => self.b,
            R8::C => self.c,
            R8::D => self.d,
            R8::E => self.e,
            R8::H => self.h,
            R8::L => self.l,
        }
    }

    /// Writes an 8-bit register; `F` is not writable on its own.
    pub fn write_r8(&mut self, reg: R8, v: u8)
        requires
            reg != R8::F,
        ensures
            *final(self) == old(self).with_r8(reg, v),
    {
        match reg {
            R8::A => self.a = v,
            R8::F => {},
            R8::B => self.b = v,
            R8::C => self.c = v,
            R8::D => self.d = v,
            R8::E => self.e = v,
            R8::H => self.h = v,
            R8::L => self.l = v,
        }
    }

    /// Reads a 16-bit register view.
    pub fn read_r16(&self, reg: R16) -> (r: u16)
        ensures
            r == self.r16(reg),
    {
        match reg {
            R16::AF => self.get_reg_af(),
            R16::BC => self.get_reg_bc(),
            R16::DE => self.get_reg_de(),
            R16::HL => self.get_reg_hl(),
            R16::SP => self.sp,
        }
    }

    /// Writes a 16-bit register view.
    pub fn write_r16(&mut self, reg: R16, v: u16)
        ensures
            *final(self) == old(self).with_r16(reg, v),
    {
        match reg {
            R16::AF => self.set_reg_af(v),
            R16::BC => self.set_reg_bc(v),
            R16::DE => self.set_reg_de(v),
            R16::HL => self.set_reg_hl(v),
            R16::SP => self.sp = v,
        }
    }
}

/// Joins a high and a low byte into a word.
pub fn to_u16(h: u8, l: u8) -> (r: u16)
    ensures
        r == word(h, l),
{
    (h as u16) * 256 + l as u16
}

/// The high byte of a word.
pub fn high_bits(x: u16) -> (r: u8)
    ensures
        r == x / 256,
{
    (x / 256) as u8
}

/// The low byte of a word.
pub fn low_bits(x: u16) -> (r: u8)
    ensures
        r == x % 256,
{
    (x % 256) as u8
}

/// Writing `AF` and reading it back gives the value with the low nibble of
/// `F` cleared: the flag register has no storage below bit 4.
pub proof fn lemma_af_round_trip(regs: Registers, v: u16)
    ensures
        regs.with_af(v).af() == v & 0xFFF0,
{
    assert(v & 0xFFF0 == (v / 256) * 256 + 128 * ((v % 256) / 128) + 64 * ((v % 128) / 64) + 32 * (
    (v % 64) / 32) + 16 * ((v % 32) / 16) && (v % 256) / 128 <= 1 && (v % 128) / 64 <= 1 && (v % 64)
        / 32 <= 1 && (v % 32) / 16 <= 1) by (bit_vector);
}

} // verus!
