use vstd::prelude::*;

use crate::mmu::{MmuView, MMU};
use crate::registers::{word, Registers, R16, R8};
use crate::{wrap16, wrap64, wrap8, Interrupt};
use vstd::arithmetic::div_mod::lemma_fundamental_div_mod_converse;

verus! {

/// A memory operand: the address held in a register pair, 0xFF00 + C,
/// 0xFF00 + an immediate byte, or an immediate word.
#[derive(Debug, Clone, Copy, PartialEq, Eq, Structural)]
pub enum Mem {
    R16(R16),
    FF00C,
    FF00U8,
    LitU16,
}

/// An 8-bit operand: a register, the immediate byte, or a memory location.
#[derive(Debug, Clone, Copy, PartialEq, Eq, Structural)]
pub enum Operand8 {
    Reg(R8),
    LitU8,
    Mem(Mem),
}

/// A branch condition on the Z and C flags.
#[derive(Debug, Clone, Copy, PartialEq, Eq, Structural)]
pub enum Cond {
    NoCond,
    NZ,
    Z,
    NC,
    C,
}

/// The eight accumulator operations of the 0x80..0xBF block.
#[derive(Debug, Clone, Copy, PartialEq, Eq, Structural)]
pub enum AluOp {
    Add,
    Adc,
    Sub,
    Sbc,
    And,
    Xor,
    Or,
    Cp,
}

/// The eight rotate and shift operations of the prefixed table.
#[derive(Debug, Clone, Copy, PartialEq, Eq, Structural)]
pub enum ShiftOp {
    Rlc,
    Rrc,
    Rl,
    Rr,
    Sla,
    Sra,
    Swap,
    Srl,
}

/// Why an instruction could not run.
#[derive(Debug, Clone, Copy, PartialEq, Eq, Structural)]
pub enum CpuError {
    /// One of the eleven unassigned opcodes.
    IllegalOpcode(u8),
    /// STOP, which this core does not model.
    UnsupportedOpcode(u8),
}

/// The whole machine as the processor sees it.
pub struct CpuView {
    pub mmu: MmuView,
    pub regs: Registers,
    pub ime: bool,
    pub cycles: u64,
    pub is_halted: bool,
}

/// The SM83 processor together with the bus it owns.
pub struct CPU {
    pub mmu: MMU,
    pub ime: bool,
    pub regs: Registers,
    pub cycles: u64,
    pub is_halted: bool,
}

impl View for CPU {
    type V = CpuView;

    open spec fn view(&self) -> CpuView {
        CpuView {
            mmu: self.mmu@,
            regs: self.regs,
            ime: self.ime,
            cycles: self.cycles,
            is_halted: self.is_halted,
        }
    }
}

pub open spec fn sign_extend(n: u8) -> u16 {
    if n < 128 {
        n as u16
    } else {
        (n + 0xFF00) as u16
    }
}

pub open spec fn with_flags(r: Registers, z: bool, n: bool, h: bool, c: bool) -> Registers {
    Registers { z_flag: z, n_flag: n, h_flag: h, c_flag: c, ..r }
}

pub open spec fn carry_in(r: Registers) -> int {
    if r.c_flag { 1 } else { 0 }
}

/// The register file after an accumulator operation with operand `v`.
pub open spec fn alu(op: AluOp, r: Registers, v: u8) -> Registers {
    let a = r.a;
    let cin = carry_in(r);
    match op {
        AluOp::Add => {
            let x = wrap8(a + v);
            with_flags(Registers { a: x, ..r }, x == 0, false, a % 16 + v % 16 > 15, a + v > 255)
        },
        AluOp::Adc => {
            let x = wrap8(a + v + cin);
            with_flags(
                Registers { a: x, ..r },
                x == 0,
                false,
                a % 16 + v % 16 + cin > 15,
                a + v + cin > 255,
            )
        },
        AluOp::Sub => {
            let x = wrap8(a - v);
            with_flags(Registers { a: x, ..r }, x == 0, true, a % 16 < v % 16, a < v)
        },
        AluOp::Sbc => {
            let x = wrap8(a - v - cin);
            with_flags(
                Registers { a: x, ..r },
                x == 0,
                true,
                a % 16 < v % 16 + cin,
                a < v + cin,
            )
        },
        AluOp::And => {
            let x = a & v;
            with_flags(Registers { a: x, ..r }, x == 0, false, true, false)
        },
        AluOp::Xor => {
            let x = a ^ v;
            with_flags(Registers { a: x, ..r }, x == 0, false, false, false)
        },
        AluOp::Or => {
            let x = a | v;
            with_flags(Registers { a: x, ..r }, x == 0, false, false, false)
        },
        AluOp::Cp => {
            let x = wrap8(a - v);
            with_flags(r, x == 0, true, a % 16 < v % 16, a < v)
        },
    }
}

/// The result and the carry out of a rotate or shift of `v`.
pub open spec fn shifted(op: ShiftOp, v: u8, cin: bool) -> (u8, bool) {
    let c = if cin { 1int } else { 0int };
    match op {
        ShiftOp::Rlc => (wrap8(v * 2 + v / 128), v >= 128),
        ShiftOp::Rrc => ((v / 2 + (v % 2) * 128) as u8, v % 2 == 1),
        ShiftOp::Rl => (wrap8(v * 2 + c), v >= 128),
        ShiftOp::Rr => ((v / 2 + c * 128) as u8, v % 2 == 1),
        ShiftOp::Sla => (wrap8(v * 2), v >= 128),
        ShiftOp::Sra => ((v / 2 + (v / 128) * 128) as u8, v % 2 == 1),
        ShiftOp::Swap => ((v / 16 + (v % 16) * 16) as u8, false),
        ShiftOp::Srl => ((v / 2) as u8, v % 2 == 1),
    }
}

/// The accumulator after decimal adjustment, and the carry it leaves.
pub open spec fn daa_result(r: Registers) -> (u8, bool) {
    if r.n_flag {
        let a1 = if r.c_flag { wrap8(r.a - 0x60) } else { r.a };
        (if r.h_flag { wrap8(a1 - 6) } else { a1 }, r.c_flag)
    } else {
        let high = r.c_flag || r.a > 0x99;
        let a1 = if high { wrap8(r.a + 0x60) } else { r.a };
        (if r.h_flag || a1 % 16 > 9 { wrap8(a1 + 6) } else { a1 }, high)
    }
}

pub open spec fn pow2_8(n: u8) -> u8 {
    if n == 0 { 1 }
    else if n == 1 { 2 }
    else if n == 2 { 4 }
    else if n == 3 { 8 }
    else if n == 4 { 16 }
    else if n == 5 { 32 }
    else if n == 6 { 64 }
    else { 128 }
}

/// Whether bit `n` of `v` is set.
pub open spec fn bit_of(v: u8, n: u8) -> bool {
    (v / pow2_8(n)) % 2 == 1
}

impl Cond {
    pub open spec fn holds(self, r: Registers) -> bool {
        match self {
            Cond::NoCond => true,
            Cond::NZ => !r.z_flag,
            Cond::Z => r.z_flag,
            Cond::NC => !r.c_flag,
            Cond::C => r.c_flag,
        }
    }

    pub fn is_true(&self, cpu: &CPU) -> (r: bool)
        ensures
            r == self.holds(cpu.regs),
    {
        match self {
            Cond::NoCond => true,
            Cond::NZ => !cpu.regs.z_flag,
            Cond::Z => cpu.regs.z_flag,
            Cond::NC => !cpu.regs.c_flag,
            Cond::C => cpu.regs.c_flag,
        }
    }
}

/// Whether an operand can be written: not the immediate byte, not F.
pub open spec fn writable(op: Operand8) -> bool {
    match op {
        Operand8::Reg(r) => r != R8::F,
        Operand8::LitU8 => false,
        Operand8::Mem(_) => true,
    }
}

impl CpuView {
    pub open spec fn wf(self) -> bool {
        self.mmu.wf()
    }

    pub open spec fn with_regs(self, regs: Registers) -> CpuView {
        CpuView { regs, ..self }
    }

    pub open spec fn with_pc(self, pc: u16) -> CpuView {
        CpuView { regs: Registers { pc, ..self.regs }, ..self }
    }

    pub open spec fn with_sp(self, sp: u16) -> CpuView {
        CpuView { regs: Registers { sp, ..self.regs }, ..self }
    }

    /// One machine cycle on the bus.
    #[verifier::opaque]
    pub open spec fn tick(self) -> CpuView {
        CpuView { mmu: self.mmu.next(), cycles: wrap64(self.cycles + 4), ..self }
    }

    /// Fetches the byte at PC: read, advance PC, one machine cycle.
    #[verifier::opaque]
    pub open spec fn fetch8(self) -> (CpuView, u8) {
        (self.with_pc(wrap16(self.regs.pc + 1)).tick(), self.mmu.read(self.regs.pc))
    }

    /// Fetches the word at PC: both bytes read, PC advanced by two, two machine cycles.
    #[verifier::opaque]
    pub open spec fn fetch16(self) -> (CpuView, u16) {
        (
            self.with_pc(wrap16(self.regs.pc + 2)).tick().tick(),
            self.mmu.read_word16(self.regs.pc),
        )
    }

    /// Forms the address of a memory operand.
    #[verifier::opaque]
    pub open spec fn address(self, m: Mem) -> (CpuView, u16) {
        match m {
            Mem::R16(rr) => (self, self.regs.r16(rr)),
            Mem::LitU16 => self.fetch16(),
            Mem::FF00C => (self, (0xFF00 + self.regs.c) as u16),
            Mem::FF00U8 => {
                let (s, n) = self.fetch8();
                (s, (0xFF00 + n) as u16)
            },
        }
    }

    /// Reads an 8-bit operand; a memory read comes after one machine cycle.
    #[verifier::opaque]
    pub open spec fn read8(self, op: Operand8) -> (CpuView, u8) {
        match op {
            Operand8::Reg(r) => (self, self.regs.r8(r)),
            Operand8::LitU8 => self.fetch8(),
            Operand8::Mem(m) => {
                let (s1, adr) = self.address(m);
                let s2 = s1.tick();
                (s2, s2.mmu.read(adr))
            },
        }
    }

    /// Writes an 8-bit operand; a memory write comes after one machine cycle.
    #[verifier::opaque]
    pub open spec fn write8(self, op: Operand8, v: u8) -> CpuView {
        match op {
            Operand8::Reg(r) => self.with_regs(self.regs.with_r8(r, v)),
            Operand8::LitU8 => self,
            Operand8::Mem(m) => {
                let (s1, adr) = self.address(m);
                let s2 = s1.tick();
                CpuView { mmu: s2.mmu.written(adr, v), ..s2 }
            },
        }
    }

    /// Reads the word at SP after two machine cycles.
    #[verifier::opaque]
    pub open spec fn read_stack(self) -> (CpuView, u16) {
        let s = self.tick().tick();
        (s, s.mmu.read_word16(self.regs.sp))
    }

    /// Pushes a word: SP drops by two, then three machine cycles, then the write.
    #[verifier::opaque]
    pub open spec fn push16(self, v: u16) -> CpuView {
        let sp = wrap16(self.regs.sp + 0xFFFE);
        let s = self.with_sp(sp).tick().tick().tick();
        CpuView { mmu: s.mmu.written_word16(sp, v), ..s }
    }
}

impl CPU {
    pub open spec fn wf(&self) -> bool {
        self@.wf()
    }

    /// A processor over a bus, registers cleared and interrupts disabled.
    pub fn new(mmu: MMU) -> (r: CPU)
        requires
            mmu.wf(),
        ensures
            r.wf(),
            r@ == (CpuView {
                mmu: mmu@,
                regs: Registers::new_spec(),
                ime: false,
                cycles: 0,
                is_halted: false,
            }),
    {
        CPU { mmu, ime: false, regs: Registers::new(), cycles: 0, is_halted: false }
    }

    /// One machine cycle: the clock count advances by four and the bus ticks.
    pub fn tick(&mut self)
        requires
            old(self).wf(),
        ensures
            final(self).wf(),
            final(self)@ == old(self)@.tick(),
            final(self).regs == old(self).regs,
            final(self).ime == old(self).ime,
    {
        reveal(CpuView::tick);
        self.cycles = self.cycles.wrapping_add(4);
        self.mmu.tick();
    }

    pub fn read_word(&self, adr: u16) -> (r: u8)
        requires
            self.wf(),
        ensures
            r == self@.mmu.read(adr),
    {
        self.mmu.read_word(adr)
    }

    pub fn read_dw(&self, adr: u16) -> (r: u16)
        requires
            self.wf(),
        ensures
            r == self@.mmu.read_word16(adr),
    {
        self.mmu.read_dw(adr)
    }

    pub fn write_word(&mut self, adr: u16, v: u8)
        requires
            old(self).wf(),
        ensures
            final(self).wf(),
            final(self)@ == (CpuView { mmu: old(self)@.mmu.written(adr, v), ..old(self)@ }),
    {
        self.mmu.write_word(adr, v);
    }

    pub fn write_dw(&mut self, adr: u16, v: u16)
        requires
            old(self).wf(),
        ensures
            final(self).wf(),
            final(self)@ == (CpuView { mmu: old(self)@.mmu.written_word16(adr, v), ..old(self)@ }),
    {
        self.mmu.write_dw(adr, v);
    }

    /// Fetches the next byte of the instruction stream.
    pub fn next_word(&mut self) -> (r: u8)
        requires
            old(self).wf(),
        ensures
            final(self).wf(),
            (final(self)@, r) == old(self)@.fetch8(),
    {
        reveal(CpuView::fetch8);
        let res = self.mmu.read_word(self.regs.pc);
        self.regs.pc = self.regs.pc.wrapping_add(1);
        self.tick();
        res
    }

    /// Fetches the next word of the instruction stream.
    #[verifier::rlimit(40)]
    pub fn next_dw(&mut self) -> (r: u16)
        requires
            old(self).wf(),
        ensures
            final(self).wf(),
            (final(self)@, r) == old(self)@.fetch16(),
    {
        reveal(CpuView::fetch16);
        let pc = self.regs.pc;
        let res = self.mmu.read_dw(pc);
        self.regs.pc = pc.wrapping_add(2);
        self.tick();
        self.tick();
        res
    }
}

/// Forms the address of a memory operand, fetching what it needs.
pub fn get_adr(cpu: &mut CPU, mem: Mem) -> (r: u16)
    requires
        old(cpu).wf(),
    ensures
        final(cpu).wf(),
        (final(cpu)@, r) == old(cpu)@.address(mem),
{
    reveal(CpuView::address);
    match mem {
        Mem::R16(rr) => cpu.regs.read_r16(rr),
        Mem::LitU16 => cpu.next_dw(),
        Mem::FF00C => 0xFF00 + cpu.regs.c as u16,
        Mem::FF00U8 => 0xFF00 + cpu.next_word() as u16,
    }
}


/// The operand that a 3-bit register field names: B, C, D, E, H, L, (HL), A.
pub open spec fn reg_operand(i: u8) -> Operand8 {
    if i == 0 {
        Operand8::Reg(R8::B)
    } else if i == 1 {
        Operand8::Reg(R8::C)
    } else if i == 2 {
        Operand8::Reg(R8::D)
    } else if i == 3 {
        Operand8::Reg(R8::E)
    } else if i == 4 {
        Operand8::Reg(R8::H)
    } else if i == 5 {
        Operand8::Reg(R8::L)
    } else if i == 6 {
        Operand8::Mem(Mem::R16(R16::HL))
    } else {
        Operand8::Reg(R8::A)
    }
}

/// The register pair that a 2-bit field names, with SP as the fourth.
pub open spec fn pair_sp(p: u8) -> R16 {
    if p == 0 {
        R16::BC
    } else if p == 1 {
        R16::DE
    } else if p == 2 {
        R16::HL
    } else {
        R16::SP
    }
}

/// The register pair that a 2-bit field names, with AF as the fourth.
pub open spec fn pair_af(p: u8) -> R16 {
    if p == 3 {
        R16::AF
    } else {
        pair_sp(p)
    }
}

/// The condition that a 2-bit field names: NZ, Z, NC, C.
pub open spec fn cond_of(c: u8) -> Cond {
    if c == 0 {
        Cond::NZ
    } else if c == 1 {
        Cond::Z
    } else if c == 2 {
        Cond::NC
    } else {
        Cond::C
    }
}

pub open spec fn alu_of(y: u8) -> AluOp {
    if y == 0 {
        AluOp::Add
    } else if y == 1 {
        AluOp::Adc
    } else if y == 2 {
        AluOp::Sub
    } else if y == 3 {
        AluOp::Sbc
    } else if y == 4 {
        AluOp::And
    } else if y == 5 {
        AluOp::Xor
    } else if y == 6 {
        AluOp::Or
    } else {
        AluOp::Cp
    }
}

pub open spec fn shift_of(y: u8) -> ShiftOp {
    if y == 0 {
        ShiftOp::Rlc
    } else if y == 1 {
        ShiftOp::Rrc
    } else if y == 2 {
        ShiftOp::Rl
    } else if y == 3 {
        ShiftOp::Rr
    } else if y == 4 {
        ShiftOp::Sla
    } else if y == 5 {
        ShiftOp::Sra
    } else if y == 6 {
        ShiftOp::Swap
    } else {
        ShiftOp::Srl
    }
}

/// The eleven opcodes that no instruction uses.
pub open spec fn is_illegal(op: u8) -> bool {
    op == 0xD3 || op == 0xDB || op == 0xDD || op == 0xE3 || op == 0xE4 || op == 0xEB || op == 0xEC
        || op == 0xED || op == 0xF4 || op == 0xFC || op == 0xFD
}

impl CpuView {
    #[verifier::opaque]
    pub open spec fn ld(self, dst: Operand8, src: Operand8) -> CpuView {
        let (s, v) = self.read8(src);
        s.write8(dst, v)
    }

    #[verifier::opaque]
    pub open spec fn ldi(self, dst: Operand8, src: Operand8) -> CpuView {
        let s = self.ld(dst, src);
        s.with_regs(s.regs.with_hl(wrap16(s.regs.hl() + 1)))
    }

    #[verifier::opaque]
    pub open spec fn ldd(self, dst: Operand8, src: Operand8) -> CpuView {
        let s = self.ld(dst, src);
        s.with_regs(s.regs.with_hl(wrap16(s.regs.hl() + 0xFFFF)))
    }

    /// LD rr, nn: low byte fetched first.
    #[verifier::opaque]
    pub open spec fn ld_rr_u16(self, rr: R16) -> CpuView {
        let (s1, lo) = self.fetch8();
        let (s2, hi) = s1.fetch8();
        s2.with_regs(s2.regs.with_r16(rr, word(hi, lo)))
    }

    /// LD (nn), SP.
    #[verifier::opaque]
    pub open spec fn ld_u16_sp(self) -> CpuView {
        let v = self.regs.sp;
        let (s1, adr) = self.fetch16();
        let s2 = s1.tick().tick();
        CpuView { mmu: s2.mmu.written_word16(adr, v), ..s2 }
    }

    #[verifier::opaque]
    pub open spec fn ld_sp_hl(self) -> CpuView {
        let v = self.regs.hl();
        self.tick().with_sp(v)
    }

    /// SP plus a signed immediate, with H and C from the low byte's bits 3 and 7.
    pub open spec fn sp_offset(self) -> (CpuView, u16, bool, bool) {
        let (s, n) = self.fetch8();
        let e = sign_extend(n);
        let sp = s.regs.sp;
        (s, wrap16(sp + e), sp % 16 + e % 16 > 15, sp % 256 + e % 256 > 255)
    }

    #[verifier::opaque]
    pub open spec fn ld_hl_sp_i8(self) -> CpuView {
        let (s, v, h, c) = self.sp_offset();
        s.with_regs(with_flags(s.regs.with_hl(v), false, false, h, c)).tick()
    }

    #[verifier::opaque]
    pub open spec fn add_sp(self) -> CpuView {
        let (s, v, h, c) = self.sp_offset();
        s.with_regs(with_flags(Registers { sp: v, ..s.regs }, false, false, h, c)).tick().tick()
    }

    #[verifier::opaque]
    pub open spec fn inc_u8(self, t: Operand8) -> CpuView {
        let (s, v) = self.read8(t);
        s.with_regs(with_flags(s.regs, v == 255, false, v % 16 == 15, s.regs.c_flag)).write8(
            t,
            wrap8(v + 1),
        )
    }

    #[verifier::opaque]
    pub open spec fn dec_u8(self, t: Operand8) -> CpuView {
        let (s, v) = self.read8(t);
        s.with_regs(with_flags(s.regs, v == 1, true, v % 16 == 0, s.regs.c_flag)).write8(
            t,
            wrap8(v - 1),
        )
    }

    #[verifier::opaque]
    pub open spec fn inc_u16(self, rr: R16) -> CpuView {
        let v = self.regs.r16(rr);
        let s = self.tick();
        s.with_regs(s.regs.with_r16(rr, wrap16(v + 1)))
    }

    #[verifier::opaque]
    pub open spec fn dec_u16(self, rr: R16) -> CpuView {
        let v = self.regs.r16(rr);
        let s = self.tick();
        s.with_regs(s.regs.with_r16(rr, wrap16(v - 1)))
    }

    /// ADD HL, rr: H from the carry out of bit 11, C from bit 15, Z kept.
    #[verifier::opaque]
    pub open spec fn add_hl_rr(self, rr: R16) -> CpuView {
        let v = self.regs.r16(rr);
        let hl = self.regs.hl();
        let r = with_flags(
            self.regs,
            self.regs.z_flag,
            false,
            hl % 4096 + v % 4096 > 4095,
            hl + v > 65535,
        );
        self.with_regs(r.with_hl(wrap16(hl + v))).tick()
    }

    #[verifier::opaque]
    pub open spec fn alu(self, op: AluOp, src: Operand8) -> CpuView {
        let (s, v) = self.read8(src);
        s.with_regs(alu(op, s.regs, v))
    }

    /// RLCA, RRCA, RLA, RRA: as the prefixed forms on A, but Z always cleared.
    #[verifier::opaque]
    pub open spec fn rotate_a(self, op: ShiftOp) -> CpuView {
        let (x, c) = shifted(op, self.regs.a, self.regs.c_flag);
        self.with_regs(with_flags(Registers { a: x, ..self.regs }, false, false, false, c))
    }

    #[verifier::opaque]
    pub open spec fn shift(self, op: ShiftOp, t: Operand8) -> CpuView {
        let (s1, v) = self.read8(t);
        let (x, c) = shifted(op, v, s1.regs.c_flag);
        let s2 = s1.write8(t, x);
        s2.with_regs(with_flags(s2.regs, x == 0, false, false, c))
    }

    #[verifier::opaque]
    pub open spec fn bit(self, n: u8, src: Operand8) -> CpuView {
        let (s, v) = self.read8(src);
        s.with_regs(with_flags(s.regs, !bit_of(v, n), false, true, s.regs.c_flag))
    }

    #[verifier::opaque]
    pub open spec fn res(self, n: u8, t: Operand8) -> CpuView {
        let (s, v) = self.read8(t);
        s.write8(t, if bit_of(v, n) { (v - pow2_8(n)) as u8 } else { v })
    }

    #[verifier::opaque]
    pub open spec fn set(self, n: u8, t: Operand8) -> CpuView {
        let (s, v) = self.read8(t);
        s.write8(t, if bit_of(v, n) { v } else { (v + pow2_8(n)) as u8 })
    }

    #[verifier::opaque]
    pub open spec fn jr(self, cond: Cond) -> CpuView {
        let (s, n) = self.fetch8();
        if cond.holds(s.regs) {
            let t = s.tick();
            t.with_pc(wrap16(t.regs.pc + sign_extend(n)))
        } else {
            s
        }
    }

    #[verifier::opaque]
    pub open spec fn jp_u16(self, cond: Cond) -> CpuView {
        let (s, adr) = self.fetch16();
        if cond.holds(s.regs) {
            s.tick().with_pc(adr)
        } else {
            s
        }
    }

    #[verifier::opaque]
    pub open spec fn jp_hl(self) -> CpuView {
        self.with_pc(self.regs.hl())
    }

    /// RET: one internal cycle, one more when conditional and taken, then the pop.
    #[verifier::opaque]
    pub open spec fn ret(self, cond: Cond) -> CpuView {
        let s1 = self.tick();
        if cond.holds(s1.regs) {
            let s2 = if cond != Cond::NoCond {
                s1.tick()
            } else {
                s1
            };
            let (s3, v) = s2.read_stack();
            s3.with_pc(v).with_sp(wrap16(s3.regs.sp + 2))
        } else {
            s1
        }
    }

    #[verifier::opaque]
    pub open spec fn reti(self) -> CpuView {
        CpuView { ime: true, ..self.ret(Cond::NoCond) }
    }

    #[verifier::opaque]
    pub open spec fn call(self, cond: Cond) -> CpuView {
        let (s, adr) = self.fetch16();
        if cond.holds(s.regs) {
            s.push16(s.regs.pc).with_pc(adr)
        } else {
            s
        }
    }

    #[verifier::opaque]
    pub open spec fn rst(self, adr: u8) -> CpuView {
        self.push16(self.regs.pc).with_pc(adr as u16)
    }

    #[verifier::opaque]
    pub open spec fn push(self, rr: R16) -> CpuView {
        self.push16(self.regs.r16(rr))
    }

    #[verifier::opaque]
    pub open spec fn pop(self, rr: R16) -> CpuView {
        let (s1, v) = self.read_stack();
        let s2 = s1.with_regs(s1.regs.with_r16(rr, v));
        s2.with_sp(wrap16(s2.regs.sp + 2))
    }

    #[verifier::opaque]
    pub open spec fn daa(self) -> CpuView {
        let (x, c) = daa_result(self.regs);
        self.with_regs(with_flags(Registers { a: x, ..self.regs }, x == 0, self.regs.n_flag, false, c))
    }

    #[verifier::opaque]
    pub open spec fn cpl(self) -> CpuView {
        self.with_regs(
            with_flags(
                Registers { a: self.regs.a ^ 0xFF, ..self.regs },
                self.regs.z_flag,
                true,
                true,
                self.regs.c_flag,
            ),
        )
    }

    #[verifier::opaque]
    pub open spec fn scf(self) -> CpuView {
        self.with_regs(with_flags(self.regs, self.regs.z_flag, false, false, true))
    }

    #[verifier::opaque]
    pub open spec fn ccf(self) -> CpuView {
        self.with_regs(with_flags(self.regs, self.regs.z_flag, false, false, !self.regs.c_flag))
    }

    /// HALT: with nothing pending the processor halts and PC steps back onto
    /// the HALT, so that it runs again until an interrupt is pending.
    #[verifier::opaque]
    pub open spec fn halt(self) -> CpuView {
        if self.mmu.pending() == 0 {
            CpuView { is_halted: true, ..self }.with_pc(wrap16(self.regs.pc + 0xFFFF))
        } else {
            CpuView { is_halted: false, ..self }
        }
    }
}

impl CPU {
    /// Reads an 8-bit operand.
    fn read8(&mut self, op: Operand8) -> (r: u8)
        requires
            old(self).wf(),
        ensures
            final(self).wf(),
            (final(self)@, r) == old(self)@.read8(op),
    {
        reveal(CpuView::read8);
        match op {
            Operand8::Reg(r) => self.regs.read_r8(r),
            Operand8::LitU8 => self.next_word(),
            Operand8::Mem(m) => {
                let adr = get_adr(self, m);
                self.tick();
                self.read_word(adr)
            },
        }
    }

    /// Writes an 8-bit operand.
    fn write8(&mut self, op: Operand8, v: u8)
        requires
            old(self).wf(),
            writable(op),
        ensures
            final(self).wf(),
            final(self)@ == old(self)@.write8(op, v),
    {
        reveal(CpuView::write8);
        match op {
            Operand8::Reg(r) => self.regs.write_r8(r, v),
            Operand8::LitU8 => {},
            Operand8::Mem(m) => {
                let adr = get_adr(self, m);
                self.tick();
                self.write_word(adr, v);
            },
        }
    }

    fn read_stack(&mut self) -> (r: u16)
        requires
            old(self).wf(),
        ensures
            final(self).wf(),
            (final(self)@, r) == old(self)@.read_stack(),
    {
        reveal(CpuView::read_stack);
        let adr = self.regs.sp;
        self.tick();
        self.tick();
        self.read_dw(adr)
    }

    pub fn push_u16(&mut self, v: u16)
        requires
            old(self).wf(),
        ensures
            final(self).wf(),
            final(self)@ == old(self)@.push16(v),
    {
        reveal(CpuView::push16);
        self.regs.sp = self.regs.sp.wrapping_add(0xFFFE);
        self.tick();
        let adr = self.regs.sp;
        self.tick();
        self.tick();
        self.write_dw(adr, v);
    }

    pub fn ld(&mut self, target: Operand8, source: Operand8)
        requires
            old(self).wf(),
            writable(target),
        ensures
            final(self).wf(),
            final(self)@ == old(self)@.ld(target, source),
    {
        reveal(CpuView::ld);
        let v = self.read8(source);
        self.write8(target, v);
    }

    #[verifier::rlimit(40)]
    pub fn ldi(&mut self, target: Operand8, source: Operand8)
        requires
            old(self).wf(),
            writable(target),
        ensures
            final(self).wf(),
            final(self)@ == old(self)@.ldi(target, source),
    {
        reveal(CpuView::ldi);
        self.ld(target, source);
        let hl = self.regs.get_reg_hl();
        self.regs.set_reg_hl(hl.wrapping_add(1));
    }

    #[verifier::rlimit(40)]
    pub fn ldd(&mut self, target: Operand8, source: Operand8)
        requires
            old(self).wf(),
            writable(target),
        ensures
            final(self).wf(),
            final(self)@ == old(self)@.ldd(target, source),
    {
        reveal(CpuView::ldd);
        self.ld(target, source);
        let hl = self.regs.get_reg_hl();
        self.regs.set_reg_hl(hl.wrapping_add(0xFFFF));
    }

    fn ld_rr_u16(&mut self, rr: R16)
        requires
            old(self).wf(),
        ensures
            final(self).wf(),
            final(self)@ == old(self)@.ld_rr_u16(rr),
    {
        reveal(CpuView::ld_rr_u16);
        let lo = self.next_word();
        let hi = self.next_word();
        self.regs.write_r16(rr, (hi as u16) * 256 + lo as u16);
    }

    fn ld_u16_sp(&mut self)
        requires
            old(self).wf(),
        ensures
            final(self).wf(),
            final(self)@ == old(self)@.ld_u16_sp(),
    {
        reveal(CpuView::ld_u16_sp);
        let v = self.regs.sp;
        let adr = self.next_dw();
        self.tick();
        self.tick();
        self.write_dw(adr, v);
    }

    fn ld_sp_hl(&mut self)
        requires
            old(self).wf(),
        ensures
            final(self).wf(),
            final(self)@ == old(self)@.ld_sp_hl(),
    {
        reveal(CpuView::ld_sp_hl);
        let v = self.regs.get_reg_hl();
        self.tick();
        self.regs.sp = v;
    }

    /// SP plus the signed immediate, with the half and full carries of the low byte.
    #[verifier::rlimit(40)]
    fn sp_offset(&mut self) -> (r: (u16, bool, bool))
        requires
            old(self).wf(),
        ensures
            final(self).wf(),
            (final(self)@, r.0, r.1, r.2) == old(self)@.sp_offset(),
    {
        let n = self.next_word();
        let e: u16 = if n < 128 {
            n as u16
        } else {
            n as u16 + 0xFF00
        };
        let sp = self.regs.sp;
        let h = sp % 16 + e % 16 > 15;
        let c = sp % 256 + e % 256 > 255;
        (sp.wrapping_add(e), h, c)
    }

    fn ld_hl_sp_i8(&mut self)
        requires
            old(self).wf(),
        ensures
            final(self).wf(),
            final(self)@ == old(self)@.ld_hl_sp_i8(),
    {
        reveal(CpuView::ld_hl_sp_i8);
        let (v, h, c) = self.sp_offset();
        self.regs.set_reg_hl(v);
        self.regs.z_flag = false;
        self.regs.n_flag = false;
        self.regs.h_flag = h;
        self.regs.c_flag = c;
        self.tick();
    }

    fn add_sp(&mut self)
        requires
            old(self).wf(),
        ensures
            final(self).wf(),
            final(self)@ == old(self)@.add_sp(),
    {
        reveal(CpuView::add_sp);
        let (v, h, c) = self.sp_offset();
        self.regs.sp = v;
        self.regs.z_flag = false;
        self.regs.n_flag = false;
        self.regs.h_flag = h;
        self.regs.c_flag = c;
        self.tick();
        self.tick();
    }

    fn inc_u8(&mut self, target: Operand8)
        requires
            old(self).wf(),
            writable(target),
        ensures
            final(self).wf(),
            final(self)@ == old(self)@.inc_u8(target),
    {
        reveal(CpuView::inc_u8);
        let v = self.read8(target);
        self.regs.z_flag = v == 255;
        self.regs.n_flag = false;
        self.regs.h_flag = v % 16 == 15;
        self.write8(target, v.wrapping_add(1));
    }

    fn dec_u8(&mut self, target: Operand8)
        requires
            old(self).wf(),
            writable(target),
        ensures
            final(self).wf(),
            final(self)@ == old(self)@.dec_u8(target),
    {
        reveal(CpuView::dec_u8);
        let v = self.read8(target);
        self.regs.z_flag = v == 1;
        self.regs.n_flag = true;
        self.regs.h_flag = v % 16 == 0;
        self.write8(target, v.wrapping_sub(1));
    }

    #[verifier::rlimit(40)]
    fn inc_u16(&mut self, rr: R16)
        requires
            old(self).wf(),
        ensures
            final(self).wf(),
            final(self)@ == old(self)@.inc_u16(rr),
    {
        reveal(CpuView::inc_u16);
        let v = self.regs.read_r16(rr);
        self.tick();
        self.regs.write_r16(rr, v.wrapping_add(1));
    }

    #[verifier::rlimit(40)]
    fn dec_u16(&mut self, rr: R16)
        requires
            old(self).wf(),
        ensures
            final(self).wf(),
            final(self)@ == old(self)@.dec_u16(rr),
    {
        reveal(CpuView::dec_u16);
        let v = self.regs.read_r16(rr);
        self.tick();
        self.regs.write_r16(rr, v.wrapping_sub(1));
    }

    #[verifier::rlimit(40)]
    fn add_hl_rr(&mut self, rr: R16)
        requires
            old(self).wf(),
        ensures
            final(self).wf(),
            final(self)@ == old(self)@.add_hl_rr(rr),
    {
        reveal(CpuView::add_hl_rr);
        let v = self.regs.read_r16(rr);
        let hl = self.regs.get_reg_hl();
        let mut regs = self.regs;
        regs.n_flag = false;
        regs.h_flag = hl % 4096 + v % 4096 > 4095;
        regs.c_flag = hl as u32 + v as u32 > 65535;
        regs.set_reg_hl(((hl as u32 + v as u32) % 65536) as u16);
        self.regs = regs;
        self.tick();
    }
}


/// A difference of bytes wraps as the difference plus 256 does.
proof fn lemma_wrap8_below(x: int)
    requires
        -256 <= x < 256,
    ensures
        wrap8(x) == ((x + 256) % 256) as u8,
{
    if x >= 0 {
        lemma_fundamental_div_mod_converse(x, 256, 0, x);
        lemma_fundamental_div_mod_converse(x + 256, 256, 1, x);
    } else {
        lemma_fundamental_div_mod_converse(x, 256, -1, x + 256);
        lemma_fundamental_div_mod_converse(x + 256, 256, 0, x + 256);
    }
}

/// The register file after an accumulator operation.
pub fn alu_result(op: AluOp, r: Registers, v: u8) -> (res: Registers)
    ensures
        res == alu(op, r, v),
{
    match op {
        AluOp::Add => alu_add(r, v),
        AluOp::Adc => alu_adc(r, v),
        AluOp::Sub => alu_sub(r, v),
        AluOp::Sbc => alu_sbc(r, v),
        AluOp::And => alu_and(r, v),
        AluOp::Xor => alu_xor(r, v),
        AluOp::Or => alu_or(r, v),
        AluOp::Cp => alu_cp(r, v),
    }
}

fn alu_add(r: Registers, v: u8) -> (res: Registers)
    ensures
        res == alu(AluOp::Add, r, v),
{
    let a = r.a;
    let sum = a as u16 + v as u16;
    let x = (sum % 256) as u8;
    Registers {
        a: x,
        z_flag: x == 0,
        n_flag: false,
        h_flag: a % 16 + v % 16 > 15,
        c_flag: sum > 255,
        ..r
    }
}

fn alu_adc(r: Registers, v: u8) -> (res: Registers)
    ensures
        res == alu(AluOp::Adc, r, v),
{
    let a = r.a;
    let cin: u16 = if r.c_flag {
        1
    } else {
        0
    };
    let sum = a as u16 + v as u16 + cin;
    let x = (sum % 256) as u8;
    Registers {
        a: x,
        z_flag: x == 0,
        n_flag: false,
        h_flag: (a % 16) as u16 + (v % 16) as u16 + cin > 15,
        c_flag: sum > 255,
        ..r
    }
}

fn alu_sub(r: Registers, v: u8) -> (res: Registers)
    ensures
        res == alu(AluOp::Sub, r, v),
{
    let a = r.a;
    proof {
        lemma_wrap8_below(a - v);
    }
    let x = ((a as u16 + 256 - v as u16) % 256) as u8;
    Registers {
        a: x,
        z_flag: x == 0,
        n_flag: true,
        h_flag: a % 16 < v % 16,
        c_flag: a < v,
        ..r
    }
}

fn alu_sbc(r: Registers, v: u8) -> (res: Registers)
    ensures
        res == alu(AluOp::Sbc, r, v),
{
    let a = r.a;
    let cin: u16 = if r.c_flag {
        1
    } else {
        0
    };
    let x = ((a as u16 + 256 - v as u16 - cin) % 256) as u8;
    proof {
        lemma_wrap8_below(a - v - cin);
    }
    Registers {
        a: x,
        z_flag: x == 0,
        n_flag: true,
        h_flag: ((a % 16) as u16) < (v % 16) as u16 + cin,
        c_flag: (a as u16) < v as u16 + cin,
        ..r
    }
}

fn alu_and(r: Registers, v: u8) -> (res: Registers)
    ensures
        res == alu(AluOp::And, r, v),
{
    let a = r.a;
    let x = a & v;
    Registers { a: x, z_flag: x == 0, n_flag: false, h_flag: true, c_flag: false, ..r }
}

fn alu_xor(r: Registers, v: u8) -> (res: Registers)
    ensures
        res == alu(AluOp::Xor, r, v),
{
    let a = r.a;
    let x = a ^ v;
    Registers { a: x, z_flag: x == 0, n_flag: false, h_flag: false, c_flag: false, ..r }
}

fn alu_or(r: Registers, v: u8) -> (res: Registers)
    ensures
        res == alu(AluOp::Or, r, v),
{
    let a = r.a;
    let x = a | v;
    Registers { a: x, z_flag: x == 0, n_flag: false, h_flag: false, c_flag: false, ..r }
}

fn alu_cp(r: Registers, v: u8) -> (res: Registers)
    ensures
        res == alu(AluOp::Cp, r, v),
{
    let a = r.a;
    proof {
        lemma_wrap8_below(a - v);
    }
    let x = ((a as u16 + 256 - v as u16) % 256) as u8;
    Registers { z_flag: x == 0, n_flag: true, h_flag: a % 16 < v % 16, c_flag: a < v, ..r }
}

/// The result and carry out of a rotate or shift.
pub fn shift_result(op: ShiftOp, v: u8, cin: bool) -> (r: (u8, bool))
    ensures
        r == shifted(op, v, cin),
{
    let c: u16 = if cin {
        1
    } else {
        0
    };
    let w = v as u16;
    match op {
        ShiftOp::Rlc => (((w * 2 + w / 128) % 256) as u8, v >= 128),
        ShiftOp::Rrc => ((w / 2 + (w % 2) * 128) as u8, v % 2 == 1),
        ShiftOp::Rl => (((w * 2 + c) % 256) as u8, v >= 128),
        ShiftOp::Rr => ((w / 2 + c * 128) as u8, v % 2 == 1),
        ShiftOp::Sla => (((w * 2) % 256) as u8, v >= 128),
        ShiftOp::Sra => ((w / 2 + (w / 128) * 128) as u8, v % 2 == 1),
        ShiftOp::Swap => ((w / 16 + (w % 16) * 16) as u8, false),
        ShiftOp::Srl => ((w / 2) as u8, v % 2 == 1),
    }
}

/// The accumulator after decimal adjustment, and the carry.
#[verifier::rlimit(100)]
fn daa_value(r: Registers) -> (res: (u8, bool))
    ensures
        res == daa_result(r),
{
    let mut a = r.a;
    let mut c = r.c_flag;
    if r.n_flag {
        if r.c_flag {
            a = ((a as u16 + 256 - 0x60) % 256) as u8;
        }
        if r.h_flag {
            a = ((a as u16 + 256 - 6) % 256) as u8;
        }
    } else {
        if r.c_flag || a > 0x99 {
            a = ((a as u16 + 0x60) % 256) as u8;
            c = true;
        }
        if r.h_flag || a % 16 > 9 {
            a = ((a as u16 + 6) % 256) as u8;
        }
    }
    (a, c)
}

/// The single-bit mask for bit `n`.
fn bit_mask(n: u8) -> (r: u8)
    ensures
        r == pow2_8(n),
{
    if n == 0 {
        1
    } else if n == 1 {
        2
    } else if n == 2 {
        4
    } else if n == 3 {
        8
    } else if n == 4 {
        16
    } else if n == 5 {
        32
    } else if n == 6 {
        64
    } else {
        128
    }
}

impl CPU {
    fn alu(&mut self, op: AluOp, source: Operand8)
        requires
            old(self).wf(),
        ensures
            final(self).wf(),
            final(self)@ == old(self)@.alu(op, source),
    {
        reveal(CpuView::alu);
        let v = self.read8(source);
        self.regs = alu_result(op, self.regs, v);
    }

    fn rotate_a(&mut self, op: ShiftOp)
        requires
            old(self).wf(),
        ensures
            final(self).wf(),
            final(self)@ == old(self)@.rotate_a(op),
    {
        reveal(CpuView::rotate_a);
        let (x, c) = shift_result(op, self.regs.a, self.regs.c_flag);
        self.regs = Registers { a: x, z_flag: false, n_flag: false, h_flag: false, c_flag: c, ..self.regs };
    }

    fn shift(&mut self, op: ShiftOp, target: Operand8)
        requires
            old(self).wf(),
            writable(target),
        ensures
            final(self).wf(),
            final(self)@ == old(self)@.shift(op, target),
    {
        reveal(CpuView::shift);
        let v = self.read8(target);
        let (x, c) = shift_result(op, v, self.regs.c_flag);
        self.write8(target, x);
        self.regs = Registers { z_flag: x == 0, n_flag: false, h_flag: false, c_flag: c, ..self.regs };
    }

    fn bit(&mut self, n: u8, source: Operand8)
        requires
            old(self).wf(),
        ensures
            final(self).wf(),
            final(self)@ == old(self)@.bit(n, source),
    {
        reveal(CpuView::bit);
        let v = self.read8(source);
        let m = bit_mask(n);
        self.regs = Registers { z_flag: (v / m) % 2 == 0, n_flag: false, h_flag: true, ..self.regs };
    }

    fn res(&mut self, n: u8, target: Operand8)
        requires
            old(self).wf(),
            writable(target),
        ensures
            final(self).wf(),
            final(self)@ == old(self)@.res(n, target),
    {
        reveal(CpuView::res);
        let v = self.read8(target);
        let m = bit_mask(n);
        let x = if (v / m) % 2 == 1 {
            assert(v >= m) by (nonlinear_arith)
                requires
                    (v / m) % 2 == 1,
                    m == pow2_8(n),
            {
            }
            v - m
        } else {
            v
        };
        self.write8(target, x);
    }

    fn set(&mut self, n: u8, target: Operand8)
        requires
            old(self).wf(),
            writable(target),
        ensures
            final(self).wf(),
            final(self)@ == old(self)@.set(n, target),
    {
        reveal(CpuView::set);
        let v = self.read8(target);
        let m = bit_mask(n);
        let x = if (v / m) % 2 == 1 {
            v
        } else {
            assert(v as int + m as int <= 255) by (nonlinear_arith)
                requires
                    (v / m) % 2 == 0,
                    m == pow2_8(n),
            {
            }
            v + m
        };
        self.write8(target, x);
    }

    #[verifier::rlimit(40)]
    fn jr(&mut self, cond: Cond)
        requires
            old(self).wf(),
        ensures
            final(self).wf(),
            final(self)@ == old(self)@.jr(cond),
    {
        reveal(CpuView::jr);
        let n = self.next_word();
        if cond.is_true(self) {
            self.tick();
            let e: u16 = if n < 128 {
                n as u16
            } else {
                n as u16 + 0xFF00
            };
            self.regs.pc = self.regs.pc.wrapping_add(e);
        }
    }

    fn jp_u16(&mut self, cond: Cond)
        requires
            old(self).wf(),
        ensures
            final(self).wf(),
            final(self)@ == old(self)@.jp_u16(cond),
    {
        reveal(CpuView::jp_u16);
        let adr = self.next_dw();
        if cond.is_true(self) {
            self.tick();
            self.regs.pc = adr;
        }
    }

    fn jp_hl(&mut self)
        requires
            old(self).wf(),
        ensures
            final(self).wf(),
            final(self)@ == old(self)@.jp_hl(),
    {
        reveal(CpuView::jp_hl);
        self.regs.pc = self.regs.get_reg_hl();
    }

    fn ret(&mut self, cond: Cond)
        requires
            old(self).wf(),
        ensures
            final(self).wf(),
            final(self)@ == old(self)@.ret(cond),
    {
        reveal(CpuView::ret);
        self.tick();
        if cond.is_true(self) {
            if cond != Cond::NoCond {
                self.tick();
            }
            let v = self.read_stack();
            self.regs.pc = v;
            self.regs.sp = self.regs.sp.wrapping_add(2);
        }
    }

    fn reti(&mut self)
        requires
            old(self).wf(),
        ensures
            final(self).wf(),
            final(self)@ == old(self)@.reti(),
    {
        reveal(CpuView::reti);
        self.ret(Cond::NoCond);
        self.ime = true;
    }

    fn call(&mut self, cond: Cond)
        requires
            old(self).wf(),
        ensures
            final(self).wf(),
            final(self)@ == old(self)@.call(cond),
    {
        reveal(CpuView::call);
        let adr = self.next_dw();
        if cond.is_true(self) {
            self.push_u16(self.regs.pc);
            self.regs.pc = adr;
        }
    }

    fn rst(&mut self, adr: u8)
        requires
            old(self).wf(),
        ensures
            final(self).wf(),
            final(self)@ == old(self)@.rst(adr),
    {
        reveal(CpuView::rst);
        self.push_u16(self.regs.pc);
        self.regs.pc = adr as u16;
    }

    fn push(&mut self, rr: R16)
        requires
            old(self).wf(),
        ensures
            final(self).wf(),
            final(self)@ == old(self)@.push(rr),
    {
        reveal(CpuView::push);
        let v = self.regs.read_r16(rr);
        self.push_u16(v);
    }

    fn pop(&mut self, rr: R16)
        requires
            old(self).wf(),
        ensures
            final(self).wf(),
            final(self)@ == old(self)@.pop(rr),
    {
        reveal(CpuView::pop);
        let v = self.read_stack();
        self.regs.write_r16(rr, v);
        self.regs.sp = self.regs.sp.wrapping_add(2);
    }

    fn daa(&mut self)
        requires
            old(self).wf(),
        ensures
            final(self).wf(),
            final(self)@ == old(self)@.daa(),
    {
        reveal(CpuView::daa);
        let (a, c) = daa_value(self.regs);
        self.regs = Registers { a, z_flag: a == 0, h_flag: false, c_flag: c, ..self.regs };
    }

    fn cpl(&mut self)
        requires
            old(self).wf(),
        ensures
            final(self).wf(),
            final(self)@ == old(self)@.cpl(),
    {
        reveal(CpuView::cpl);
        self.regs = Registers { a: self.regs.a ^ 0xFF, n_flag: true, h_flag: true, ..self.regs };
    }

    fn scf(&mut self)
        requires
            old(self).wf(),
        ensures
            final(self).wf(),
            final(self)@ == old(self)@.scf(),
    {
        reveal(CpuView::scf);
        self.regs = Registers { n_flag: false, h_flag: false, c_flag: true, ..self.regs };
    }

    fn ccf(&mut self)
        requires
            old(self).wf(),
        ensures
            final(self).wf(),
            final(self)@ == old(self)@.ccf(),
    {
        reveal(CpuView::ccf);
        self.regs = Registers { n_flag: false, h_flag: false, c_flag: !self.regs.c_flag, ..self.regs };
    }

    fn halt(&mut self)
        requires
            old(self).wf(),
        ensures
            final(self).wf(),
            final(self)@ == old(self)@.halt(),
    {
        reveal(CpuView::halt);
        if self.mmu.get_interrupts() == 0 {
            self.is_halted = true;
            self.regs.pc = self.regs.pc.wrapping_add(0xFFFF);
        } else {
            self.is_halted = false;
        }
    }

    fn ei(&mut self)
        ensures
            final(self)@ == (CpuView { ime: true, ..old(self)@ }),
    {
        self.ime = true;
    }

    fn di(&mut self)
        ensures
            final(self)@ == (CpuView { ime: false, ..old(self)@ }),
    {
        self.ime = false;
    }
}


impl CpuView {
    /// Opcodes 0x00..0x3F by their fields: `y` is bits 5..3, `z` bits 2..0.
    pub open spec fn step_block0(self, y: u8, z: u8) -> CpuView {
        let a = Operand8::Reg(R8::A);
        if z == 0 {
            if y == 0 {
                self
            } else if y == 1 {
                self.ld_u16_sp()
            } else if y == 3 {
                self.jr(Cond::NoCond)
            } else {
                self.jr(cond_of((y - 4) as u8))
            }
        } else if z == 1 {
            if y % 2 == 0 {
                self.ld_rr_u16(pair_sp(y / 2))
            } else {
                self.add_hl_rr(pair_sp(y / 2))
            }
        } else if z == 2 {
            let mem = Operand8::Mem(
                Mem::R16(
                    if y < 2 {
                        R16::BC
                    } else if y < 4 {
                        R16::DE
                    } else {
                        R16::HL
                    },
                ),
            );
            if y < 4 {
                if y % 2 == 0 {
                    self.ld(mem, a)
                } else {
                    self.ld(a, mem)
                }
            } else if y == 4 {
                self.ldi(mem, a)
            } else if y == 5 {
                self.ldi(a, mem)
            } else if y == 6 {
                self.ldd(mem, a)
            } else {
                self.ldd(a, mem)
            }
        } else if z == 3 {
            if y % 2 == 0 {
                self.inc_u16(pair_sp(y / 2))
            } else {
                self.dec_u16(pair_sp(y / 2))
            }
        } else if z == 4 {
            self.inc_u8(reg_operand(y))
        } else if z == 5 {
            self.dec_u8(reg_operand(y))
        } else if z == 6 {
            self.ld(reg_operand(y), Operand8::LitU8)
        } else if y < 4 {
            self.rotate_a(shift_of(y))
        } else if y == 4 {
            self.daa()
        } else if y == 5 {
            self.cpl()
        } else if y == 6 {
            self.scf()
        } else {
            self.ccf()
        }
    }

    /// Opcodes 0xC0..0xFF by their fields.
    pub open spec fn step_block3(self, y: u8, z: u8) -> CpuView {
        let a = Operand8::Reg(R8::A);
        if z == 0 {
            if y < 4 {
                self.ret(cond_of(y))
            } else if y == 4 {
                self.ld(Operand8::Mem(Mem::FF00U8), a)
            } else if y == 5 {
                self.add_sp()
            } else if y == 6 {
                self.ld(a, Operand8::Mem(Mem::FF00U8))
            } else {
                self.ld_hl_sp_i8()
            }
        } else if z == 1 {
            if y % 2 == 0 {
                self.pop(pair_af(y / 2))
            } else if y == 1 {
                self.ret(Cond::NoCond)
            } else if y == 3 {
                self.reti()
            } else if y == 5 {
                self.jp_hl()
            } else {
                self.ld_sp_hl()
            }
        } else if z == 2 {
            if y < 4 {
                self.jp_u16(cond_of(y))
            } else if y == 4 {
                self.ld(Operand8::Mem(Mem::FF00C), a)
            } else if y == 5 {
                self.ld(Operand8::Mem(Mem::LitU16), a)
            } else if y == 6 {
                self.ld(a, Operand8::Mem(Mem::FF00C))
            } else {
                self.ld(a, Operand8::Mem(Mem::LitU16))
            }
        } else if z == 3 {
            if y == 0 {
                self.jp_u16(Cond::NoCond)
            } else if y == 6 {
                CpuView { ime: false, ..self }
            } else {
                CpuView { ime: true, ..self }
            }
        } else if z == 4 {
            self.call(cond_of(y))
        } else if z == 5 {
            if y % 2 == 0 {
                self.push(pair_af(y / 2))
            } else {
                self.call(Cond::NoCond)
            }
        } else if z == 6 {
            self.alu(alu_of(y), Operand8::LitU8)
        } else {
            self.rst((y * 8) as u8)
        }
    }

    /// The prefixed instruction with second byte `op`.
    pub open spec fn step_cb(self, op: u8) -> CpuView {
        let y = ((op / 8) % 8) as u8;
        let t = reg_operand(op % 8);
        if op < 0x40 {
            self.shift(shift_of(y), t)
        } else if op < 0x80 {
            self.bit(y, t)
        } else if op < 0xC0 {
            self.res(y, t)
        } else {
            self.set(y, t)
        }
    }

    /// The machine after the instruction with opcode `op`, fetched already,
    /// runs; for 0xCB the second byte is fetched here. Defined for every
    /// opcode but STOP and the eleven unassigned ones.
    pub open spec fn step(self, op: u8) -> CpuView {
        let y = ((op / 8) % 8) as u8;
        let z = op % 8;
        if op < 0x40 {
            self.step_block0(y, z)
        } else if op < 0x80 {
            if op == 0x76 {
                self.halt()
            } else {
                self.ld(reg_operand(y), reg_operand(z))
            }
        } else if op < 0xC0 {
            self.alu(alu_of(y), reg_operand(z))
        } else if op == 0xCB {
            let (s, cb) = self.fetch8();
            s.step_cb(cb)
        } else {
            self.step_block3(y, z)
        }
    }
}

impl CPU {
    /// Runs the instruction with the opcode just fetched.
    pub fn execute(&mut self, opcode: u8) -> (r: Result<(), CpuError>)
        requires
            old(self).wf(),
        ensures
            final(self).wf(),
            (final(self)@, r) == old(self)@.run(opcode),
    {
        if opcode == 0xD3 || opcode == 0xDB || opcode == 0xDD || opcode == 0xE3 || opcode == 0xE4
            || opcode == 0xEB || opcode == 0xEC || opcode == 0xED || opcode == 0xF4 || opcode
            == 0xFC || opcode == 0xFD {
            return Err(CpuError::IllegalOpcode(opcode));
        }
        if opcode == 0x10 {
            return Err(CpuError::UnsupportedOpcode(opcode));
        }
        let y = ((opcode / 8) % 8) as u8;
        let z = opcode % 8;
        if opcode < 0x40 {
            self.execute_block0(y, z);
        } else if opcode < 0x80 {
            if opcode == 0x76 {
                self.halt();
            } else {
                self.ld(reg_operand_of(y), reg_operand_of(z));
            }
        } else if opcode < 0xC0 {
            self.alu(alu_of_exec(y), reg_operand_of(z));
        } else if opcode == 0xCB {
            let cb = self.next_word();
            self.execute_cb(cb);
        } else {
            self.execute_block3(y, z);
        }
        Ok(())
    }

    /// Runs the prefixed instruction with second byte `opcode`.
    pub fn execute_cb(&mut self, opcode: u8)
        requires
            old(self).wf(),
        ensures
            final(self).wf(),
            final(self)@ == old(self)@.step_cb(opcode),
    {
        let y = ((opcode / 8) % 8) as u8;
        let t = reg_operand_of(opcode % 8);
        if opcode < 0x40 {
            self.shift(shift_of_exec(y), t);
        } else if opcode < 0x80 {
            self.bit(y, t);
        } else if opcode < 0xC0 {
            self.res(y, t);
        } else {
            self.set(y, t);
        }
    }

    /// Opcodes 0x00..0x3F, decoded by their fields.
    fn execute_block0(&mut self, y: u8, z: u8)
        requires
            old(self).wf(),
            y < 8,
            z < 8,
            !(y == 2 && z == 0),
        ensures
            final(self).wf(),
            final(self)@ == old(self)@.step_block0(y, z),
    {
        let a = Operand8::Reg(R8::A);
        if z == 0 {
            if y == 0 {
            } else if y == 1 {
                self.ld_u16_sp();
            } else if y == 3 {
                self.jr(Cond::NoCond);
            } else {
                self.jr(cond_at(y - 4));
            }
        } else if z == 1 {
            if y % 2 == 0 {
                self.ld_rr_u16(pair_sp_of(y / 2));
            } else {
                self.add_hl_rr(pair_sp_of(y / 2));
            }
        } else if z == 2 {
            let mem = Operand8::Mem(
                Mem::R16(
                    if y < 2 {
                        R16::BC
                    } else if y < 4 {
                        R16::DE
                    } else {
                        R16::HL
                    },
                ),
            );
            if y < 4 {
                if y % 2 == 0 {
                    self.ld(mem, a);
                } else {
                    self.ld(a, mem);
                }
            } else if y == 4 {
                self.ldi(mem, a);
            } else if y == 5 {
                self.ldi(a, mem);
            } else if y == 6 {
                self.ldd(mem, a);
            } else {
                self.ldd(a, mem);
            }
        } else if z == 3 {
            if y % 2 == 0 {
                self.inc_u16(pair_sp_of(y / 2));
            } else {
                self.dec_u16(pair_sp_of(y / 2));
            }
        } else if z == 4 {
            self.inc_u8(reg_operand_of(y));
        } else if z == 5 {
            self.dec_u8(reg_operand_of(y));
        } else if z == 6 {
            self.ld(reg_operand_of(y), Operand8::LitU8);
        } else if y < 4 {
            self.rotate_a(shift_of_exec(y));
        } else if y == 4 {
            self.daa();
        } else if y == 5 {
            self.cpl();
        } else if y == 6 {
            self.scf();
        } else {
            self.ccf();
        }
    }

    /// Opcodes 0xC0..0xFF, decoded by their fields.
    fn execute_block3(&mut self, y: u8, z: u8)
        requires
            old(self).wf(),
            y < 8,
            z < 8,
        ensures
            final(self).wf(),
            final(self)@ == old(self)@.step_block3(y, z),
    {
        let a = Operand8::Reg(R8::A);
        if z == 0 {
            if y < 4 {
                self.ret(cond_at(y));
            } else if y == 4 {
                self.ld(Operand8::Mem(Mem::FF00U8), a);
            } else if y == 5 {
                self.add_sp();
            } else if y == 6 {
                self.ld(a, Operand8::Mem(Mem::FF00U8));
            } else {
                self.ld_hl_sp_i8();
            }
        } else if z == 1 {
            if y % 2 == 0 {
                self.pop(pair_af_of(y / 2));
            } else if y == 1 {
                self.ret(Cond::NoCond);
            } else if y == 3 {
                self.reti();
            } else if y == 5 {
                self.jp_hl();
            } else {
                self.ld_sp_hl();
            }
        } else if z == 2 {
            if y < 4 {
                self.jp_u16(cond_at(y));
            } else if y == 4 {
                self.ld(Operand8::Mem(Mem::FF00C), a);
            } else if y == 5 {
                self.ld(Operand8::Mem(Mem::LitU16), a);
            } else if y == 6 {
                self.ld(a, Operand8::Mem(Mem::FF00C));
            } else {
                self.ld(a, Operand8::Mem(Mem::LitU16));
            }
        } else if z == 3 {
            if y == 0 {
                self.jp_u16(Cond::NoCond);
            } else if y == 6 {
                self.di();
            } else {
                self.ei();
            }
        } else if z == 4 {
            self.call(cond_at(y));
        } else if z == 5 {
            if y % 2 == 0 {
                self.push(pair_af_of(y / 2));
            } else {
                self.call(Cond::NoCond);
            }
        } else if z == 6 {
            self.alu(alu_of_exec(y), Operand8::LitU8);
        } else {
            self.rst(y * 8);
        }
    }
}

pub fn reg_operand_of(i: u8) -> (r: Operand8)
    ensures
        r == reg_operand(i),
{
    if i == 0 {
        Operand8::Reg(R8::B)
    } else if i == 1 {
        Operand8::Reg(R8::C)
    } else if i == 2 {
        Operand8::Reg(R8::D)
    } else if i == 3 {
        Operand8::Reg(R8::E)
    } else if i == 4 {
        Operand8::Reg(R8::H)
    } else if i == 5 {
        Operand8::Reg(R8::L)
    } else if i == 6 {
        Operand8::Mem(Mem::R16(R16::HL))
    } else {
        Operand8::Reg(R8::A)
    }
}

fn pair_sp_of(p: u8) -> (r: R16)
    ensures
        r == pair_sp(p),
{
    if p == 0 {
        R16::BC
    } else if p == 1 {
        R16::DE
    } else if p == 2 {
        R16::HL
    } else {
        R16::SP
    }
}

fn pair_af_of(p: u8) -> (r: R16)
    ensures
        r == pair_af(p),
{
    if p == 3 {
        R16::AF
    } else {
        pair_sp_of(p)
    }
}

fn cond_at(c: u8) -> (r: Cond)
    ensures
        r == cond_of(c),
{
    if c == 0 {
        Cond::NZ
    } else if c == 1 {
        Cond::Z
    } else if c == 2 {
        Cond::NC
    } else {
        Cond::C
    }
}

fn alu_of_exec(y: u8) -> (r: AluOp)
    ensures
        r == alu_of(y),
{
    if y == 0 {
        AluOp::Add
    } else if y == 1 {
        AluOp::Adc
    } else if y == 2 {
        AluOp::Sub
    } else if y == 3 {
        AluOp::Sbc
    } else if y == 4 {
        AluOp::And
    } else if y == 5 {
        AluOp::Xor
    } else if y == 6 {
        AluOp::Or
    } else {
        AluOp::Cp
    }
}

fn shift_of_exec(y: u8) -> (r: ShiftOp)
    ensures
        r == shift_of(y),
{
    if y == 0 {
        ShiftOp::Rlc
    } else if y == 1 {
        ShiftOp::Rrc
    } else if y == 2 {
        ShiftOp::Rl
    } else if y == 3 {
        ShiftOp::Rr
    } else if y == 4 {
        ShiftOp::Sla
    } else if y == 5 {
        ShiftOp::Sra
    } else if y == 6 {
        ShiftOp::Swap
    } else {
        ShiftOp::Srl
    }
}


/// The register writes of the power-on sequence, in order.
pub open spec fn reset_io(m: MmuView) -> MmuView {
    m.written(0xFF05, 0).written(0xFF06, 0).written(0xFF07, 0).written(0xFF10, 0x80).written(
        0xFF11,
        0xBF,
    ).written(0xFF12, 0xF3).written(0xFF14, 0xBF).written(0xFF16, 0x3F).written(
        0xFF17,
        0,
    ).written(0xFF19, 0xBF).written(0xFF1A, 0x7F).written(0xFF1B, 0xFF).written(
        0xFF1C,
        0x9F,
    ).written(0xFF1E, 0xBF).written(0xFF20, 0xFF).written(0xFF21, 0).written(
        0xFF22,
        0,
    ).written(0xFF23, 0xBF).written(0xFF24, 0x77).written(0xFF25, 0xF3).written(
        0xFF26,
        0xF1,
    ).written(0xFF40, 0x91).written(0xFF42, 0).written(0xFF43, 0).written(0xFF45, 0).written(
        0xFF47,
        0xFC,
    ).written(0xFF48, 0xFF).written(0xFF49, 0xFF).written(0xFF4A, 0).written(
        0xFF4B,
        0,
    ).written(0xFFFF, 0)
}

/// The interrupt vector of each source, highest priority first.
pub open spec fn vector_of(i: Interrupt) -> u16 {
    match i {
        Interrupt::VBLANK => 0x40,
        Interrupt::LCDStat => 0x48,
        Interrupt::TIMER => 0x50,
        Interrupt::SERIAL => 0x58,
        Interrupt::JOYPAD => 0x60,
        Interrupt::NoInterrupt => 0,
    }
}

/// The source that is served among the pending and enabled ones: the
/// lowest-numbered bit, VBlank first.
pub open spec fn highest_priority(pending: u8) -> Interrupt {
    if pending & 1 != 0 {
        Interrupt::VBLANK
    } else if pending & 2 != 0 {
        Interrupt::LCDStat
    } else if pending & 4 != 0 {
        Interrupt::TIMER
    } else if pending & 8 != 0 {
        Interrupt::SERIAL
    } else if pending & 16 != 0 {
        Interrupt::JOYPAD
    } else {
        Interrupt::NoInterrupt
    }
}

impl CpuView {
    /// The outcome of an opcode: its effect, or the error with nothing changed.
    pub open spec fn run(self, op: u8) -> (CpuView, Result<(), CpuError>) {
        if is_illegal(op) {
            (self, Err(CpuError::IllegalOpcode(op)))
        } else if op == 0x10 {
            (self, Err(CpuError::UnsupportedOpcode(op)))
        } else {
            (self.step(op), Ok(()))
        }
    }

    /// Serving an interrupt: its IF bit and IME cleared, two idle machine
    /// cycles, PC pushed, PC at the vector.
    pub open spec fn serve(self, i: Interrupt) -> CpuView {
        let s = CpuView {
            mmu: MmuView { interrupt_flags: self.mmu.interrupt_flags ^ i.mask(), ..self.mmu },
            ime: false,
            ..self
        }.tick().tick();
        s.push16(s.regs.pc).with_pc(vector_of(i))
    }

    /// The interrupt check at the top of an instruction step.
    pub open spec fn dispatch(self) -> CpuView {
        let i = highest_priority(self.mmu.pending());
        if self.ime && i != Interrupt::NoInterrupt {
            self.serve(i)
        } else {
            self
        }
    }

    /// One instruction step: the interrupt check, the opcode fetch, the instruction.
    pub open spec fn cycle(self) -> (CpuView, Result<(), CpuError>) {
        let (s, op) = self.dispatch().fetch8();
        s.run(op)
    }

    /// The machine after the power-on sequence.
    pub open spec fn reset(self) -> CpuView {
        CpuView {
            regs: Registers {
                sp: 0xFFFE,
                pc: 0x0100,
                ..self.regs.with_af(0x01B0).with_bc(0x0013).with_de(0x00D8).with_hl(0x014D)
            },
            mmu: reset_io(self.mmu),
            ..self
        }
    }
}

fn priority_of(pending: u8) -> (r: Interrupt)
    ensures
        r == highest_priority(pending),
{
    if pending & 1 != 0 {
        Interrupt::VBLANK
    } else if pending & 2 != 0 {
        Interrupt::LCDStat
    } else if pending & 4 != 0 {
        Interrupt::TIMER
    } else if pending & 8 != 0 {
        Interrupt::SERIAL
    } else if pending & 16 != 0 {
        Interrupt::JOYPAD
    } else {
        Interrupt::NoInterrupt
    }
}

fn vector(i: Interrupt) -> (r: u16)
    ensures
        r == vector_of(i),
{
    match i {
        Interrupt::VBLANK => 0x40,
        Interrupt::LCDStat => 0x48,
        Interrupt::TIMER => 0x50,
        Interrupt::SERIAL => 0x58,
        Interrupt::JOYPAD => 0x60,
        Interrupt::NoInterrupt => 0,
    }
}

impl CPU {
    /// Serves an interrupt.
    fn interrupt(&mut self, i: Interrupt)
        requires
            old(self).wf(),
        ensures
            final(self).wf(),
            final(self)@ == old(self)@.serve(i),
    {
        self.mmu.interrupt_flags = self.mmu.interrupt_flags ^ i.bits();
        self.ime = false;
        self.tick();
        self.tick();
        self.push_u16(self.regs.pc);
        self.regs.pc = vector(i);
    }

    /// Advances by one instruction, serving a pending interrupt first.
    pub fn cycle(&mut self) -> (r: Result<(), CpuError>)
        requires
            old(self).wf(),
        ensures
            final(self).wf(),
            (final(self)@, r) == old(self)@.cycle(),
    {
        let pending = self.mmu.get_interrupts();
        let i = priority_of(pending);
        if self.ime && i != Interrupt::NoInterrupt {
            self.interrupt(i);
        }
        let opcode = self.next_word();
        self.execute(opcode)
    }

    /// Puts the registers and the I/O registers in their power-on state.
    pub fn reset(&mut self)
        requires
            old(self).wf(),
        ensures
            final(self).wf(),
            final(self)@ == old(self)@.reset(),
    {
        self.regs.set_reg_af(0x01B0);
        self.regs.set_reg_bc(0x0013);
        self.regs.set_reg_de(0x00D8);
        self.regs.set_reg_hl(0x014D);
        self.regs.sp = 0xFFFE;
        self.regs.pc = 0x0100;
        self.mmu.write_word(0xFF05, 0);
        self.mmu.write_word(0xFF06, 0);
        self.mmu.write_word(0xFF07, 0);
        self.mmu.write_word(0xFF10, 0x80);
        self.mmu.write_word(0xFF11, 0xBF);
        self.mmu.write_word(0xFF12, 0xF3);
        self.mmu.write_word(0xFF14, 0xBF);
        self.mmu.write_word(0xFF16, 0x3F);
        self.mmu.write_word(0xFF17, 0);
        self.mmu.write_word(0xFF19, 0xBF);
        self.mmu.write_word(0xFF1A, 0x7F);
        self.mmu.write_word(0xFF1B, 0xFF);
        self.mmu.write_word(0xFF1C, 0x9F);
        self.mmu.write_word(0xFF1E, 0xBF);
        self.mmu.write_word(0xFF20, 0xFF);
        self.mmu.write_word(0xFF21, 0);
        self.mmu.write_word(0xFF22, 0);
        self.mmu.write_word(0xFF23, 0xBF);
        self.mmu.write_word(0xFF24, 0x77);
        self.mmu.write_word(0xFF25, 0xF3);
        self.mmu.write_word(0xFF26, 0xF1);
        self.mmu.write_word(0xFF40, 0x91);
        self.mmu.write_word(0xFF42, 0);
        self.mmu.write_word(0xFF43, 0);
        self.mmu.write_word(0xFF45, 0);
        self.mmu.write_word(0xFF47, 0xFC);
        self.mmu.write_word(0xFF48, 0xFF);
        self.mmu.write_word(0xFF49, 0xFF);
        self.mmu.write_word(0xFF4A, 0);
        self.mmu.write_word(0xFF4B, 0);
        self.mmu.write_word(0xFFFF, 0);
    }
}


/// ADD A, b sets A to the low byte of the sum, Z when that byte is zero, N
/// clear, H on a carry out of the low nibble and C on a carry out of the byte.
pub proof fn lemma_add_flags(r: Registers, b: u8)
    ensures
        alu(AluOp::Add, r, b).a == (((r.a as u16 + b as u16) as u16) & 0xFF) as u8,
        alu(AluOp::Add, r, b).z_flag == (((r.a as u16 + b as u16) as u16) & 0xFF == 0),
        !alu(AluOp::Add, r, b).n_flag,
        alu(AluOp::Add, r, b).h_flag == ((r.a & 0xF) + (b & 0xF) > 0xF),
        alu(AluOp::Add, r, b).c_flag == (r.a as u16 + b as u16 > 0xFF),
{
    let a = r.a;
    assert(((a as u16 + b as u16) as u16) & 0xFF == (a as u16 + b as u16) % 256 && a & 0xF == a % 16 && b
        & 0xF == b % 16) by (bit_vector);
}

/// The packed decimal form of a number below 100.
pub open spec fn to_bcd(n: int) -> u8 {
    ((n / 10) * 16 + n % 10) as u8
}

/// ADD then DAA on bytes held in 32 bits: the raw sum, its low byte, whether
/// the 0x60 correction applies, the byte after it, the half carry, and the
/// final byte.
spec fn bcd_sum(a: u32, b: u32) -> u32 {
    (a + b) as u32
}

spec fn bcd_low_byte(a: u32, b: u32) -> u32 {
    (bcd_sum(a, b) % 256) as u32
}

spec fn bcd_high_fix(a: u32, b: u32) -> bool {
    bcd_sum(a, b) > 255 || bcd_low_byte(a, b) > 0x99
}

spec fn bcd_after_high(a: u32, b: u32) -> u32 {
    if bcd_high_fix(a, b) {
        (((bcd_low_byte(a, b) + 0x60) as u32) % 256) as u32
    } else {
        bcd_low_byte(a, b)
    }
}

spec fn bcd_half(a: u32, b: u32) -> bool {
    (((a % 16) as u32 + (b % 16) as u32) as u32) > 15
}

spec fn bcd_adjusted(a: u32, b: u32) -> u32 {
    if bcd_half(a, b) || bcd_after_high(a, b) % 16 > 9 {
        (((bcd_after_high(a, b) + 6) as u32) % 256) as u32
    } else {
        bcd_after_high(a, b)
    }
}

/// The decimal value of two packed decimal bytes added.
spec fn bcd_total(a: u32, b: u32) -> u32 {
    ((((a / 16) as u32 + (b / 16) as u32) as u32 * 10 + (a % 16) as u32 + (b % 16) as u32) as u32)
}

spec fn packed(t: u32) -> u32 {
    ((((t / 10) as u32) * 16 + (t % 10) as u32) as u32)
}

/// The arithmetic of ADD followed by DAA on two packed decimal bytes.
proof fn lemma_daa_core(a: u32, b: u32)
    requires
        a % 16 <= 9,
        a / 16 <= 9,
        b % 16 <= 9,
        b / 16 <= 9,
    ensures
        bcd_high_fix(a, b) == (bcd_total(a, b) >= 100),
        bcd_adjusted(a, b) == if bcd_total(a, b) >= 100 {
            packed((bcd_total(a, b) - 100) as u32)
        } else {
            packed(bcd_total(a, b))
        },
{
    assert(bcd_high_fix(a, b) == (bcd_total(a, b) >= 100) && bcd_adjusted(a, b) == if bcd_total(
        a,
        b,
    ) >= 100 {
        packed((bcd_total(a, b) - 100) as u32)
    } else {
        packed(bcd_total(a, b))
    }) by (bit_vector)
        requires
            a % 16 <= 9,
            a / 16 <= 9,
            b % 16 <= 9,
            b / 16 <= 9,
    ;
}

/// DAA after ADD of two packed decimal numbers gives their packed decimal
/// sum: below 100 with C clear, otherwise the sum less 100 with C set.
pub proof fn lemma_daa_after_bcd_add(r: Registers, p: int, q: int)
    requires
        0 <= p <= 99,
        0 <= q <= 99,
    ensures
        ({
            let sum = alu(AluOp::Add, Registers { a: to_bcd(p), ..r }, to_bcd(q));
            let (x, c) = daa_result(sum);
            if p + q < 100 {
                x == to_bcd(p + q) && !c
            } else {
                x == to_bcd(p + q - 100) && c
            }
        }),
{
    let a = 16 * (p / 10) + p % 10;
    let b = 16 * (q / 10) + q % 10;
    assert(to_bcd(p) == a);
    assert(to_bcd(q) == b);
    lemma_fundamental_div_mod_converse(a, 16, p / 10, p % 10);
    lemma_fundamental_div_mod_converse(b, 16, q / 10, q % 10);
    assert((a / 16 + b / 16) * 10 + a % 16 + b % 16 == p + q);
    lemma_daa_core(a as u32, b as u32);
}

} // verus!
