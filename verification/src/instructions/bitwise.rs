use vstd::prelude::*;
use crate::alu::{ALU, flags_with, lemma_flags_bits, lemma_flags_decompose, rlc_value, rr_value, rrc_value};
use crate::memory::Memory;
use crate::register::{Register8, bit_of, with_bit, wrap_sub};
use crate::registers::{Reg8, Registers, RegistersView, code_of_reg8};

verus! {

/// The bit number and register of a prefixed opcode in the block of 64
/// starting at `base`, where the bit number is bits 3 to 5 and the register
/// code bits 0 to 2; code 6 (memory at HL) gives `None`.
fn bit_and_reg(opcode: u8, base: u8) -> (r: Option<(u8, Reg8)>)
    requires
        base == 0x40 || base == 0x80 || base == 0xC0,
    ensures
        (r is Some) <==> (base <= opcode && opcode < base + 64 && opcode % 8 != 6),
        r matches Some((bit, reg)) ==> bit < 8 && base + 8 * bit + code_of_reg8(reg) == opcode,
{
    if base <= opcode && opcode <= base + 63 {
        let offset = opcode - base;
        match Reg8::from_code(offset % 8) {
            Some(reg) => Some((offset / 8, reg)),
            None => None,
        }
    } else {
        None
    }
}

/// The register of a prefixed opcode `base + code`, for `base` a multiple of
/// eight; code 6 (memory at HL) gives `None`.
fn reg_of_row(opcode: u8, base: u8) -> (r: Option<Reg8>)
    requires
        base % 8 == 0,
        base <= 0xF8,
    ensures
        (r is Some) <==> (base <= opcode && opcode < base + 8 && opcode != base + 6),
        r matches Some(reg) ==> base + code_of_reg8(reg) == opcode,
{
    if base <= opcode && opcode <= base + 7 {
        Reg8::from_code(opcode - base)
    } else {
        None
    }
}

/// The byte with its two nibbles exchanged.
pub open spec fn swap_value(v: u8) -> u8 {
    (v << 4u8) | (v >> 4u8)
}

/// `RLC r` (prefixed 0x00 to 0x07, register code in the low three bits):
/// rotates r left on the first tick, finishing on the next.
pub struct RlcR {
    pub counter: u8,
    pub reg: Reg8,
}

/// `RRC r` (prefixed 0x08 to 0x0F, register code in the low three bits):
/// rotates r right on the first tick, finishing on the next.
pub struct RrcR {
    pub counter: u8,
    pub reg: Reg8,
}

/// `RR r` (prefixed 0x18 to 0x1F, register code in the low three bits):
/// rotates r right through the carry on the first tick, finishing on the
/// next.
pub struct RrR {
    pub counter: u8,
    pub reg: Reg8,
}

impl RlcR {
    pub open spec fn spec_opcode(&self) -> u8 {
        code_of_reg8(self.reg)
    }

    pub fn from_opcode(opcode: &u8) -> (r: Option<Self>)
        ensures
            (r is Some) <==> (*opcode < 8 && *opcode != 6),
            r matches Some(i) ==> i.spec_opcode() == *opcode && i.counter == 1,
    {
        match reg_of_row(*opcode, 0x00) {
            Some(reg) => Some(RlcR { counter: 1, reg }),
            None => None,
        }
    }

    pub fn get_opcode(&self) -> (r: u8)
        ensures
            r == self.spec_opcode(),
    {
        self.reg.code()
    }

    /// One tick: from this state, registers `r0` and memory `m0`, to state
    /// `next`, registers `r1` and memory `m1`, finishing when `done`.
    pub open spec fn step(
        self,
        next: Self,
        r0: RegistersView,
        r1: RegistersView,
        m0: Seq<u8>,
        m1: Seq<u8>,
        done: bool,
    ) -> bool {
        &&& next.reg == self.reg
        &&& self.counter == 1 ==> !done && next.counter == 0 &&
            ({
                let v = r0.r8(self.reg);
                let result = rlc_value(v);
                r1 == r0.set8(self.reg, result).set_f(flags_with(r0.f, result == 0, false, false, bit_of(v, 7)))
            })
        &&& self.counter == 0 ==> done && next.counter == 0 && r1 == r0
        &&& self.counter > 1 ==> !done && next.counter == self.counter - 1 && r1 == r0
        &&& m1 == m0
    }

    pub fn act(&mut self, registers: &mut Registers) -> (done: bool)
        ensures
            Self::step(*old(self), *final(self), old(registers)@, final(registers)@, Seq::empty(), Seq::empty(), done),
    {
        if self.counter == 1 {
            let mut value = Register8::new(registers.get8(self.reg));
            let mut alu = ALU::new(registers.f);
            alu.rlc(&mut value);
            registers.set8(self.reg, value.get_value());
            registers.f = alu.flags;
        } else if self.counter == 0 {
            return true;
        }
        self.counter = self.counter - 1;
        false
    }
}

impl RrcR {
    pub open spec fn spec_opcode(&self) -> u8 {
        (0x08 + code_of_reg8(self.reg)) as u8
    }

    pub fn from_opcode(opcode: &u8) -> (r: Option<Self>)
        ensures
            (r is Some) <==> (0x08 <= *opcode && *opcode < 0x10 && *opcode != 0x0E),
            r matches Some(i) ==> i.spec_opcode() == *opcode && i.counter == 1,
    {
        match reg_of_row(*opcode, 0x08) {
            Some(reg) => Some(RrcR { counter: 1, reg }),
            None => None,
        }
    }

    pub fn get_opcode(&self) -> (r: u8)
        ensures
            r == self.spec_opcode(),
    {
        0x08 + self.reg.code()
    }

    /// One tick: from this state, registers `r0` and memory `m0`, to state
    /// `next`, registers `r1` and memory `m1`, finishing when `done`.
    pub open spec fn step(
        self,
        next: Self,
        r0: RegistersView,
        r1: RegistersView,
        m0: Seq<u8>,
        m1: Seq<u8>,
        done: bool,
    ) -> bool {
        &&& next.reg == self.reg
        &&& self.counter == 1 ==> !done && next.counter == 0 &&
            ({
                let v = r0.r8(self.reg);
                let result = rrc_value(v);
                r1 == r0.set8(self.reg, result).set_f(flags_with(r0.f, result == 0, false, false, bit_of(v, 0)))
            })
        &&& self.counter == 0 ==> done && next.counter == 0 && r1 == r0
        &&& self.counter > 1 ==> !done && next.counter == self.counter - 1 && r1 == r0
        &&& m1 == m0
    }

    pub fn act(&mut self, registers: &mut Registers) -> (done: bool)
        ensures
            Self::step(*old(self), *final(self), old(registers)@, final(registers)@, Seq::empty(), Seq::empty(), done),
    {
        if self.counter == 1 {
            let mut value = Register8::new(registers.get8(self.reg));
            let mut alu = ALU::new(registers.f);
            alu.rrc(&mut value);
            registers.set8(self.reg, value.get_value());
            registers.f = alu.flags;
        } else if self.counter == 0 {
            return true;
        }
        self.counter = self.counter - 1;
        false
    }
}

impl RrR {
    pub open spec fn spec_opcode(&self) -> u8 {
        (0x18 + code_of_reg8(self.reg)) as u8
    }

    pub fn from_opcode(opcode: &u8) -> (r: Option<Self>)
        ensures
            (r is Some) <==> (0x18 <= *opcode && *opcode < 0x20 && *opcode != 0x1E),
            r matches Some(i) ==> i.spec_opcode() == *opcode && i.counter == 1,
    {
        match reg_of_row(*opcode, 0x18) {
            Some(reg) => Some(RrR { counter: 1, reg }),
            None => None,
        }
    }

    pub fn get_opcode(&self) -> (r: u8)
        ensures
            r == self.spec_opcode(),
    {
        0x18 + self.reg.code()
    }

    /// One tick: from this state, registers `r0` and memory `m0`, to state
    /// `next`, registers `r1` and memory `m1`, finishing when `done`.
    pub open spec fn step(
        self,
        next: Self,
        r0: RegistersView,
        r1: RegistersView,
        m0: Seq<u8>,
        m1: Seq<u8>,
        done: bool,
    ) -> bool {
        &&& next.reg == self.reg
        &&& self.counter == 1 ==> !done && next.counter == 0 &&
            ({
                let v = r0.r8(self.reg);
                let result = rr_value(v, bit_of(r0.f, 4));
                r1 == r0.set8(self.reg, result).set_f(flags_with(r0.f, result == 0, false, false, bit_of(v, 0)))
            })
        &&& self.counter == 0 ==> done && next.counter == 0 && r1 == r0
        &&& self.counter > 1 ==> !done && next.counter == self.counter - 1 && r1 == r0
        &&& m1 == m0
    }

    pub fn act(&mut self, registers: &mut Registers) -> (done: bool)
        ensures
            Self::step(*old(self), *final(self), old(registers)@, final(registers)@, Seq::empty(), Seq::empty(), done),
    {
        if self.counter == 1 {
            let mut value = Register8::new(registers.get8(self.reg));
            let mut alu = ALU::new(registers.f);
            alu.rr(&mut value);
            registers.set8(self.reg, value.get_value());
            registers.f = alu.flags;
        } else if self.counter == 0 {
            return true;
        }
        self.counter = self.counter - 1;
        false
    }
}

/// `RRC (HL)` (prefixed 0x0E): reads the byte at HL, rotates it right, writes
/// it back, then finishes, one step per tick.
pub struct RrcHl {
    pub counter: u8,
    pub value_register: Register8,
}

impl RrcHl {
    pub fn from_opcode(opcode: &u8) -> (r: Option<Self>)
        ensures
            r is Some <==> *opcode == 0x0E,
            r matches Some(i) ==> i.counter == 3 && i.value_register@ == 0,
    {
        if *opcode == 0x0E {
            return Some(RrcHl { counter: 3, value_register: Register8::new(0) });
        }
        None
    }

    pub fn get_opcode(&self) -> (r: u8)
        ensures
            r == 0x0E,
    {
        0x0E
    }

    /// One tick: from this state, registers `r0` and memory `m0`, to state
    /// `next`, registers `r1` and memory `m1`, finishing when `done`.
    pub open spec fn step(
        self,
        next: Self,
        r0: RegistersView,
        r1: RegistersView,
        m0: Seq<u8>,
        m1: Seq<u8>,
        done: bool,
    ) -> bool {
        &&& self.counter == 3 ==> !done && next.counter == 2 &&
            next.value_register@ == m0[r0.hl() as int] && r1 == r0 && m1 == m0
        &&& self.counter == 2 ==> !done && next.counter == 1 && m1 == m0 && ({
            let v = self.value_register@;
            let result = rrc_value(v);
            &&& next.value_register@ == result
            &&& r1 == r0.set_f(flags_with(r0.f, result == 0, false, false, bit_of(v, 0)))
        })
        &&& self.counter == 1 ==> !done && next.counter == 0 &&
            next.value_register@ == self.value_register@ && r1 == r0 &&
            m1 == m0.update(r0.hl() as int, self.value_register@)
        &&& self.counter == 0 ==> done && next.counter == 0 &&
            next.value_register@ == self.value_register@ && r1 == r0 && m1 == m0
        &&& self.counter > 3 ==> !done && next.counter == self.counter - 1 &&
            next.value_register@ == self.value_register@ && r1 == r0 && m1 == m0
    }

    pub fn act(&mut self, registers: &mut Registers, memory: &mut Memory) -> (done: bool)
        ensures
            Self::step(*old(self), *final(self), old(registers)@, final(registers)@, old(memory)@, final(memory)@, done),
    {
        if self.counter == 3 {
            self.value_register.set_value(memory.get(registers.get_hl()));
        } else if self.counter == 2 {
            let mut alu = ALU::new(registers.f);
            alu.rrc(&mut self.value_register);
            registers.f = alu.flags;
        } else if self.counter == 1 {
            memory.set(registers.get_hl(), self.value_register.get_value());
        } else if self.counter == 0 {
            return true;
        }
        self.counter = self.counter - 1;
        false
    }
}

/// `BIT b, r` (prefixed 0x40 + 8 * b + register code): on the first tick Z
/// becomes the complement of bit b of r, N is reset and H set; finishes on
/// the next tick.
pub struct BitBR {
    pub counter: u8,
    pub bit: u8,
    pub reg: Reg8,
}

/// `RES b, r` (prefixed 0x80 + 8 * b + register code): clears bit b of r on
/// the first tick, finishing on the next.
pub struct ResBR {
    pub counter: u8,
    pub bit: u8,
    pub reg: Reg8,
}

/// `SET b, r` (prefixed 0xC0 + 8 * b + register code): sets bit b of r on
/// the first tick, finishing on the next.
pub struct SetBR {
    pub counter: u8,
    pub bit: u8,
    pub reg: Reg8,
}

impl BitBR {
    pub open spec fn spec_opcode(&self) -> u8 {
        (0x40 + 8 * self.bit + code_of_reg8(self.reg)) as u8
    }

    pub fn from_opcode(opcode: &u8) -> (r: Option<Self>)
        ensures
            (r is Some) <==> (0x40 <= *opcode && *opcode < 0x80 && *opcode % 8 != 6),
            r matches Some(i) ==> i.bit < 8 && i.spec_opcode() == *opcode && i.counter == 1,
    {
        match bit_and_reg(*opcode, 0x40) {
            Some((bit, reg)) => Some(BitBR { counter: 1, bit, reg }),
            None => None,
        }
    }

    pub fn get_opcode(&self) -> (r: u8)
        requires
            self.bit < 8,
        ensures
            r == self.spec_opcode(),
    {
        0x40 + 8 * self.bit + self.reg.code()
    }

    /// One tick: from this state, registers `r0` and memory `m0`, to state
    /// `next`, registers `r1` and memory `m1`, finishing when `done`.
    pub open spec fn step(
        self,
        next: Self,
        r0: RegistersView,
        r1: RegistersView,
        m0: Seq<u8>,
        m1: Seq<u8>,
        done: bool,
    ) -> bool {
        &&& next.bit == self.bit && next.reg == self.reg
        &&& self.counter == 1 ==> !done && next.counter == 0 &&
            (r1 == r0.set_f(flags_with(r0.f, !bit_of(r0.r8(self.reg), self.bit), false, true, bit_of(r0.f, 4))))
        &&& self.counter == 0 ==> done && next.counter == 0 && r1 == r0
        &&& self.counter > 1 ==> !done && next.counter == self.counter - 1 && r1 == r0
        &&& m1 == m0
    }

    pub fn act(&mut self, registers: &mut Registers) -> (done: bool)
        requires
            old(self).bit < 8,
        ensures
            Self::step(*old(self), *final(self), old(registers)@, final(registers)@, Seq::empty(), Seq::empty(), done),
    {
        if self.counter == 1 {
            let ghost f0 = registers.f@;
            let value = Register8::new(registers.get8(self.reg));
            let zero = !value.get_bit(self.bit);
            proof {
                lemma_flags_decompose(f0);
                lemma_flags_bits(f0, bit_of(f0, 7), bit_of(f0, 6), bit_of(f0, 5), bit_of(f0, 4), false);
                lemma_flags_bits(f0, bit_of(f0, 7), false, bit_of(f0, 5), bit_of(f0, 4), true);
                lemma_flags_bits(f0, bit_of(f0, 7), false, true, bit_of(f0, 4), zero);
            }
            registers.f.set_bit(ALU::SUB_FLAG, false);
            registers.f.set_bit(ALU::HALF_CARRY_FLAG, true);
            registers.f.set_bit(ALU::ZERO_FLAG, zero);
        } else if self.counter == 0 {
            return true;
        }
        self.counter = self.counter - 1;
        false
    }
}

impl ResBR {
    pub open spec fn spec_opcode(&self) -> u8 {
        (0x80 + 8 * self.bit + code_of_reg8(self.reg)) as u8
    }

    pub fn from_opcode(opcode: &u8) -> (r: Option<Self>)
        ensures
            (r is Some) <==> (0x80 <= *opcode && *opcode < 0xC0 && *opcode % 8 != 6),
            r matches Some(i) ==> i.bit < 8 && i.spec_opcode() == *opcode && i.counter == 1,
    {
        match bit_and_reg(*opcode, 0x80) {
            Some((bit, reg)) => Some(ResBR { counter: 1, bit, reg }),
            None => None,
        }
    }

    pub fn get_opcode(&self) -> (r: u8)
        requires
            self.bit < 8,
        ensures
            r == self.spec_opcode(),
    {
        0x80 + 8 * self.bit + self.reg.code()
    }

    /// One tick: from this state, registers `r0` and memory `m0`, to state
    /// `next`, registers `r1` and memory `m1`, finishing when `done`.
    pub open spec fn step(
        self,
        next: Self,
        r0: RegistersView,
        r1: RegistersView,
        m0: Seq<u8>,
        m1: Seq<u8>,
        done: bool,
    ) -> bool {
        &&& next.bit == self.bit && next.reg == self.reg
        &&& self.counter == 1 ==> !done && next.counter == 0 &&
            (r1 == r0.set8(self.reg, with_bit(r0.r8(self.reg), self.bit, false)))
        &&& self.counter == 0 ==> done && next.counter == 0 && r1 == r0
        &&& self.counter > 1 ==> !done && next.counter == self.counter - 1 && r1 == r0
        &&& m1 == m0
    }

    pub fn act(&mut self, registers: &mut Registers) -> (done: bool)
        requires
            old(self).bit < 8,
        ensures
            Self::step(*old(self), *final(self), old(registers)@, final(registers)@, Seq::empty(), Seq::empty(), done),
    {
        if self.counter == 1 {
            let mut value = Register8::new(registers.get8(self.reg));
            value.set_bit(self.bit, false);
            registers.set8(self.reg, value.get_value());
        } else if self.counter == 0 {
            return true;
        }
        self.counter = self.counter - 1;
        false
    }
}

impl SetBR {
    pub open spec fn spec_opcode(&self) -> u8 {
        (0xC0 + 8 * self.bit + code_of_reg8(self.reg)) as u8
    }

    pub fn from_opcode(opcode: &u8) -> (r: Option<Self>)
        ensures
            (r is Some) <==> (0xC0 <= *opcode && *opcode % 8 != 6),
            r matches Some(i) ==> i.bit < 8 && i.spec_opcode() == *opcode && i.counter == 1,
    {
        match bit_and_reg(*opcode, 0xC0) {
            Some((bit, reg)) => Some(SetBR { counter: 1, bit, reg }),
            None => None,
        }
    }

    pub fn get_opcode(&self) -> (r: u8)
        requires
            self.bit < 8,
        ensures
            r == self.spec_opcode(),
    {
        0xC0 + 8 * self.bit + self.reg.code()
    }

    /// One tick: from this state, registers `r0` and memory `m0`, to state
    /// `next`, registers `r1` and memory `m1`, finishing when `done`.
    pub open spec fn step(
        self,
        next: Self,
        r0: RegistersView,
        r1: RegistersView,
        m0: Seq<u8>,
        m1: Seq<u8>,
        done: bool,
    ) -> bool {
        &&& next.bit == self.bit && next.reg == self.reg
        &&& self.counter == 1 ==> !done && next.counter == 0 &&
            (r1 == r0.set8(self.reg, with_bit(r0.r8(self.reg), self.bit, true)))
        &&& self.counter == 0 ==> done && next.counter == 0 && r1 == r0
        &&& self.counter > 1 ==> !done && next.counter == self.counter - 1 && r1 == r0
        &&& m1 == m0
    }

    pub fn act(&mut self, registers: &mut Registers) -> (done: bool)
        requires
            old(self).bit < 8,
        ensures
            Self::step(*old(self), *final(self), old(registers)@, final(registers)@, Seq::empty(), Seq::empty(), done),
    {
        if self.counter == 1 {
            let mut value = Register8::new(registers.get8(self.reg));
            value.set_bit(self.bit, true);
            registers.set8(self.reg, value.get_value());
        } else if self.counter == 0 {
            return true;
        }
        self.counter = self.counter - 1;
        false
    }
}

/// `SWAP r` (prefixed 0x30 to 0x37 but 0x36): exchanges the nibbles of r; Z
/// from the result, N, H and C reset; finishes at once.
pub struct SwapR {
    pub reg: Reg8,
}

impl SwapR {
    pub open spec fn spec_opcode(&self) -> u8 {
        (0x30 + code_of_reg8(self.reg)) as u8
    }

    pub fn from_opcode(opcode: &u8) -> (r: Option<Self>)
        ensures
            (r is Some) <==> (0x30 <= *opcode && *opcode < 0x38 && *opcode != 0x36),
            r matches Some(i) ==> i.spec_opcode() == *opcode,
    {
        match reg_of_row(*opcode, 0x30) {
            Some(reg) => Some(SwapR { reg }),
            None => None,
        }
    }

    pub fn get_opcode(&self) -> (r: u8)
        ensures
            r == self.spec_opcode(),
    {
        0x30 + self.reg.code()
    }

    /// One tick: from this state, registers `r0` and memory `m0`, to state
    /// `next`, registers `r1` and memory `m1`, finishing when `done`.
    pub open spec fn step(
        self,
        next: Self,
        r0: RegistersView,
        r1: RegistersView,
        m0: Seq<u8>,
        m1: Seq<u8>,
        done: bool,
    ) -> bool {
        &&& done
        &&& ({
            let result = swap_value(r0.r8(self.reg));
            r1 == r0.set8(self.reg, result).set_f(flags_with(r0.f, result == 0, false, false, false))
        })
        &&& m1 == m0
    }

    pub fn act(&mut self, registers: &mut Registers) -> (done: bool)
        ensures
            Self::step(*old(self), *final(self), old(registers)@, final(registers)@, Seq::empty(), Seq::empty(), done),
    {
        let ghost f0 = registers.f@;
        proof {
            lemma_flags_decompose(f0);
            lemma_flags_bits(f0, bit_of(f0, 7), bit_of(f0, 6), bit_of(f0, 5), bit_of(f0, 4), false);
            lemma_flags_bits(f0, bit_of(f0, 7), false, bit_of(f0, 5), bit_of(f0, 4), false);
            lemma_flags_bits(f0, bit_of(f0, 7), false, false, bit_of(f0, 4), false);
        }
        registers.f.set_bit(ALU::SUB_FLAG, false);
        registers.f.set_bit(ALU::HALF_CARRY_FLAG, false);
        registers.f.set_bit(ALU::CARRY_FLAG, false);

        let old_value = registers.get8(self.reg);
        registers.set8(self.reg, (old_value << 4) | (old_value >> 4));

        let zero = registers.get8(self.reg) == 0;
        proof {
            lemma_flags_bits(f0, bit_of(f0, 7), false, false, false, zero);
        }
        registers.f.set_bit(ALU::ZERO_FLAG, zero);

        true
    }
}


/// `BIT b, (HL)` (prefixed 0x46 + 8 * b): reads the byte at HL; then Z
/// becomes the complement of its bit b, N is reset and H set; then writes the
/// byte back; then finishes.
pub struct BitBHl {
    pub counter: u8,
    pub bit: u8,
    pub value_register: Register8,
}

/// The opcode of `RES b, (HL)`; bit 5 has 0xAA.
pub open spec fn res_hl_opcode(bit: u8) -> u8 {
    if bit == 5 {
        0xAA
    } else {
        (0x86 + 8 * bit) as u8
    }
}

/// `RES b, (HL)` (prefixed 0x86 + 8 * b, but 0xAA for bit 5): reads the byte
/// at HL, clears its bit b, writes it back, then finishes.
pub struct ResBHl {
    pub counter: u8,
    pub bit: u8,
    pub value_register: Register8,
}

/// `SET b, (HL)` (prefixed 0xC6 + 8 * b): reads the byte at HL, sets its bit
/// b, writes it back, then finishes.
pub struct SetBHl {
    pub counter: u8,
    pub bit: u8,
    pub value_register: Register8,
}

impl BitBHl {
    pub open spec fn spec_opcode(&self) -> u8 {
        (0x46 + 8 * self.bit) as u8
    }

    pub fn from_opcode(opcode: &u8) -> (r: Option<Self>)
        ensures
            (r is Some) <==> (0x40 <= *opcode && *opcode < 0x80 && *opcode % 8 == 6),
            r matches Some(i) ==> i.bit < 8 && i.spec_opcode() == *opcode && i.counter == 3
                && i.value_register@ == 0,
    {
        if 0x40 <= *opcode && *opcode < 0x80 && *opcode % 8 == 6 {
            return Some(BitBHl { counter: 3, bit: (*opcode - 0x46) / 8, value_register: Register8::new(0) });
        }
        None
    }

    pub fn get_opcode(&self) -> (r: u8)
        requires
            self.bit < 8,
        ensures
            r == self.spec_opcode(),
    {
        0x46 + 8 * self.bit
    }

    /// One tick: from this state, registers `r0` and memory `m0`, to state
    /// `next`, registers `r1` and memory `m1`, finishing when `done`.
    pub open spec fn step(
        self,
        next: Self,
        r0: RegistersView,
        r1: RegistersView,
        m0: Seq<u8>,
        m1: Seq<u8>,
        done: bool,
    ) -> bool {
        &&& next.bit == self.bit
        &&& self.counter == 3 ==> !done && next.counter == 2 &&
            next.value_register@ == m0[r0.hl() as int] && r1 == r0 && m1 == m0
        &&& self.counter == 2 ==> !done && next.counter == 1 &&
            next.value_register@ == self.value_register@ &&
            (r1 == r0.set_f(flags_with(r0.f, !bit_of(self.value_register@, self.bit), false, true, bit_of(r0.f, 4))))
            && m1 == m0
        &&& self.counter == 1 ==> !done && next.counter == 0 &&
            next.value_register@ == self.value_register@ && r1 == r0 &&
            m1 == m0.update(r0.hl() as int, self.value_register@)
        &&& self.counter == 0 ==> done && next.counter == 0 &&
            next.value_register@ == self.value_register@ && r1 == r0 && m1 == m0
        &&& self.counter > 3 ==> !done && next.counter == self.counter - 1 &&
            next.value_register@ == self.value_register@ && r1 == r0 && m1 == m0
    }

    pub fn act(&mut self, registers: &mut Registers, memory: &mut Memory) -> (done: bool)
        requires
            old(self).bit < 8,
        ensures
            Self::step(*old(self), *final(self), old(registers)@, final(registers)@, old(memory)@, final(memory)@, done),
    {
        if self.counter == 3 {
            self.value_register.set_value(memory.get(registers.get_hl()));
        }
        if self.counter == 2 {
            let ghost f0 = registers.f@;
            let zero = !self.value_register.get_bit(self.bit);
            proof {
                lemma_flags_decompose(f0);
                lemma_flags_bits(f0, bit_of(f0, 7), bit_of(f0, 6), bit_of(f0, 5), bit_of(f0, 4), false);
                lemma_flags_bits(f0, bit_of(f0, 7), false, bit_of(f0, 5), bit_of(f0, 4), true);
                lemma_flags_bits(f0, bit_of(f0, 7), false, true, bit_of(f0, 4), zero);
            }
            registers.f.set_bit(ALU::SUB_FLAG, false);
            registers.f.set_bit(ALU::HALF_CARRY_FLAG, true);
            registers.f.set_bit(ALU::ZERO_FLAG, zero);
        } else if self.counter == 1 {
            memory.set(registers.get_hl(), self.value_register.get_value());
        } else if self.counter == 0 {
            return true;
        }
        self.counter = self.counter - 1;
        false
    }
}

impl ResBHl {
    pub open spec fn spec_opcode(&self) -> u8 {
        res_hl_opcode(self.bit)
    }

    pub fn from_opcode(opcode: &u8) -> (r: Option<Self>)
        ensures
            (r is Some) <==> (*opcode == 0x86 || *opcode == 0x8E || *opcode == 0x96 || *opcode
                == 0x9E || *opcode == 0xA6 || *opcode == 0xAA || *opcode == 0xB6 || *opcode
                == 0xBE),
            r matches Some(i) ==> i.bit < 8 && i.spec_opcode() == *opcode && i.counter == 3
                && i.value_register@ == 0,
    {
        let bit: u8 = if *opcode == 0xAA {
            5
        } else if 0x80 <= *opcode && *opcode < 0xC0 && *opcode % 8 == 6 && *opcode != 0xAE {
            (*opcode - 0x86) / 8
        } else {
            return None;
        };
        Some(ResBHl { counter: 3, bit, value_register: Register8::new(0) })
    }

    pub fn get_opcode(&self) -> (r: u8)
        requires
            self.bit < 8,
        ensures
            r == self.spec_opcode(),
    {
        if self.bit == 5 {
            0xAA
        } else {
            0x86 + 8 * self.bit
        }
    }

    /// One tick: from this state, registers `r0` and memory `m0`, to state
    /// `next`, registers `r1` and memory `m1`, finishing when `done`.
    pub open spec fn step(
        self,
        next: Self,
        r0: RegistersView,
        r1: RegistersView,
        m0: Seq<u8>,
        m1: Seq<u8>,
        done: bool,
    ) -> bool {
        &&& next.bit == self.bit
        &&& r1 == r0
        &&& self.counter == 3 ==> !done && next.counter == 2 &&
            next.value_register@ == m0[r0.hl() as int] && m1 == m0
        &&& self.counter == 2 ==> !done && next.counter == 1 &&
            next.value_register@ == with_bit(self.value_register@, self.bit, false) && m1 == m0
        &&& self.counter == 1 ==> !done && next.counter == 0 &&
            next.value_register@ == self.value_register@ &&
            m1 == m0.update(r0.hl() as int, self.value_register@)
        &&& self.counter == 0 ==> done && next.counter == 0 &&
            next.value_register@ == self.value_register@ && m1 == m0
        &&& self.counter > 3 ==> !done && next.counter == self.counter - 1 &&
            next.value_register@ == self.value_register@ && m1 == m0
    }

    pub fn act(&mut self, registers: &mut Registers, memory: &mut Memory) -> (done: bool)
        requires
            old(self).bit < 8,
        ensures
            Self::step(*old(self), *final(self), old(registers)@, final(registers)@, old(memory)@, final(memory)@, done),
    {
        if self.counter == 3 {
            self.value_register.set_value(memory.get(registers.get_hl()));
        } else if self.counter == 2 {
            self.value_register.set_bit(self.bit, false);
        } else if self.counter == 1 {
            memory.set(registers.get_hl(), self.value_register.get_value());
        } else if self.counter == 0 {
            return true;
        }
        self.counter = self.counter - 1;
        false
    }
}

impl SetBHl {
    pub open spec fn spec_opcode(&self) -> u8 {
        (0xC6 + 8 * self.bit) as u8
    }

    pub fn from_opcode(opcode: &u8) -> (r: Option<Self>)
        ensures
            (r is Some) <==> (0xC0 <= *opcode && *opcode % 8 == 6),
            r matches Some(i) ==> i.bit < 8 && i.spec_opcode() == *opcode && i.counter == 3
                && i.value_register@ == 0,
    {
        if 0xC0 <= *opcode && *opcode % 8 == 6 {
            return Some(SetBHl { counter: 3, bit: (*opcode - 0xC6) / 8, value_register: Register8::new(0) });
        }
        None
    }

    pub fn get_opcode(&self) -> (r: u8)
        requires
            self.bit < 8,
        ensures
            r == self.spec_opcode(),
    {
        0xC6 + 8 * self.bit
    }

    /// One tick: from this state, registers `r0` and memory `m0`, to state
    /// `next`, registers `r1` and memory `m1`, finishing when `done`.
    pub open spec fn step(
        self,
        next: Self,
        r0: RegistersView,
        r1: RegistersView,
        m0: Seq<u8>,
        m1: Seq<u8>,
        done: bool,
    ) -> bool {
        &&& next.bit == self.bit
        &&& r1 == r0
        &&& self.counter == 3 ==> !done && next.counter == 2 &&
            next.value_register@ == m0[r0.hl() as int] && m1 == m0
        &&& self.counter == 2 ==> !done && next.counter == 1 &&
            next.value_register@ == with_bit(self.value_register@, self.bit, true) && m1 == m0
        &&& self.counter == 1 ==> !done && next.counter == 0 &&
            next.value_register@ == self.value_register@ &&
            m1 == m0.update(r0.hl() as int, self.value_register@)
        &&& self.counter == 0 ==> done && next.counter == 0 &&
            next.value_register@ == self.value_register@ && m1 == m0
        &&& self.counter > 3 ==> !done && next.counter == self.counter - 1 &&
            next.value_register@ == self.value_register@ && m1 == m0
    }

    pub fn act(&mut self, registers: &mut Registers, memory: &mut Memory) -> (done: bool)
        requires
            old(self).bit < 8,
        ensures
            Self::step(*old(self), *final(self), old(registers)@, final(registers)@, old(memory)@, final(memory)@, done),
    {
        if self.counter == 3 {
            self.value_register.set_value(memory.get(registers.get_hl()));
        } else if self.counter == 2 {
            self.value_register.set_bit(self.bit, true);
        } else if self.counter == 1 {
            memory.set(registers.get_hl(), self.value_register.get_value());
        } else if self.counter == 0 {
            return true;
        }
        self.counter = self.counter - 1;
        false
    }
}

/// A prefixed opcode with no instruction: it never finishes.
pub struct BitwiseBadInstruction {
    pub opcode: u8,
}

impl BitwiseBadInstruction {
    /// Accepts every opcode.
    pub fn from_opcode(opcode: &u8) -> (r: Option<Self>)
        ensures
            r == Some(BitwiseBadInstruction { opcode: *opcode }),
    {
        Some(Self { opcode: *opcode })
    }

    pub fn get_opcode(&self) -> (r: u8)
        ensures
            r == self.opcode,
    {
        self.opcode
    }

    /// Never finishes and changes nothing.
    pub fn act(&mut self) -> (done: bool)
        ensures
            !done,
            *final(self) == *old(self),
    {
        false
    }

    /// The address the unknown opcode was read from (the byte after the
    /// prefix): one before the program counter, wrapping.
    pub fn fault_address(&self, registers: &Registers) -> (r: u16)
        ensures
            r == wrap_sub(registers@.pc as int, 1, 65536),
    {
        registers.pc.get_value().wrapping_sub(1)
    }
}

} // verus!
