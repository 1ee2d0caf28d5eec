use vstd::prelude::*;
use crate::alu::{ALU, add_flags, flags_with, half_borrow_sub, half_carry_add, lemma_flags_bits, sub_flags};
use crate::memory::Memory;
use crate::register::{Register16, bit_of, wrap_sub};
use crate::registers::{Reg16, Reg8, Registers, RegistersView, code_of_reg16, code_of_reg8};

verus! {

/// The program counter after one increment.
pub open spec fn next_pc(r: RegistersView) -> u16 {
    ((r.pc + 1) % 65536) as u16
}

/// `LD A, C` (0x79): A = C, finishing at once.
pub struct LdAC {}

impl LdAC {
    pub fn from_opcode(opcode: &u8) -> (r: Option<Self>)
        ensures
            r is Some <==> *opcode == 0x79,
    {
        if *opcode == 0x79 {
            return Some(LdAC {});
        }
        None
    }

    pub fn get_opcode(&self) -> (r: u8)
        ensures
            r == 0x79,
    {
        0x79
    }

    /// One tick: from this state, registers `r0` and memory `m0`, to state
    /// `next`, registers `r1` and memory `m1`, finishing when `done`.
    pub open spec fn step(
        self,
        next: Self,
        r0: RegistersView,
        r1: RegistersView,
        m0: Seq<u8>,
        m1: Seq<u8>,
        done: bool,
    ) -> bool {
        &&& done
        &&& r1 == r0.set_a(r0.c)
        &&& m1 == m0
    }

    pub fn act(&mut self, registers: &mut Registers) -> (done: bool)
        ensures
            Self::step(*old(self), *final(self), old(registers)@, final(registers)@, Seq::empty(), Seq::empty(), done),
    {
        let value = registers.c.get_value();
        registers.a.set_value(value);

        true
    }
}

/// The two ticks shared by the `LD r, n` instructions: read the byte at PC
/// into the register and step PC, then finish.
pub struct ReusableLdRN {
    pub counter: u8,
}

impl ReusableLdRN {
    pub fn new() -> (r: Self)
        ensures
            r.counter == 1,
    {
        ReusableLdRN { counter: 1 }
    }

    pub fn act(&mut self, reg: Reg8, registers: &mut Registers, memory: &Memory) -> (done: bool)
        ensures
            old(self).counter == 1 ==> !done && final(self).counter == 0 && ({
                let r0 = old(registers)@;
                final(registers)@ == r0.set8(reg, memory@[r0.pc as int]).set_pc(next_pc(r0))
            }),
            old(self).counter == 0 ==> done && final(self).counter == 0 && final(registers)@
                == old(registers)@,
            old(self).counter > 1 ==> !done && final(self).counter == old(self).counter - 1
                && final(registers)@ == old(registers)@,
    {
        if self.counter == 1 {
            let value = memory.get(registers.pc.get_value());
            registers.set8(reg, value);
            registers.pc.increment();
        } else if self.counter == 0 {
            return true;
        }
        self.counter = self.counter - 1;
        false
    }
}

/// `LD A, n` (0x3E): A = the byte after the opcode.
pub struct LdAN {
    pub reusable_ld_r_n: ReusableLdRN,
}

impl LdAN {
    pub fn from_opcode(opcode: &u8) -> (r: Option<Self>)
        ensures
            r is Some <==> *opcode == 0x3E,
            r matches Some(i) ==> i.reusable_ld_r_n.counter == 1,
    {
        if *opcode == 0x3E {
            return Some(LdAN { reusable_ld_r_n: ReusableLdRN::new() });
        }
        None
    }

    pub fn get_opcode(&self) -> (r: u8)
        ensures
            r == 0x3E,
    {
        0x3E
    }

    /// One tick: from this state, registers `r0` and memory `m0`, to state
    /// `next`, registers `r1` and memory `m1`, finishing when `done`.
    pub open spec fn step(
        self,
        next: Self,
        r0: RegistersView,
        r1: RegistersView,
        m0: Seq<u8>,
        m1: Seq<u8>,
        done: bool,
    ) -> bool {
        &&& self.reusable_ld_r_n.counter == 1 ==> !done && next.reusable_ld_r_n.counter == 0 &&
            (r1 == r0.set_a(m0[r0.pc as int]).set_pc(next_pc(r0)))
        &&& self.reusable_ld_r_n.counter == 0 ==> done && next.reusable_ld_r_n.counter == 0 &&
            r1 == r0
        &&& self.reusable_ld_r_n.counter > 1 ==> !done &&
            next.reusable_ld_r_n.counter == self.reusable_ld_r_n.counter - 1 && r1 == r0
        &&& m1 == m0
    }

    pub fn act(&mut self, registers: &mut Registers, memory: &Memory) -> (done: bool)
        ensures
            Self::step(*old(self), *final(self), old(registers)@, final(registers)@, memory@, memory@, done),
    {
        self.reusable_ld_r_n.act(Reg8::A, registers, memory)
    }
}

/// The opcode of `LD r, n` for register `r`. H and L share 0x2E.
pub open spec fn ld_r_n_opcode(r: Reg8) -> u8 {
    match r {
        Reg8::A => 0x3E,
        Reg8::B => 0x06,
        Reg8::C => 0x0E,
        Reg8::D => 0x16,
        Reg8::E => 0x1E,
        Reg8::H => 0x2E,
        Reg8::L => 0x2E,
    }
}

/// `LD r, n` (0x3E, 0x06, 0x0E, 0x16, 0x1E, 0x2E for A, B, C, D, E, H; L
/// shares 0x2E with H): r = the byte after the opcode.
pub struct LdRN {
    pub counter: u8,
    pub reg: Reg8,
}

impl LdRN {
    pub fn from_opcode(opcode: &u8) -> (r: Option<Self>)
        ensures
            (r is Some) <==> (*opcode == 0x3E || *opcode == 0x06 || *opcode == 0x0E || *opcode
                == 0x16 || *opcode == 0x1E || *opcode == 0x2E),
            r matches Some(i) ==> ld_r_n_opcode(i.reg) == *opcode && i.counter == 1 && (*opcode
                == 0x2E ==> i.reg == Reg8::H),
    {
        let reg = if *opcode == 0x3E {
            Reg8::A
        } else if *opcode == 0x06 {
            Reg8::B
        } else if *opcode == 0x0E {
            Reg8::C
        } else if *opcode == 0x16 {
            Reg8::D
        } else if *opcode == 0x1E {
            Reg8::E
        } else if *opcode == 0x2E {
            Reg8::H
        } else {
            return None;
        };
        Some(LdRN { counter: 1, reg })
    }

    pub fn get_opcode(&self) -> (r: u8)
        ensures
            r == ld_r_n_opcode(self.reg),
    {
        match self.reg {
            Reg8::A => 0x3E,
            Reg8::B => 0x06,
            Reg8::C => 0x0E,
            Reg8::D => 0x16,
            Reg8::E => 0x1E,
            Reg8::H => 0x2E,
            Reg8::L => 0x2E,
        }
    }

    /// One tick: from this state, registers `r0` and memory `m0`, to state
    /// `next`, registers `r1` and memory `m1`, finishing when `done`.
    pub open spec fn step(
        self,
        next: Self,
        r0: RegistersView,
        r1: RegistersView,
        m0: Seq<u8>,
        m1: Seq<u8>,
        done: bool,
    ) -> bool {
        &&& next.reg == self.reg
        &&& self.counter == 1 ==> !done && next.counter == 0 &&
            (r1 == r0.set8(self.reg, m0[r0.pc as int]).set_pc(next_pc(r0)))
        &&& self.counter == 0 ==> done && next.counter == 0 && r1 == r0
        &&& self.counter > 1 ==> !done && next.counter == self.counter - 1 && r1 == r0
        &&& m1 == m0
    }

    pub fn act(&mut self, registers: &mut Registers, memory: &Memory) -> (done: bool)
        ensures
            Self::step(*old(self), *final(self), old(registers)@, final(registers)@, memory@, memory@, done),
    {
        let mut ticks = ReusableLdRN { counter: self.counter };
        let done = ticks.act(self.reg, registers, memory);
        self.counter = ticks.counter;
        done
    }
}

/// The opcode of `LD A, (rr)` for register pair `rr`.
pub open spec fn ld_a_rr_opcode(r: Reg16) -> u8 {
    match r {
        Reg16::BC => 0x0A,
        Reg16::DE => 0x1A,
        Reg16::HL => 0x7E,
        Reg16::SP => 0x7E,
    }
}

/// `LD A, (rr)` (0x0A, 0x1A, 0x7E for BC, DE, HL): A = the byte at rr on the
/// first tick, finishing on the next.
pub struct LdARr {
    pub counter: u8,
    pub reg: Reg16,
}

impl LdARr {
    pub fn from_opcode(opcode: &u8) -> (r: Option<Self>)
        ensures
            (r is Some) <==> (*opcode == 0x0A || *opcode == 0x1A || *opcode == 0x7E),
            r matches Some(i) ==> ld_a_rr_opcode(i.reg) == *opcode && i.reg != Reg16::SP
                && i.counter == 1,
    {
        let reg = if *opcode == 0x0A {
            Reg16::BC
        } else if *opcode == 0x1A {
            Reg16::DE
        } else if *opcode == 0x7E {
            Reg16::HL
        } else {
            return None;
        };
        Some(LdARr { counter: 1, reg })
    }

    pub fn get_opcode(&self) -> (r: u8)
        requires
            self.reg != Reg16::SP,
        ensures
            r == ld_a_rr_opcode(self.reg),
    {
        match self.reg {
            Reg16::BC => 0x0A,
            Reg16::DE => 0x1A,
            _ => 0x7E,
        }
    }

    /// One tick: from this state, registers `r0` and memory `m0`, to state
    /// `next`, registers `r1` and memory `m1`, finishing when `done`.
    pub open spec fn step(
        self,
        next: Self,
        r0: RegistersView,
        r1: RegistersView,
        m0: Seq<u8>,
        m1: Seq<u8>,
        done: bool,
    ) -> bool {
        &&& next.reg == self.reg
        &&& self.counter == 1 ==> !done && next.counter == 0 &&
            (r1 == r0.set_a(m0[r0.r16(self.reg) as int]))
        &&& self.counter == 0 ==> done && next.counter == 0 && r1 == r0
        &&& self.counter > 1 ==> !done && next.counter == self.counter - 1 && r1 == r0
        &&& m1 == m0
    }

    pub fn act(&mut self, registers: &mut Registers, memory: &Memory) -> (done: bool)
        ensures
            Self::step(*old(self), *final(self), old(registers)@, final(registers)@, memory@, memory@, done),
    {
        if self.counter == 1 {
            let value = memory.get(registers.get16(self.reg));
            registers.a.set_value(value);
        } else if self.counter == 0 {
            return true;
        }
        self.counter = self.counter - 1;
        false
    }
}

/// `value` with its high byte replaced by `byte` (bits already set in the
/// high byte of `value` stay set).
pub open spec fn with_high_byte(value: u16, byte: u8) -> u16 {
    value | ((byte as u16) << 8u16)
}

fn or_high_byte(value: u16, byte: u8) -> (r: u16)
    ensures
        r == with_high_byte(value, byte),
{
    value | ((byte as u16) << 8)
}

/// `LD BC, nn` (0x01): reads the low then the high byte after the opcode,
/// then stores the word in BC.
pub struct LdBcNn {
    pub counter: u8,
    pub value: u16,
}

impl LdBcNn {
    pub fn from_opcode(opcode: &u8) -> (r: Option<Self>)
        ensures
            r is Some <==> *opcode == 0x01,
            r matches Some(i) ==> i == (LdBcNn { counter: 2, value: 0 }),
    {
        if *opcode == 0x01 {
            return Some(LdBcNn { counter: 2, value: 0 });
        }
        None
    }

    pub fn get_opcode(&self) -> (r: u8)
        ensures
            r == 0x01,
    {
        0x01
    }

    /// One tick: from this state, registers `r0` and memory `m0`, to state
    /// `next`, registers `r1` and memory `m1`, finishing when `done`.
    pub open spec fn step(
        self,
        next: Self,
        r0: RegistersView,
        r1: RegistersView,
        m0: Seq<u8>,
        m1: Seq<u8>,
        done: bool,
    ) -> bool {
        &&& self.counter == 2 ==> !done &&
            next == (LdBcNn { counter: 1, value: m0[r0.pc as int] as u16, }) &&
            r1 == r0.set_pc(next_pc(r0))
        &&& self.counter == 1 ==> !done &&
            next == (LdBcNn { counter: 0, value: with_high_byte(self.value, m0[r0.pc as int]), })
            && r1 == r0.set_pc(next_pc(r0))
        &&& self.counter == 0 ==> done && next == self && r1 == r0.set16(Reg16::BC, self.value)
        &&& self.counter > 2 ==> !done &&
            next == (LdBcNn { counter: (self.counter - 1) as u8, ..self }) && r1 == r0
        &&& m1 == m0
    }

    pub fn act(&mut self, registers: &mut Registers, memory: &Memory) -> (done: bool)
        ensures
            Self::step(*old(self), *final(self), old(registers)@, final(registers)@, memory@, memory@, done),
    {
        if self.counter == 2 {
            self.value = memory.get(registers.pc.get_value()) as u16;
            registers.pc.increment();
        } else if self.counter == 1 {
            self.value = or_high_byte(self.value, memory.get(registers.pc.get_value()));
            registers.pc.increment();
        } else if self.counter == 0 {
            registers.set_bc(self.value);
            return true;
        }
        self.counter = self.counter - 1;
        false
    }
}

/// `LD (HL), n` (0x36): reads the byte after the opcode, waits a tick, then
/// writes it at HL.
pub struct LdHlN {
    pub counter: u8,
    pub value: u8,
}

impl LdHlN {
    pub fn from_opcode(opcode: &u8) -> (r: Option<Self>)
        ensures
            r is Some <==> *opcode == 0x36,
            r matches Some(i) ==> i == (LdHlN { counter: 2, value: 0 }),
    {
        if *opcode == 0x36 {
            return Some(LdHlN { counter: 2, value: 0 });
        }
        None
    }

    pub fn get_opcode(&self) -> (r: u8)
        ensures
            r == 0x36,
    {
        0x36
    }

    /// One tick: from this state, registers `r0` and memory `m0`, to state
    /// `next`, registers `r1` and memory `m1`, finishing when `done`.
    pub open spec fn step(
        self,
        next: Self,
        r0: RegistersView,
        r1: RegistersView,
        m0: Seq<u8>,
        m1: Seq<u8>,
        done: bool,
    ) -> bool {
        &&& self.counter == 2 ==> !done &&
            next == (LdHlN { counter: 1, value: m0[r0.pc as int], }) &&
            r1 == r0.set_pc(next_pc(r0)) && m1 == m0
        &&& self.counter == 0 ==> done && next == self && r1 == r0 &&
            m1 == m0.update(r0.hl() as int, self.value)
        &&& (self.counter == 1 || self.counter > 2) ==> !done &&
            next == (LdHlN { counter: (self.counter - 1) as u8, ..self }) && r1 == r0 &&
            m1 == m0
    }

    pub fn act(&mut self, registers: &mut Registers, memory: &mut Memory) -> (done: bool)
        ensures
            Self::step(*old(self), *final(self), old(registers)@, final(registers)@, old(memory)@, final(memory)@, done),
    {
        if self.counter == 2 {
            self.value = memory.get(registers.pc.get_value());
            registers.pc.increment();
        } else if self.counter == 0 {
            memory.set(registers.get_hl(), self.value);
            return true;
        }
        self.counter = self.counter - 1;
        false
    }
}

/// `LD (HL), r` (0x70 to 0x75 for B, C, D, E, H, L): takes HL as the address
/// on the first tick, then writes r there.
pub struct LdHlR {
    pub counter: u8,
    pub address: u16,
    pub reg: Reg8,
}

impl LdHlR {
    pub open spec fn spec_opcode(&self) -> u8 {
        (0x70 + code_of_reg8(self.reg)) as u8
    }

    pub fn from_opcode(opcode: &u8) -> (r: Option<Self>)
        ensures
            (r is Some) <==> (0x70 <= *opcode && *opcode <= 0x75),
            r matches Some(i) ==> i.spec_opcode() == *opcode && i.counter == 1 && i.address == 0,
    {
        match Reg8::from_offset(*opcode, 0x70) {
            Some(reg) => Some(LdHlR { counter: 1, address: 0x0000, reg }),
            None => None,
        }
    }

    pub fn get_opcode(&self) -> (r: u8)
        ensures
            r == self.spec_opcode(),
    {
        0x70 + self.reg.code()
    }

    /// One tick: from this state, registers `r0` and memory `m0`, to state
    /// `next`, registers `r1` and memory `m1`, finishing when `done`.
    pub open spec fn step(
        self,
        next: Self,
        r0: RegistersView,
        r1: RegistersView,
        m0: Seq<u8>,
        m1: Seq<u8>,
        done: bool,
    ) -> bool {
        &&& self.counter == 1 ==> !done &&
            next == (LdHlR { counter: 0, address: r0.hl(), ..self }) && m1 == m0
        &&& self.counter == 0 ==> done && next == self &&
            m1 == m0.update(self.address as int, r0.r8(self.reg))
        &&& self.counter > 1 ==> !done &&
            next == (LdHlR { counter: (self.counter - 1) as u8, ..self }) && m1 == m0
        &&& r1 == r0
    }

    pub fn act(&mut self, registers: &mut Registers, memory: &mut Memory) -> (done: bool)
        ensures
            Self::step(*old(self), *final(self), old(registers)@, final(registers)@, old(memory)@, final(memory)@, done),
    {
        if self.counter == 1 {
            self.address = registers.get_hl();
        } else if self.counter == 0 {
            memory.set(self.address, registers.get8(self.reg));
            return true;
        }
        self.counter = self.counter - 1;
        false
    }
}

/// `LD r, (HL)` (0x46, 0x4E, 0x56, 0x5E, 0x66, 0x6E for B, C, D, E, H, L):
/// takes HL as the address on the first tick, then loads r from there.
pub struct LdRHl {
    pub counter: u8,
    pub address: u16,
    pub reg: Reg8,
}

impl LdRHl {
    pub open spec fn spec_opcode(&self) -> u8 {
        (0x46 + 8 * code_of_reg8(self.reg)) as u8
    }

    pub fn from_opcode(opcode: &u8) -> (r: Option<Self>)
        ensures
            (r is Some) <==> (0x46 <= *opcode && *opcode <= 0x6E && *opcode % 8 == 6),
            r matches Some(i) ==> i.spec_opcode() == *opcode && i.counter == 1 && i.address == 0,
    {
        if 0x46 <= *opcode && *opcode <= 0x6E && *opcode % 8 == 6 {
            match Reg8::from_code((*opcode - 0x46) / 8) {
                Some(reg) => Some(LdRHl { counter: 1, address: 0x0000, reg }),
                None => None,
            }
        } else {
            None
        }
    }

    pub fn get_opcode(&self) -> (r: u8)
        ensures
            r == self.spec_opcode(),
    {
        0x46 + 8 * self.reg.code()
    }

    /// One tick: from this state, registers `r0` and memory `m0`, to state
    /// `next`, registers `r1` and memory `m1`, finishing when `done`.
    pub open spec fn step(
        self,
        next: Self,
        r0: RegistersView,
        r1: RegistersView,
        m0: Seq<u8>,
        m1: Seq<u8>,
        done: bool,
    ) -> bool {
        &&& self.counter == 1 ==> !done &&
            next == (LdRHl { counter: 0, address: r0.hl(), ..self }) && r1 == r0
        &&& self.counter == 0 ==> done && next == self &&
            r1 == r0.set8(self.reg, m0[self.address as int])
        &&& self.counter > 1 ==> !done &&
            next == (LdRHl { counter: (self.counter - 1) as u8, ..self }) && r1 == r0
        &&& m1 == m0
    }

    pub fn act(&mut self, registers: &mut Registers, memory: &Memory) -> (done: bool)
        ensures
            Self::step(*old(self), *final(self), old(registers)@, final(registers)@, memory@, memory@, done),
    {
        if self.counter == 1 {
            self.address = registers.get_hl();
        } else if self.counter == 0 {
            let value = memory.get(self.address);
            registers.set8(self.reg, value);
            return true;
        }
        self.counter = self.counter - 1;
        false
    }
}


/// The flags `LD HL, SP+n` leaves: Z and N reset, H and C those of the 16-bit
/// addition of `n` (or subtraction of `0x100 - n` when `n` is negative).
pub open spec fn ld_hl_sp_flags(f: u8, sp: u16, n: u8) -> u8 {
    let computed = if n < 0x80 {
        add_flags(f, sp as u32, n as u32, 0, 65536, 4096)
    } else {
        sub_flags(f, sp as u32, (0x100 - n) as u32, 0, 65536, 4096)
    };
    flags_with(f, false, false, bit_of(computed, 5), bit_of(computed, 4))
}

/// `SP + n` for `n` read as a signed byte, wrapping.
pub open spec fn sp_plus_signed(sp: u16, n: u8) -> u16 {
    if n < 0x80 {
        ((sp + n) % 65536) as u16
    } else {
        wrap_sub(sp as int, 0x100 - n, 65536) as u16
    }
}

/// `LD HL, SP+n` (0xF8): reads the signed byte after the opcode, then sets
/// HL to SP plus it, then finishes.
pub struct LdHlSpN {
    pub counter: u8,
    pub value: u8,
}

impl LdHlSpN {
    pub fn from_opcode(opcode: &u8) -> (r: Option<Self>)
        ensures
            r is Some <==> *opcode == 0xF8,
            r matches Some(i) ==> i == (LdHlSpN { counter: 2, value: 0 }),
    {
        if *opcode == 0xF8 {
            return Some(LdHlSpN { counter: 2, value: 0 });
        }
        None
    }

    pub fn get_opcode(&self) -> (r: u8)
        ensures
            r == 0xF8,
    {
        0xF8
    }

    /// One tick: from this state, registers `r0` and memory `m0`, to state
    /// `next`, registers `r1` and memory `m1`, finishing when `done`.
    pub open spec fn step(
        self,
        next: Self,
        r0: RegistersView,
        r1: RegistersView,
        m0: Seq<u8>,
        m1: Seq<u8>,
        done: bool,
    ) -> bool {
        &&& self.counter == 2 ==> !done &&
            next == (LdHlSpN { counter: 1, value: m0[r0.pc as int], }) &&
            r1 == r0.set_pc(next_pc(r0))
        &&& self.counter == 1 ==> !done && next == (LdHlSpN { counter: 0, ..self }) &&
            (r1 == r0.set16(Reg16::HL, sp_plus_signed(r0.sp, self.value)).set_f(ld_hl_sp_flags(r0.f, r0.sp, self.value)))
        &&& self.counter == 0 ==> done && next == self && r1 == r0
        &&& self.counter > 2 ==> !done &&
            next == (LdHlSpN { counter: (self.counter - 1) as u8, ..self }) && r1 == r0
        &&& m1 == m0
    }

    pub fn act(&mut self, registers: &mut Registers, memory: &Memory) -> (done: bool)
        ensures
            Self::step(*old(self), *final(self), old(registers)@, final(registers)@, memory@, memory@, done),
    {
        if self.counter == 2 {
            self.value = memory.get(registers.pc.get_value());
            registers.pc.increment();
        }
        if self.counter == 1 {
            let ghost f0 = registers.f@;
            let ghost sp = registers.sp@ as u32;
            let mut hl = Register16::new(registers.sp.get_value());
            let mut alu = ALU::new(registers.f);
            if self.value < 0x80 {
                alu.add(&mut hl, &Register16::new(self.value as u16));
                proof {
                    let v = self.value as u32;
                    let z = (sp + v) % 65536 == 0;
                    let h = half_carry_add(sp, v, 0, 4096);
                    let c = sp + v >= 65536;
                    lemma_flags_bits(f0, z, false, h, c, false);
                    lemma_flags_bits(f0, false, false, h, c, false);
                }
            } else {
                alu.sub(&mut hl, &Register16::new(0x100 - (self.value as u16)));
                proof {
                    let v = (0x100 - self.value) as u32;
                    let z = wrap_sub(sp as int, v as int, 65536) == 0;
                    let h = half_borrow_sub(sp, v, 0, 4096);
                    let c = sp < v;
                    lemma_flags_bits(f0, z, true, h, c, false);
                    lemma_flags_bits(f0, false, true, h, c, false);
                }
            }
            registers.set_hl(hl.get_value());
            registers.f = alu.flags;
            registers.f.set_bit(ALU::ZERO_FLAG, false);
            registers.f.set_bit(ALU::SUB_FLAG, false);
        } else if self.counter == 0 {
            return true;
        }
        self.counter = self.counter - 1;
        false
    }
}


/// `LD (nn), A` (0xEA): reads the low then the high byte of an address after
/// the opcode, then writes A there and steps PC once more, then finishes.
pub struct LdNNA {
    pub counter: u8,
    pub address: u16,
}

impl LdNNA {
    pub fn from_opcode(opcode: &u8) -> (r: Option<Self>)
        ensures
            r is Some <==> *opcode == 0xEA,
            r matches Some(i) ==> i == (LdNNA { counter: 3, address: 0 }),
    {
        if *opcode == 0xEA {
            return Some(LdNNA { counter: 3, address: 0 });
        }
        None
    }

    pub fn get_opcode(&self) -> (r: u8)
        ensures
            r == 0xEA,
    {
        0xEA
    }

    /// One tick: from this state, registers `r0` and memory `m0`, to state
    /// `next`, registers `r1` and memory `m1`, finishing when `done`.
    pub open spec fn step(
        self,
        next: Self,
        r0: RegistersView,
        r1: RegistersView,
        m0: Seq<u8>,
        m1: Seq<u8>,
        done: bool,
    ) -> bool {
        &&& self.counter == 3 ==> !done &&
            next == (LdNNA { counter: 2, address: m0[r0.pc as int] as u16, }) &&
            r1 == r0.set_pc(next_pc(r0)) && m1 == m0
        &&& self.counter == 2 ==> !done &&
            next == (LdNNA { counter: 1, address: with_high_byte(self.address, m0[r0.pc as int]), })
            && r1 == r0.set_pc(next_pc(r0)) && m1 == m0
        &&& self.counter == 1 ==> !done && next == (LdNNA { counter: 0, ..self }) &&
            r1 == r0.set_pc(next_pc(r0)) && m1 == m0.update(self.address as int, r0.a)
        &&& self.counter == 0 ==> done && next == self && r1 == r0 && m1 == m0
        &&& self.counter > 3 ==> !done &&
            next == (LdNNA { counter: (self.counter - 1) as u8, ..self }) && r1 == r0 &&
            m1 == m0
    }

    pub fn act(&mut self, registers: &mut Registers, memory: &mut Memory) -> (done: bool)
        ensures
            Self::step(*old(self), *final(self), old(registers)@, final(registers)@, old(memory)@, final(memory)@, done),
    {
        if self.counter == 3 {
            self.address = memory.get(registers.pc.get_value()) as u16;
            registers.pc.increment();
        } else if self.counter == 2 {
            self.address = or_high_byte(self.address, memory.get(registers.pc.get_value()));
            registers.pc.increment();
        } else if self.counter == 1 {
            memory.set(self.address, registers.a.get_value());
            registers.pc.increment();
        } else if self.counter == 0 {
            return true;
        }
        self.counter = self.counter - 1;
        false
    }
}

/// `LD (nn), SP` (0x08): reads the low then the high byte of an address
/// after the opcode, then writes the low byte of SP there and the high byte
/// at the next address, then finishes.
pub struct LdNnSp {
    pub counter: u8,
    pub address: u16,
}

impl LdNnSp {
    pub fn from_opcode(opcode: &u8) -> (r: Option<Self>)
        ensures
            r is Some <==> *opcode == 0x08,
            r matches Some(i) ==> i == (LdNnSp { counter: 4, address: 0 }),
    {
        if *opcode == 0x08 {
            return Some(LdNnSp { counter: 4, address: 0 });
        }
        None
    }

    pub fn get_opcode(&self) -> (r: u8)
        ensures
            r == 0x08,
    {
        0x08
    }

    /// The step that writes the low byte moves the address on by one without
    /// wrapping, so it is not taken at address `0xFFFF`.
    /// One tick: from this state, registers `r0` and memory `m0`, to state
    /// `next`, registers `r1` and memory `m1`, finishing when `done`.
    pub open spec fn step(
        self,
        next: Self,
        r0: RegistersView,
        r1: RegistersView,
        m0: Seq<u8>,
        m1: Seq<u8>,
        done: bool,
    ) -> bool {
        &&& self.counter == 4 ==> !done &&
            next == (LdNnSp { counter: 3, address: m0[r0.pc as int] as u16, }) &&
            r1 == r0.set_pc(next_pc(r0)) && m1 == m0
        &&& self.counter == 3 ==> !done &&
            next == (LdNnSp { counter: 2, address: with_high_byte(self.address, m0[r0.pc as int]), })
            && r1 == r0.set_pc(next_pc(r0)) && m1 == m0
        &&& self.counter == 2 ==> !done &&
            next == (LdNnSp { counter: 1, address: (self.address + 1) as u16, }) && r1 == r0 &&
            m1 == m0.update(self.address as int, (r0.sp % 256) as u8)
        &&& self.counter == 1 ==> !done && next == (LdNnSp { counter: 0, ..self }) && r1 == r0
            && m1 == m0.update(self.address as int, (r0.sp / 256) as u8)
        &&& self.counter == 0 ==> done && next == self && r1 == r0 && m1 == m0
        &&& self.counter > 4 ==> !done &&
            next == (LdNnSp { counter: (self.counter - 1) as u8, ..self }) && r1 == r0 &&
            m1 == m0
    }

    pub fn act(&mut self, registers: &mut Registers, memory: &mut Memory) -> (done: bool)
        requires
            old(self).counter == 2 ==> old(self).address < 0xFFFF,
        ensures
            Self::step(*old(self), *final(self), old(registers)@, final(registers)@, old(memory)@, final(memory)@, done),
    {
        if self.counter == 4 {
            self.address = memory.get(registers.pc.get_value()) as u16;
            registers.pc.increment();
        } else if self.counter == 3 {
            self.address = or_high_byte(self.address, memory.get(registers.pc.get_value()));
            registers.pc.increment();
        } else if self.counter == 2 {
            let sp = registers.sp.get_value();
            memory.set(self.address, (sp & 0x00FF) as u8);
            assert(sp & 0x00FF == sp % 256) by (bit_vector);
            self.address = self.address + 1;
        } else if self.counter == 1 {
            let sp = registers.sp.get_value();
            memory.set(self.address, (sp >> 8) as u8);
            assert(sp >> 8 == sp / 256) by (bit_vector);
        } else if self.counter == 0 {
            return true;
        }
        self.counter = self.counter - 1;
        false
    }
}

/// The pair after one wrapping increment.
pub open spec fn inc16(v: u16) -> u16 {
    ((v + 1) % 65536) as u16
}

/// The pair after one wrapping decrement.
pub open spec fn dec16(v: u16) -> u16 {
    wrap_sub(v as int, 1, 65536) as u16
}

fn increment16(v: u16) -> (r: u16)
    ensures
        r == inc16(v),
{
    v.wrapping_add(1)
}

fn decrement16(v: u16) -> (r: u16)
    ensures
        r == dec16(v),
{
    v.wrapping_sub(1)
}

/// `INC rr` (0x03, 0x13, 0x23, 0x33 for BC, DE, HL, SP): rr += 1 (wrapping,
/// flags untouched) on the first tick, finishing on the next.
pub struct IncRr {
    pub counter: u8,
    pub reg: Reg16,
}

/// `DEC rr` (0x0B, 0x1B, 0x2B, 0x3B for BC, DE, HL, SP): rr -= 1 (wrapping,
/// flags untouched) on the first tick, finishing on the next.
pub struct DecRr {
    pub counter: u8,
    pub reg: Reg16,
}

impl IncRr {
    pub open spec fn spec_opcode(&self) -> u8 {
        (16 * code_of_reg16(self.reg) + 0x03) as u8
    }

    pub fn from_opcode(opcode: &u8) -> (r: Option<Self>)
        ensures
            (r is Some) <==> (*opcode == 0x03 || *opcode == 0x13 || *opcode == 0x23 || *opcode
                == 0x33),
            r matches Some(i) ==> i.spec_opcode() == *opcode && i.counter == 1,
    {
        if *opcode < 0x40 && *opcode % 16 == 0x03 {
            return Some(IncRr { counter: 1, reg: Reg16::from_code(*opcode / 16) });
        }
        None
    }

    pub fn get_opcode(&self) -> (r: u8)
        ensures
            r == self.spec_opcode(),
    {
        16 * self.reg.code() + 0x03
    }

    /// One tick: from this state, registers `r0` and memory `m0`, to state
    /// `next`, registers `r1` and memory `m1`, finishing when `done`.
    pub open spec fn step(
        self,
        next: Self,
        r0: RegistersView,
        r1: RegistersView,
        m0: Seq<u8>,
        m1: Seq<u8>,
        done: bool,
    ) -> bool {
        &&& next.reg == self.reg
        &&& self.counter == 1 ==> !done && next.counter == 0 &&
            r1 == r0.set16(self.reg, inc16(r0.r16(self.reg)))
        &&& self.counter == 0 ==> done && next.counter == 0 && r1 == r0
        &&& self.counter > 1 ==> !done && next.counter == self.counter - 1 && r1 == r0
        &&& m1 == m0
    }

    pub fn act(&mut self, registers: &mut Registers) -> (done: bool)
        ensures
            Self::step(*old(self), *final(self), old(registers)@, final(registers)@, Seq::empty(), Seq::empty(), done),
    {
        if self.counter == 1 {
            let value = increment16(registers.get16(self.reg));
            registers.set16(self.reg, value);
        } else if self.counter == 0 {
            return true;
        }
        self.counter = self.counter - 1;
        false
    }
}

impl DecRr {
    pub open spec fn spec_opcode(&self) -> u8 {
        (16 * code_of_reg16(self.reg) + 0x0B) as u8
    }

    pub fn from_opcode(opcode: &u8) -> (r: Option<Self>)
        ensures
            (r is Some) <==> (*opcode == 0x0B || *opcode == 0x1B || *opcode == 0x2B || *opcode
                == 0x3B),
            r matches Some(i) ==> i.spec_opcode() == *opcode && i.counter == 1,
    {
        if *opcode < 0x40 && *opcode % 16 == 0x0B {
            return Some(DecRr { counter: 1, reg: Reg16::from_code(*opcode / 16) });
        }
        None
    }

    pub fn get_opcode(&self) -> (r: u8)
        ensures
            r == self.spec_opcode(),
    {
        16 * self.reg.code() + 0x0B
    }

    /// One tick: from this state, registers `r0` and memory `m0`, to state
    /// `next`, registers `r1` and memory `m1`, finishing when `done`.
    pub open spec fn step(
        self,
        next: Self,
        r0: RegistersView,
        r1: RegistersView,
        m0: Seq<u8>,
        m1: Seq<u8>,
        done: bool,
    ) -> bool {
        &&& next.reg == self.reg
        &&& self.counter == 1 ==> !done && next.counter == 0 &&
            r1 == r0.set16(self.reg, dec16(r0.r16(self.reg)))
        &&& self.counter == 0 ==> done && next.counter == 0 && r1 == r0
        &&& self.counter > 1 ==> !done && next.counter == self.counter - 1 && r1 == r0
        &&& m1 == m0
    }

    pub fn act(&mut self, registers: &mut Registers) -> (done: bool)
        ensures
            Self::step(*old(self), *final(self), old(registers)@, final(registers)@, Seq::empty(), Seq::empty(), done),
    {
        if self.counter == 1 {
            let value = decrement16(registers.get16(self.reg));
            registers.set16(self.reg, value);
        } else if self.counter == 0 {
            return true;
        }
        self.counter = self.counter - 1;
        false
    }
}

/// The stand-alone `DEC BC` (0x0B). Its tick increments BC (wrapping), and it
/// finishes on the tick after.
pub struct DecBc {
    pub counter: u8,
}

impl DecBc {
    pub fn from_opcode(opcode: &u8) -> (r: Option<Self>)
        ensures
            r is Some <==> *opcode == 0x0B,
            r matches Some(i) ==> i.counter == 1,
    {
        if *opcode == 0x0B {
            return Some(DecBc { counter: 1 });
        }
        None
    }

    pub fn get_opcode(&self) -> (r: u8)
        ensures
            r == 0x0B,
    {
        0x0B
    }

    /// One tick: from this state, registers `r0` and memory `m0`, to state
    /// `next`, registers `r1` and memory `m1`, finishing when `done`.
    pub open spec fn step(
        self,
        next: Self,
        r0: RegistersView,
        r1: RegistersView,
        m0: Seq<u8>,
        m1: Seq<u8>,
        done: bool,
    ) -> bool {
        &&& self.counter == 1 ==> !done && next.counter == 0 &&
            r1 == r0.set16(Reg16::BC, inc16(r0.r16(Reg16::BC)))
        &&& self.counter == 0 ==> done && next.counter == 0 && r1 == r0
        &&& self.counter > 1 ==> !done && next.counter == self.counter - 1 && r1 == r0
        &&& m1 == m0
    }

    pub fn act(&mut self, registers: &mut Registers) -> (done: bool)
        ensures
            Self::step(*old(self), *final(self), old(registers)@, final(registers)@, Seq::empty(), Seq::empty(), done),
    {
        if self.counter == 1 {
            let value = increment16(registers.get_bc());
            registers.set_bc(value);
        } else if self.counter == 0 {
            return true;
        }
        self.counter = self.counter - 1;
        false
    }
}

} // verus!
