use vstd::prelude::*;
use crate::alu::{ALU, add8, add_flags, carry_in, flags_with, half_borrow_sub, half_carry_add, sub8, sub_flags};
use crate::memory::Memory;
use crate::register::{Register, Register16, Register8, bit_of};
use crate::registers::{Reg16, Reg8, Registers, RegistersView, code_of_reg16, code_of_reg8};

verus! {

/// `ADC A, A` (0x8F): A += A + carry.
pub struct AdcAA {}

impl AdcAA {
    pub fn from_opcode(opcode: &u8) -> (r: Option<Self>)
        ensures
            r is Some <==> *opcode == 0x8F,
    {
        if *opcode == 0x8F {
            return Some(AdcAA {});
        }
        None
    }

    pub fn get_opcode(&self) -> (r: u8)
        ensures
            r == 0x8F,
    {
        0x8F
    }

    /// One tick: from this state, registers `r0` and memory `m0`, to state
    /// `next`, registers `r1` and memory `m1`, finishing when `done`.
    pub open spec fn step(
        self,
        next: Self,
        r0: RegistersView,
        r1: RegistersView,
        m0: Seq<u8>,
        m1: Seq<u8>,
        done: bool,
    ) -> bool {
        &&& done
        &&& ({
            let cin = carry_in(bit_of(r0.f, 4));
            r1 == r0.set_a(add8(r0.a, r0.a, cin)).set_f(add_flags(r0.f, r0.a as u32, r0.a as u32, cin, 256, 16))
        })
        &&& m1 == m0
    }

    pub fn act(&mut self, registers: &mut Registers) -> (done: bool)
        ensures
            Self::step(*old(self), *final(self), old(registers)@, final(registers)@, Seq::empty(), Seq::empty(), done),
    {
        let fake_register = Register8::new(registers.a.get_value());
        let mut alu = ALU::new(registers.f);
        alu.adc(&mut registers.a, &fake_register);
        registers.f = alu.flags;

        true
    }
}

/// `AND A, A` (0xA7): A becomes `A + A`, wrapping (0x12 gives 0x24); the
/// flags are those of an AND of the new A with itself: Z from the new A, N
/// reset, H set, C reset.
pub struct AndAA {}

impl AndAA {
    pub fn from_opcode(opcode: &u8) -> (r: Option<Self>)
        ensures
            r is Some <==> *opcode == 0xA7,
    {
        if *opcode == 0xA7 {
            return Some(AndAA {});
        }
        None
    }

    pub fn get_opcode(&self) -> (r: u8)
        ensures
            r == 0xA7,
    {
        0xA7
    }

    /// One tick: from this state, registers `r0` and memory `m0`, to state
    /// `next`, registers `r1` and memory `m1`, finishing when `done`.
    pub open spec fn step(
        self,
        next: Self,
        r0: RegistersView,
        r1: RegistersView,
        m0: Seq<u8>,
        m1: Seq<u8>,
        done: bool,
    ) -> bool {
        &&& done
        &&& ({
            let v = add8(r0.a, r0.a, 0);
            r1 == r0.set_a(v).set_f(flags_with(r0.f, v == 0, false, true, false))
        })
        &&& m1 == m0
    }

    pub fn act(&mut self, registers: &mut Registers) -> (done: bool)
        ensures
            Self::step(*old(self), *final(self), old(registers)@, final(registers)@, Seq::empty(), Seq::empty(), done),
    {
        let a = registers.a.get_value();
        let doubled = Register8::new(a.wrapping_add(a));
        registers.a = doubled;
        let mut alu = ALU::new(registers.f);
        alu.and(&mut registers.a, &doubled);
        registers.f = alu.flags;
        proof {
            let x = doubled@;
            assert((x as u32) & (x as u32) == x as u32) by (bit_vector);
        }

        true
    }
}

/// `ADD A, r` (0x80 to 0x85 for B, C, D, E, H, L): A += r.
pub struct AddAR {
    pub reg: Reg8,
}

/// `ADC A, r` (0x88 to 0x8D for B, C, D, E, H, L): A += r + carry.
pub struct AdcAR {
    pub reg: Reg8,
}

/// `AND A, r` (0xA0 to 0xA5 for B, C, D, E, H, L): A &= r.
pub struct AndAR {
    pub reg: Reg8,
}

impl AddAR {
    pub open spec fn spec_opcode(&self) -> u8 {
        (0x80 + code_of_reg8(self.reg)) as u8
    }

    pub fn from_opcode(opcode: &u8) -> (r: Option<Self>)
        ensures
            (r is Some) <==> (0x80 <= *opcode && *opcode <= 0x85),
            r matches Some(i) ==> i.spec_opcode() == *opcode,
    {
        match Reg8::from_offset(*opcode, 0x80) {
            Some(reg) => Some(AddAR { reg }),
            None => None,
        }
    }

    pub fn get_opcode(&self) -> (r: u8)
        ensures
            r == self.spec_opcode(),
    {
        0x80 + self.reg.code()
    }

    /// One tick: from this state, registers `r0` and memory `m0`, to state
    /// `next`, registers `r1` and memory `m1`, finishing when `done`.
    pub open spec fn step(
        self,
        next: Self,
        r0: RegistersView,
        r1: RegistersView,
        m0: Seq<u8>,
        m1: Seq<u8>,
        done: bool,
    ) -> bool {
        &&& done
        &&& ({
            let v = r0.r8(self.reg);
            r1 == r0.set_a(add8(r0.a, v, 0)).set_f(add_flags(r0.f, r0.a as u32, v as u32, 0, 256, 16))
        })
        &&& m1 == m0
    }

    pub fn act(&mut self, registers: &mut Registers) -> (done: bool)
        ensures
            Self::step(*old(self), *final(self), old(registers)@, final(registers)@, Seq::empty(), Seq::empty(), done),
    {
        let value = Register8::new(registers.get8(self.reg));
        let mut alu = ALU::new(registers.f);
        alu.add(&mut registers.a, &value);
        registers.f = alu.flags;

        true
    }
}

impl AdcAR {
    pub open spec fn spec_opcode(&self) -> u8 {
        (0x88 + code_of_reg8(self.reg)) as u8
    }

    pub fn from_opcode(opcode: &u8) -> (r: Option<Self>)
        ensures
            (r is Some) <==> (0x88 <= *opcode && *opcode <= 0x8D),
            r matches Some(i) ==> i.spec_opcode() == *opcode,
    {
        match Reg8::from_offset(*opcode, 0x88) {
            Some(reg) => Some(AdcAR { reg }),
            None => None,
        }
    }

    pub fn get_opcode(&self) -> (r: u8)
        ensures
            r == self.spec_opcode(),
    {
        0x88 + self.reg.code()
    }

    /// One tick: from this state, registers `r0` and memory `m0`, to state
    /// `next`, registers `r1` and memory `m1`, finishing when `done`.
    pub open spec fn step(
        self,
        next: Self,
        r0: RegistersView,
        r1: RegistersView,
        m0: Seq<u8>,
        m1: Seq<u8>,
        done: bool,
    ) -> bool {
        &&& done
        &&& ({
            let v = r0.r8(self.reg);
            let cin = carry_in(bit_of(r0.f, 4));
            r1 == r0.set_a(add8(r0.a, v, cin)).set_f(add_flags(r0.f, r0.a as u32, v as u32, cin, 256, 16))
        })
        &&& m1 == m0
    }

    pub fn act(&mut self, registers: &mut Registers) -> (done: bool)
        ensures
            Self::step(*old(self), *final(self), old(registers)@, final(registers)@, Seq::empty(), Seq::empty(), done),
    {
        let value = Register8::new(registers.get8(self.reg));
        let mut alu = ALU::new(registers.f);
        alu.adc(&mut registers.a, &value);
        registers.f = alu.flags;

        true
    }
}

impl AndAR {
    pub open spec fn spec_opcode(&self) -> u8 {
        (0xA0 + code_of_reg8(self.reg)) as u8
    }

    pub fn from_opcode(opcode: &u8) -> (r: Option<Self>)
        ensures
            (r is Some) <==> (0xA0 <= *opcode && *opcode <= 0xA5),
            r matches Some(i) ==> i.spec_opcode() == *opcode,
    {
        match Reg8::from_offset(*opcode, 0xA0) {
            Some(reg) => Some(AndAR { reg }),
            None => None,
        }
    }

    pub fn get_opcode(&self) -> (r: u8)
        ensures
            r == self.spec_opcode(),
    {
        0xA0 + self.reg.code()
    }

    /// One tick: from this state, registers `r0` and memory `m0`, to state
    /// `next`, registers `r1` and memory `m1`, finishing when `done`.
    pub open spec fn step(
        self,
        next: Self,
        r0: RegistersView,
        r1: RegistersView,
        m0: Seq<u8>,
        m1: Seq<u8>,
        done: bool,
    ) -> bool {
        &&& done
        &&& ({
            let v = r0.r8(self.reg);
            r1 == r0.set_a(r0.a & v).set_f(flags_with(r0.f, r0.a & v == 0, false, true, false))
        })
        &&& m1 == m0
    }

    pub fn act(&mut self, registers: &mut Registers) -> (done: bool)
        ensures
            Self::step(*old(self), *final(self), old(registers)@, final(registers)@, Seq::empty(), Seq::empty(), done),
    {
        let value = Register8::new(registers.get8(self.reg));
        let mut alu = ALU::new(registers.f);
        alu.and(&mut registers.a, &value);
        registers.f = alu.flags;
        proof {
            let x = old(registers)@.a;
            let y = value@;
            assert((x as u32) & (y as u32) == (x & y) as u32) by (bit_vector);
        }

        true
    }
}


/// `CP A, A` (0xBF): compares A with itself, setting the flags of `A - A`.
pub struct CpAA {}

impl CpAA {
    pub fn from_opcode(opcode: &u8) -> (r: Option<Self>)
        ensures
            r is Some <==> *opcode == 0xBF,
    {
        if *opcode == 0xBF {
            return Some(CpAA {});
        }
        None
    }

    pub fn get_opcode(&self) -> (r: u8)
        ensures
            r == 0xBF,
    {
        0xBF
    }

    /// One tick: from this state, registers `r0` and memory `m0`, to state
    /// `next`, registers `r1` and memory `m1`, finishing when `done`.
    pub open spec fn step(
        self,
        next: Self,
        r0: RegistersView,
        r1: RegistersView,
        m0: Seq<u8>,
        m1: Seq<u8>,
        done: bool,
    ) -> bool {
        &&& done
        &&& (r1 == r0.set_f(sub_flags(r0.f, r0.a as u32, r0.a as u32, 0, 256, 16)))
        &&& m1 == m0
    }

    pub fn act(&mut self, registers: &mut Registers) -> (done: bool)
        ensures
            Self::step(*old(self), *final(self), old(registers)@, final(registers)@, Seq::empty(), Seq::empty(), done),
    {
        let mut copy = Register8::new(registers.a.get_value());
        let mut alu = ALU::new(registers.f);
        alu.sub(&mut copy, &registers.a);
        registers.f = alu.flags;

        true
    }
}

/// `CP A, r` (0xB8 to 0xBD for B, C, D, E, H, L): compares A with r, setting
/// the flags of `A - r` and leaving A as it was.
pub struct CpAR {
    pub reg: Reg8,
}

impl CpAR {
    pub open spec fn spec_opcode(&self) -> u8 {
        (0xB8 + code_of_reg8(self.reg)) as u8
    }

    pub fn from_opcode(opcode: &u8) -> (r: Option<Self>)
        ensures
            (r is Some) <==> (0xB8 <= *opcode && *opcode <= 0xBD),
            r matches Some(i) ==> i.spec_opcode() == *opcode,
    {
        match Reg8::from_offset(*opcode, 0xB8) {
            Some(reg) => Some(CpAR { reg }),
            None => None,
        }
    }

    pub fn get_opcode(&self) -> (r: u8)
        ensures
            r == self.spec_opcode(),
    {
        0xB8 + self.reg.code()
    }

    /// One tick: from this state, registers `r0` and memory `m0`, to state
    /// `next`, registers `r1` and memory `m1`, finishing when `done`.
    pub open spec fn step(
        self,
        next: Self,
        r0: RegistersView,
        r1: RegistersView,
        m0: Seq<u8>,
        m1: Seq<u8>,
        done: bool,
    ) -> bool {
        &&& done
        &&& r1 == r0.set_f(sub_flags(r0.f, r0.a as u32, r0.r8(self.reg) as u32, 0, 256, 16))
        &&& m1 == m0
    }

    pub fn act(&mut self, registers: &mut Registers) -> (done: bool)
        ensures
            Self::step(
                *old(self),
                *final(self),
                old(registers)@,
                final(registers)@,
                Seq::empty(),
                Seq::empty(),
                done,
            ),
    {
        let value = Register8::new(registers.get8(self.reg));
        let mut copy = Register8::new(registers.a.get_value());
        let mut alu = ALU::new(registers.f);
        alu.sub(&mut copy, &value);
        registers.f = alu.flags;

        true
    }
}

/// `CP A, (HL)` (0xBE): reads the byte at HL on the first tick, then sets the
/// flags of `A - byte` and finishes.
pub struct CpAHl {
    pub counter: u8,
    pub value: u8,
}

impl CpAHl {
    pub fn from_opcode(opcode: &u8) -> (r: Option<Self>)
        ensures
            r is Some <==> *opcode == 0xBE,
            r matches Some(i) ==> i == (CpAHl { counter: 1, value: 1 }),
    {
        if *opcode == 0xBE {
            return Some(CpAHl { counter: 1, value: 1 });
        }
        None
    }

    pub fn get_opcode(&self) -> (r: u8)
        ensures
            r == 0xBE,
    {
        0xBE
    }

    /// One tick: from this state, registers `r0` and memory `m0`, to state
    /// `next`, registers `r1` and memory `m1`, finishing when `done`.
    pub open spec fn step(
        self,
        next: Self,
        r0: RegistersView,
        r1: RegistersView,
        m0: Seq<u8>,
        m1: Seq<u8>,
        done: bool,
    ) -> bool {
        &&& self.counter == 1 ==> !done &&
            next == (CpAHl { counter: 0, value: m0[r0.hl() as int], }) && r1 == r0
        &&& self.counter == 0 ==> done && next == self &&
            (r1 == r0.set_f(sub_flags(r0.f, r0.a as u32, self.value as u32, 0, 256, 16)))
        &&& self.counter > 1 ==> !done &&
            next == (CpAHl { counter: (self.counter - 1) as u8, ..self }) && r1 == r0
        &&& m1 == m0
    }

    pub fn act(&mut self, registers: &mut Registers, memory: &Memory) -> (done: bool)
        ensures
            Self::step(*old(self), *final(self), old(registers)@, final(registers)@, memory@, memory@, done),
    {
        if self.counter == 1 {
            self.value = memory.get(registers.get_hl());
        } else if self.counter == 0 {
            let mut copy = Register8::new(registers.a.get_value());
            let value = Register8::new(self.value);
            let mut alu = ALU::new(registers.f);
            alu.sub(&mut copy, &value);
            registers.f = alu.flags;

            return true;
        }
        self.counter = self.counter - 1;
        false
    }
}

/// `INC r` (0x04, 0x0C, 0x14, 0x1C, 0x24, 0x2C, 0x3C for B, C, D, E, H, L,
/// A): r += 1, leaving the carry flag alone.
pub struct IncR {
    pub reg: Reg8,
}

/// `DEC r` (0x05, 0x0D, 0x15, 0x1D, 0x25, 0x2D, 0x3D for B, C, D, E, H, L,
/// A): r -= 1, leaving the carry flag alone.
pub struct DecR {
    pub reg: Reg8,
}

/// The register named by bits 3 to 5 of `opcode`, when its low three bits are
/// `low` and it is below 0x40.
fn reg_in_column(opcode: u8, low: u8) -> (r: Option<Reg8>)
    requires
        low < 8,
    ensures
        (r is Some) <==> (opcode < 0x40 && opcode % 8 == low && opcode / 8 != 6),
        r matches Some(reg) ==> 8 * code_of_reg8(reg) + low == opcode,
{
    if opcode < 0x40 && opcode % 8 == low {
        Reg8::from_code(opcode / 8)
    } else {
        None
    }
}

impl IncR {
    pub open spec fn spec_opcode(&self) -> u8 {
        (8 * code_of_reg8(self.reg) + 4) as u8
    }

    pub fn from_opcode(opcode: &u8) -> (r: Option<Self>)
        ensures
            (r is Some) <==> (*opcode < 0x40 && *opcode % 8 == 4 && *opcode != 0x34),
            r matches Some(i) ==> i.spec_opcode() == *opcode,
    {
        match reg_in_column(*opcode, 4) {
            Some(reg) => Some(IncR { reg }),
            None => None,
        }
    }

    pub fn get_opcode(&self) -> (r: u8)
        ensures
            r == self.spec_opcode(),
    {
        8 * self.reg.code() + 4
    }

    /// One tick: from this state, registers `r0` and memory `m0`, to state
    /// `next`, registers `r1` and memory `m1`, finishing when `done`.
    pub open spec fn step(
        self,
        next: Self,
        r0: RegistersView,
        r1: RegistersView,
        m0: Seq<u8>,
        m1: Seq<u8>,
        done: bool,
    ) -> bool {
        &&& done
        &&& ({
            let v = r0.r8(self.reg);
            let result = add8(v, 1, 0);
            r1 == r0.set8(self.reg, result).set_f(flags_with(r0.f, result == 0, false, half_carry_add(v as u32, 1, 0, 16), bit_of(r0.f, 4)))
        })
        &&& m1 == m0
    }

    pub fn act(&mut self, registers: &mut Registers) -> (done: bool)
        ensures
            Self::step(*old(self), *final(self), old(registers)@, final(registers)@, Seq::empty(), Seq::empty(), done),
    {
        let mut value = Register8::new(registers.get8(self.reg));
        let mut alu = ALU::new(registers.f);
        alu.add_no_carry(&mut value, &Register8::one());
        registers.set8(self.reg, value.get_value());
        registers.f = alu.flags;

        true
    }
}

impl DecR {
    pub open spec fn spec_opcode(&self) -> u8 {
        (8 * code_of_reg8(self.reg) + 5) as u8
    }

    pub fn from_opcode(opcode: &u8) -> (r: Option<Self>)
        ensures
            (r is Some) <==> (*opcode < 0x40 && *opcode % 8 == 5 && *opcode != 0x35),
            r matches Some(i) ==> i.spec_opcode() == *opcode,
    {
        match reg_in_column(*opcode, 5) {
            Some(reg) => Some(DecR { reg }),
            None => None,
        }
    }

    pub fn get_opcode(&self) -> (r: u8)
        ensures
            r == self.spec_opcode(),
    {
        8 * self.reg.code() + 5
    }

    /// One tick: from this state, registers `r0` and memory `m0`, to state
    /// `next`, registers `r1` and memory `m1`, finishing when `done`.
    pub open spec fn step(
        self,
        next: Self,
        r0: RegistersView,
        r1: RegistersView,
        m0: Seq<u8>,
        m1: Seq<u8>,
        done: bool,
    ) -> bool {
        &&& done
        &&& ({
            let v = r0.r8(self.reg);
            let result = sub8(v, 1, 0);
            r1 == r0.set8(self.reg, result).set_f(flags_with(r0.f, result == 0, true, half_borrow_sub(v as u32, 1, 0, 16), bit_of(r0.f, 4)))
        })
        &&& m1 == m0
    }

    pub fn act(&mut self, registers: &mut Registers) -> (done: bool)
        ensures
            Self::step(*old(self), *final(self), old(registers)@, final(registers)@, Seq::empty(), Seq::empty(), done),
    {
        let mut value = Register8::new(registers.get8(self.reg));
        let mut alu = ALU::new(registers.f);
        alu.sub_no_carry(&mut value, &Register8::one());
        registers.set8(self.reg, value.get_value());
        registers.f = alu.flags;

        true
    }
}

/// `INC (HL)` (0x34): reads the byte at HL, increments it (leaving the carry
/// flag alone) and writes it back, one step per tick.
pub struct IncHlAddr {
    pub counter: u8,
    pub value_register: Register8,
}

impl IncHlAddr {
    pub fn from_opcode(opcode: &u8) -> (r: Option<Self>)
        ensures
            r is Some <==> *opcode == 0x34,
            r matches Some(i) ==> i.counter == 2 && i.value_register@ == 0,
    {
        if *opcode == 0x34 {
            return Some(IncHlAddr { counter: 2, value_register: Register8::new(0x00) });
        }
        None
    }

    pub fn get_opcode(&self) -> (r: u8)
        ensures
            r == 0x34,
    {
        0x34
    }

    /// One tick: from this state, registers `r0` and memory `m0`, to state
    /// `next`, registers `r1` and memory `m1`, finishing when `done`.
    pub open spec fn step(
        self,
        next: Self,
        r0: RegistersView,
        r1: RegistersView,
        m0: Seq<u8>,
        m1: Seq<u8>,
        done: bool,
    ) -> bool {
        &&& self.counter == 2 ==> !done && next.counter == 1 &&
            next.value_register@ == m0[r0.hl() as int] && r1 == r0 && m1 == m0
        &&& self.counter == 1 ==> !done && next.counter == 0 && m1 == m0 && ({
            let v = self.value_register@;
            let result = add8(v, 1, 0);
            &&& next.value_register@ == result
            &&& r1 == r0.set_f(
                flags_with(r0.f, result == 0, false, half_carry_add(v as u32, 1, 0, 16), bit_of(r0.f, 4)),
            )
        })
        &&& self.counter == 0 ==> done && next.counter == 0 &&
            next.value_register@ == self.value_register@ && r1 == r0 &&
            m1 == m0.update(r0.hl() as int, self.value_register@)
        &&& self.counter > 2 ==> !done && next.counter == self.counter - 1 &&
            next.value_register@ == self.value_register@ && r1 == r0 && m1 == m0
    }

    pub fn act(&mut self, registers: &mut Registers, memory: &mut Memory) -> (done: bool)
        ensures
            Self::step(*old(self), *final(self), old(registers)@, final(registers)@, old(memory)@, final(memory)@, done),
    {
        if self.counter == 2 {
            self.value_register.set_value(memory.get(registers.get_hl()));
        } else if self.counter == 1 {
            let mut alu = ALU::new(registers.f);
            alu.add_no_carry(&mut self.value_register, &Register8::one());
            registers.f = alu.flags;
        } else if self.counter == 0 {
            memory.set(registers.get_hl(), self.value_register.get_value());
            return true;
        }
        self.counter = self.counter - 1;
        false
    }
}

/// `ADD HL, rr` (0x09, 0x19, 0x29, 0x39 for BC, DE, HL, SP): HL += rr on the
/// first tick, finishing on the next.
pub struct AddHlRr {
    pub counter: u8,
    pub reg: Reg16,
}

impl AddHlRr {
    pub open spec fn spec_opcode(&self) -> u8 {
        (16 * code_of_reg16(self.reg) + 0x09) as u8
    }

    pub fn from_opcode(opcode: &u8) -> (r: Option<Self>)
        ensures
            (r is Some) <==> (*opcode == 0x09 || *opcode == 0x19 || *opcode == 0x29 || *opcode
                == 0x39),
            r matches Some(i) ==> i.spec_opcode() == *opcode && i.counter == 1,
    {
        if *opcode < 0x40 && *opcode % 16 == 0x09 {
            return Some(AddHlRr { counter: 1, reg: Reg16::from_code(*opcode / 16) });
        }
        None
    }

    pub fn get_opcode(&self) -> (r: u8)
        ensures
            r == self.spec_opcode(),
    {
        16 * self.reg.code() + 0x09
    }

    /// One tick: from this state, registers `r0` and memory `m0`, to state
    /// `next`, registers `r1` and memory `m1`, finishing when `done`.
    pub open spec fn step(
        self,
        next: Self,
        r0: RegistersView,
        r1: RegistersView,
        m0: Seq<u8>,
        m1: Seq<u8>,
        done: bool,
    ) -> bool {
        &&& self.counter == 1 ==> !done && next == (AddHlRr { counter: 0, ..self }) &&
            ({
                let hl = r0.hl();
                let v = r0.r16(self.reg);
                r1 == r0.set16(Reg16::HL, ((hl + v) % 65536) as u16).set_f(add_flags(r0.f, hl as u32, v as u32, 0, 65536, 4096))
            })
        &&& self.counter == 0 ==> done && next == self && r1 == r0
        &&& self.counter > 1 ==> !done &&
            next == (AddHlRr { counter: (self.counter - 1) as u8, ..self }) && r1 == r0
        &&& m1 == m0
    }

    pub fn act(&mut self, registers: &mut Registers) -> (done: bool)
        ensures
            Self::step(*old(self), *final(self), old(registers)@, final(registers)@, Seq::empty(), Seq::empty(), done),
    {
        if self.counter == 1 {
            let temp_register = Register16::new(registers.get16(self.reg));
            let mut hl = Register16::new(registers.get_hl());
            let mut alu = ALU::new(registers.f);
            alu.add(&mut hl, &temp_register);
            registers.set_hl(hl.get_value());
            registers.f = alu.flags;
        } else if self.counter == 0 {
            return true;
        }
        self.counter = self.counter - 1;
        false
    }
}

} // verus!
