use vstd::prelude::*;
use crate::alu::{ALU, flags_with, lemma_flags_bits, lemma_flags_decompose};
use crate::register::{bit_of, wrap_sub};
use crate::registers::{Registers, RegistersView};

verus! {

/// `NOP` (0x00): does nothing and finishes at once.
pub struct Nop {}

impl Nop {
    pub fn from_opcode(opcode: &u8) -> (r: Option<Self>)
        ensures
            r is Some <==> *opcode == 0x00,
    {
        if *opcode == 0x00 {
            return Some(Nop {});
        }
        None
    }

    pub fn get_opcode(&self) -> (r: u8)
        ensures
            r == 0x00,
    {
        0x00
    }

    pub fn act(&mut self) -> (done: bool)
        ensures
            done,
    {
        true
    }
}

/// `DI` (0xF3): disables interrupts and finishes at once.
pub struct Di {}

impl Di {
    pub fn from_opcode(opcode: &u8) -> (r: Option<Self>)
        ensures
            r is Some <==> *opcode == 0xF3,
    {
        if *opcode == 0xF3 {
            return Some(Di {});
        }
        None
    }

    pub fn get_opcode(&self) -> (r: u8)
        ensures
            r == 0xF3,
    {
        0xF3
    }

    pub fn act(&mut self, enable_interrupts: &mut bool) -> (done: bool)
        ensures
            done,
            !*final(enable_interrupts),
    {
        *enable_interrupts = false;
        true
    }
}

/// `EI` (0xFB): enables interrupts and finishes at once.
pub struct Ei {}

impl Ei {
    pub fn from_opcode(opcode: &u8) -> (r: Option<Self>)
        ensures
            r is Some <==> *opcode == 0xFB,
    {
        if *opcode == 0xFB {
            return Some(Ei {});
        }
        None
    }

    pub fn get_opcode(&self) -> (r: u8)
        ensures
            r == 0xFB,
    {
        0xFB
    }

    pub fn act(&mut self, enable_interrupts: &mut bool) -> (done: bool)
        ensures
            done,
            *final(enable_interrupts),
    {
        *enable_interrupts = true;
        true
    }
}

/// `HALT` (0x76): halts the CPU and finishes at once.
pub struct Halt {}

impl Halt {
    pub fn from_opcode(opcode: &u8) -> (r: Option<Self>)
        ensures
            r is Some <==> *opcode == 0x76,
    {
        if *opcode == 0x76 {
            return Some(Halt {});
        }
        None
    }

    pub fn get_opcode(&self) -> (r: u8)
        ensures
            r == 0x76,
    {
        0x76
    }

    pub fn act(&mut self, is_halted: &mut bool) -> (done: bool)
        ensures
            done,
            *final(is_halted),
    {
        *is_halted = true;
        true
    }
}

/// `CCF` (0x3F): complements the carry flag, resets N and H.
pub struct Ccf {}

impl Ccf {
    pub fn from_opcode(opcode: &u8) -> (r: Option<Self>)
        ensures
            r is Some <==> *opcode == 0x3F,
    {
        if *opcode == 0x3F {
            return Some(Ccf {});
        }
        None
    }

    pub fn get_opcode(&self) -> (r: u8)
        ensures
            r == 0x3F,
    {
        0x3F
    }

    /// One tick: from this state, registers `r0` and memory `m0`, to state
    /// `next`, registers `r1` and memory `m1`, finishing when `done`.
    pub open spec fn step(
        self,
        next: Self,
        r0: RegistersView,
        r1: RegistersView,
        m0: Seq<u8>,
        m1: Seq<u8>,
        done: bool,
    ) -> bool {
        &&& done
        &&& r1 == r0.set_f(flags_with(r0.f, bit_of(r0.f, 7), false, false, !bit_of(r0.f, 4)))
        &&& m1 == m0
    }

    pub fn act(&mut self, registers: &mut Registers) -> (done: bool)
        ensures
            Self::step(*old(self), *final(self), old(registers)@, final(registers)@, Seq::empty(), Seq::empty(), done),
    {
        let ghost f0 = registers.f@;
        let ghost z0 = bit_of(f0, 7);
        let carry_flag = registers.f.get_bit(ALU::CARRY_FLAG);
        proof {
            lemma_flags_decompose(f0);
            lemma_flags_bits(f0, z0, bit_of(f0, 6), bit_of(f0, 5), carry_flag, false);
            lemma_flags_bits(f0, z0, false, bit_of(f0, 5), carry_flag, false);
            lemma_flags_bits(f0, z0, false, false, carry_flag, !carry_flag);
        }
        registers.f.set_bit(ALU::SUB_FLAG, false);
        registers.f.set_bit(ALU::HALF_CARRY_FLAG, false);
        registers.f.set_bit(ALU::CARRY_FLAG, !carry_flag);

        true
    }
}

/// `CPL A` (0x2F): complements every bit of A, sets N and H.
pub struct CplA {}

impl CplA {
    pub fn from_opcode(opcode: &u8) -> (r: Option<Self>)
        ensures
            r is Some <==> *opcode == 0x2F,
    {
        if *opcode == 0x2F {
            return Some(CplA {});
        }
        None
    }

    pub fn get_opcode(&self) -> (r: u8)
        ensures
            r == 0x2F,
    {
        0x2F
    }

    /// One tick: from this state, registers `r0` and memory `m0`, to state
    /// `next`, registers `r1` and memory `m1`, finishing when `done`.
    pub open spec fn step(
        self,
        next: Self,
        r0: RegistersView,
        r1: RegistersView,
        m0: Seq<u8>,
        m1: Seq<u8>,
        done: bool,
    ) -> bool {
        &&& done
        &&& r1 == r0.set_a(!r0.a).set_f(flags_with(r0.f, bit_of(r0.f, 7), true, true, bit_of(r0.f, 4)))
        &&& m1 == m0
    }

    pub fn act(&mut self, registers: &mut Registers) -> (done: bool)
        ensures
            Self::step(*old(self), *final(self), old(registers)@, final(registers)@, Seq::empty(), Seq::empty(), done),
    {
        let ghost f0 = registers.f@;
        let new_value = !registers.a.get_value();
        registers.a.set_value(new_value);

        proof {
            lemma_flags_decompose(f0);
            lemma_flags_bits(f0, bit_of(f0, 7), bit_of(f0, 6), bit_of(f0, 5), bit_of(f0, 4), true);
            lemma_flags_bits(f0, bit_of(f0, 7), bit_of(f0, 6), true, bit_of(f0, 4), true);
        }
        registers.f.set_bit(ALU::HALF_CARRY_FLAG, true);
        registers.f.set_bit(ALU::SUB_FLAG, true);

        true
    }
}

/// The correction `DAA` adds to (or, after a subtraction, takes from) A.
pub open spec fn daa_offset(a: u8, n: bool, h: bool, c: bool) -> u8 {
    (if (!n && (a & 0x0Fu8) > 0x09) || h {
        0x06u8
    } else {
        0u8
    }) | (if (!n && a > 0x99) || c {
        0x60u8
    } else {
        0u8
    })
}

/// A after `DAA`.
pub open spec fn daa_value(a: u8, n: bool, h: bool, c: bool) -> u8 {
    if !n {
        ((a + daa_offset(a, n, h, c)) % 256) as u8
    } else {
        wrap_sub(a as int, daa_offset(a, n, h, c) as int, 256) as u8
    }
}

/// `DAA` (0x27): adjusts A to binary coded decimal after an addition or a
/// subtraction.
pub struct DAA {}

impl DAA {
    pub fn from_opcode(opcode: &u8) -> (r: Option<Self>)
        ensures
            r is Some <==> *opcode == 0x27,
    {
        if *opcode == 0x27 {
            return Some(DAA {});
        }
        None
    }

    pub fn get_opcode(&self) -> (r: u8)
        ensures
            r == 0x27,
    {
        0x27
    }

    /// A becomes [`daa_value`]; Z from the new A, N kept, H reset, and C set
    /// when the high digit was corrected (it is never reset).
    /// One tick: from this state, registers `r0` and memory `m0`, to state
    /// `next`, registers `r1` and memory `m1`, finishing when `done`.
    pub open spec fn step(
        self,
        next: Self,
        r0: RegistersView,
        r1: RegistersView,
        m0: Seq<u8>,
        m1: Seq<u8>,
        done: bool,
    ) -> bool {
        &&& done
        &&& ({
            let n = bit_of(r0.f, 6);
            let h = bit_of(r0.f, 5);
            let c = bit_of(r0.f, 4);
            let v = daa_value(r0.a, n, h, c);
            r1 == r0.set_a(v).set_f(flags_with(r0.f, v == 0, n, false, c || (!n && r0.a > 0x99)))
        })
        &&& m1 == m0
    }

    pub fn act(&mut self, registers: &mut Registers) -> (done: bool)
        ensures
            Self::step(*old(self), *final(self), old(registers)@, final(registers)@, Seq::empty(), Seq::empty(), done),
    {
        let ghost f0 = registers.f@;
        let mut offset: u8 = 0;

        let a_value = registers.a.get_value();
        let half_carry = registers.f.get_bit(ALU::HALF_CARRY_FLAG);
        let carry = registers.f.get_bit(ALU::CARRY_FLAG);
        let subtract = registers.f.get_bit(ALU::SUB_FLAG);
        let ghost z0 = bit_of(f0, 7);
        proof {
            lemma_flags_decompose(f0);
        }

        assert(0u8 | 0x06u8 == 0x06u8) by (bit_vector);
        if ((!subtract) && ((a_value & 0xF) > 0x09)) || half_carry {
            offset = offset | 0x06;
        }
        let ghost o1 = offset;

        if ((!subtract) && (a_value > 0x99)) || carry {
            offset = offset | 0x60;
            proof {
                lemma_flags_bits(f0, z0, subtract, half_carry, carry, true);
            }
            registers.f.set_bit(ALU::CARRY_FLAG, true);
        }
        let ghost c1 = carry || (!subtract && a_value > 0x99);
        assert(offset == daa_offset(a_value, subtract, half_carry, carry)) by (bit_vector)
            requires
                o1 == (if (!subtract && (a_value & 0x0Fu8) > 0x09) || half_carry {
                    0x06u8
                } else {
                    0u8
                }),
                offset == (if (!subtract && a_value > 0x99) || carry {
                    o1 | 0x60u8
                } else {
                    o1
                }),
        ;

        let mut a_register = registers.a;
        if !subtract {
            a_register.wrapping_add_u8(offset);
        } else {
            a_register.wrapping_sub_u8(offset);
        }
        registers.a = a_register;

        proof {
            lemma_flags_bits(f0, z0, subtract, half_carry, c1, false);
        }
        registers.f.set_bit(ALU::HALF_CARRY_FLAG, false);
        let zero = registers.a.get_value() == 0;
        proof {
            lemma_flags_bits(f0, z0, subtract, false, c1, zero);
        }
        registers.f.set_bit(ALU::ZERO_FLAG, zero);

        true
    }
}

/// An opcode with no instruction: it never finishes, so the CPU stays on it.
pub struct BadInstruction {
    pub opcode: u8,
}

impl BadInstruction {
    /// Accepts every opcode.
    pub fn from_opcode(opcode: &u8) -> (r: Option<Self>)
        ensures
            r == Some(BadInstruction { opcode: *opcode }),
    {
        Some(Self { opcode: *opcode })
    }

    pub fn get_opcode(&self) -> (r: u8)
        ensures
            r == self.opcode,
    {
        self.opcode
    }

    /// Never finishes and changes nothing.
    pub fn act(&mut self) -> (done: bool)
        ensures
            !done,
            *final(self) == *old(self),
    {
        false
    }

    /// The address the opcode was fetched from: one before the program
    /// counter, wrapping.
    pub fn fault_address(&self, registers: &Registers) -> (r: u16)
        ensures
            r == wrap_sub(registers@.pc as int, 1, 65536),
    {
        registers.pc.get_value().wrapping_sub(1)
    }
}

} // verus!
