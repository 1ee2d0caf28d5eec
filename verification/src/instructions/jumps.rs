use vstd::prelude::*;
use crate::alu::ALU;
use crate::instructions::loads::{next_pc, with_high_byte};
use crate::memory::Memory;
use crate::register::{bit_of, wrap_sub};
use crate::registers::{Registers, RegistersView, pair};

verus! {

/// A branch condition on the zero or carry flag.
#[derive(Clone, Copy, Debug, PartialEq, Eq, Structural)]
pub enum Cond {
    /// Zero flag reset.
    NZ,
    /// Zero flag set.
    Z,
    /// Carry flag reset.
    NC,
    /// Carry flag set.
    C,
}

/// Whether condition `cond` holds for the flag byte `f`.
pub open spec fn cond_holds(cond: Cond, f: u8) -> bool {
    match cond {
        Cond::NZ => !bit_of(f, 7),
        Cond::Z => bit_of(f, 7),
        Cond::NC => !bit_of(f, 4),
        Cond::C => bit_of(f, 4),
    }
}

/// The position of `cond` among NZ, Z, NC, C.
pub open spec fn cond_index(cond: Cond) -> u8 {
    match cond {
        Cond::NZ => 0,
        Cond::Z => 1,
        Cond::NC => 2,
        Cond::C => 3,
    }
}

impl Cond {
    /// The condition at position `index` among NZ, Z, NC, C.
    pub fn from_index(index: u8) -> (r: Cond)
        requires
            index < 4,
        ensures
            cond_index(r) == index,
    {
        if index == 0 {
            Cond::NZ
        } else if index == 1 {
            Cond::Z
        } else if index == 2 {
            Cond::NC
        } else {
            Cond::C
        }
    }

    pub fn index(&self) -> (r: u8)
        ensures
            r == cond_index(*self),
            r < 4,
    {
        match self {
            Cond::NZ => 0,
            Cond::Z => 1,
            Cond::NC => 2,
            Cond::C => 3,
        }
    }

    /// Whether the condition holds for the flags in `registers`.
    pub fn holds(&self, registers: &Registers) -> (r: bool)
        ensures
            r == cond_holds(*self, registers@.f),
    {
        match self {
            Cond::NZ => !registers.f.get_bit(ALU::ZERO_FLAG),
            Cond::Z => registers.f.get_bit(ALU::ZERO_FLAG),
            Cond::NC => !registers.f.get_bit(ALU::CARRY_FLAG),
            Cond::C => registers.f.get_bit(ALU::CARRY_FLAG),
        }
    }
}

/// The word stored little-endian at `address` and `address + 1`.
pub open spec fn word_at(memory: Seq<u8>, address: u16) -> u16 {
    pair(memory[address + 1], memory[address as int])
}

/// The memory and stack pointer after pushing `value` high byte first.
pub open spec fn pushed(memory: Seq<u8>, sp: u16, value: u16) -> (Seq<u8>, u16) {
    let sp1 = wrap_sub(sp as int, 1, 65536) as u16;
    let sp2 = wrap_sub(sp1 as int, 1, 65536) as u16;
    (memory.update(sp1 as int, (value / 256) as u8).update(sp2 as int, (value % 256) as u8), sp2)
}

/// Reads the word at PC and PC + 1 (PC below 0xFFFF) and steps PC twice.
fn read_word_at_pc(registers: &mut Registers, memory: &Memory) -> (r: u16)
    requires
        old(registers)@.pc < 0xFFFF,
    ensures
        r == word_at(memory@, old(registers)@.pc),
        final(registers)@ == old(registers)@.set_pc(((old(registers)@.pc + 2) % 65536) as u16),
{
    let low = memory.get(registers.pc.get_value()) as u16;
    let high = memory.get(registers.pc.get_value() + 1);
    let address = low | ((high as u16) << 8);
    assert(address == high as int * 256 + low) by (bit_vector)
        requires
            low < 256,
            address == low | ((high as u16) << 8),
    ;
    registers.pc.increment();
    registers.pc.increment();
    address
}

/// Pushes PC onto the stack, high byte first.
fn push_pc(registers: &mut Registers, memory: &mut Memory)
    ensures
        ({
            let (m, sp) = pushed(old(memory)@, old(registers)@.sp, old(registers)@.pc);
            final(memory)@ == m && final(registers)@ == old(registers)@.set_sp(sp)
        }),
{
    let pc = registers.pc.get_value();
    registers.sp.decrement();
    memory.set(registers.sp.get_value(), ((pc & 0xFF00) >> 8) as u8);
    registers.sp.decrement();
    memory.set(registers.sp.get_value(), (pc & 0xFF) as u8);
    assert((pc & 0xFF00) >> 8 == pc / 256 && pc & 0xFF == pc % 256) by (bit_vector);
}

/// `CALL nn` (0xCD): reads the target address and steps PC past it, then
/// pushes PC, then jumps, finishing on the jump.
pub struct CallNn {
    pub counter: u8,
    pub address: u16,
}

impl CallNn {
    pub fn from_opcode(opcode: &u8) -> (r: Option<Self>)
        ensures
            r is Some <==> *opcode == 0xCD,
            r matches Some(i) ==> i == (CallNn { counter: 2, address: 0 }),
    {
        if *opcode == 0xCD {
            return Some(CallNn { counter: 2, address: 0 });
        }
        None
    }

    pub fn get_opcode(&self) -> (r: u8)
        ensures
            r == 0xCD,
    {
        0xCD
    }

    /// Reading the address takes the byte at PC + 1 without wrapping, so
    /// that step is not taken with PC at 0xFFFF.
    /// One tick: from this state, registers `r0` and memory `m0`, to state
    /// `next`, registers `r1` and memory `m1`, finishing when `done`.
    pub open spec fn step(
        self,
        next: Self,
        r0: RegistersView,
        r1: RegistersView,
        m0: Seq<u8>,
        m1: Seq<u8>,
        done: bool,
    ) -> bool {
        &&& self.counter == 2 ==> !done &&
            next == (CallNn { counter: 1, address: word_at(m0, r0.pc), }) &&
            r1 == r0.set_pc(((r0.pc + 2) % 65536) as u16) && m1 == m0
        &&& self.counter == 1 ==> !done && next == (CallNn { counter: 0, ..self }) &&
            ({
                let (m, sp) = pushed(m0, r0.sp, r0.pc);
                m1 == m && r1 == r0.set_sp(sp)
            })
        &&& self.counter == 0 ==> done && next == self && r1 == r0.set_pc(self.address) &&
            m1 == m0
        &&& self.counter > 2 ==> !done &&
            next == (CallNn { counter: (self.counter - 1) as u8, ..self }) && r1 == r0 &&
            m1 == m0
    }

    pub fn act(&mut self, registers: &mut Registers, memory: &mut Memory) -> (done: bool)
        requires
            old(self).counter == 2 ==> old(registers)@.pc < 0xFFFF,
        ensures
            Self::step(*old(self), *final(self), old(registers)@, final(registers)@, old(memory)@, final(memory)@, done),
    {
        if self.counter == 2 {
            self.address = read_word_at_pc(registers, memory);
        } else if self.counter == 1 {
            push_pc(registers, memory);
        } else if self.counter == 0 {
            registers.pc.set_value(self.address);
            return true;
        }
        self.counter = self.counter - 1;
        false
    }
}

/// Whether the call of `CALL cc, nn` with condition `cond` is taken for the
/// flag byte `f`. The calls test the flags as the jumps do, but for
/// `CALL C, nn` (0xDC), which calls when the carry flag is clear, as
/// `CALL NC, nn` does.
pub open spec fn call_cond_holds(cond: Cond, f: u8) -> bool {
    match cond {
        Cond::C => !bit_of(f, 4),
        _ => cond_holds(cond, f),
    }
}

/// `CALL cc, nn` (0xC4, 0xCC, 0xD4, 0xDC for NZ, Z, NC, C): reads the target
/// and steps PC past it; then, when the call's condition holds (see
/// [`call_cond_holds`]), pushes PC and jumps on the following ticks;
/// otherwise finishes without jumping.
pub struct CallCcNn {
    pub counter: u8,
    pub address: u16,
    pub cond: Cond,
}

impl CallCcNn {
    pub open spec fn spec_opcode(&self) -> u8 {
        (0xC4 + 8 * cond_index(self.cond)) as u8
    }

    pub fn from_opcode(opcode: &u8) -> (r: Option<Self>)
        ensures
            (r is Some) <==> (*opcode == 0xC4 || *opcode == 0xCC || *opcode == 0xD4 || *opcode
                == 0xDC),
            r matches Some(i) ==> i.spec_opcode() == *opcode && i.counter == 2 && i.address == 0,
    {
        if 0xC4 <= *opcode && *opcode <= 0xDC && *opcode % 8 == 4 {
            return Some(CallCcNn { counter: 2, address: 0, cond: Cond::from_index((*opcode - 0xC4) / 8) });
        }
        None
    }

    pub fn get_opcode(&self) -> (r: u8)
        ensures
            r == self.spec_opcode(),
    {
        0xC4 + 8 * self.cond.index()
    }

    /// Whether the call is taken for the flags in `registers`.
    fn call_condition(&self, registers: &Registers) -> (r: bool)
        ensures
            r == call_cond_holds(self.cond, registers@.f),
    {
        match self.cond {
            Cond::C => !registers.f.get_bit(ALU::CARRY_FLAG),
            _ => self.cond.holds(registers),
        }
    }

    /// One tick: from this state, registers `r0` and memory `m0`, to state
    /// `next`, registers `r1` and memory `m1`, finishing when `done`.
    pub open spec fn step(
        self,
        next: Self,
        r0: RegistersView,
        r1: RegistersView,
        m0: Seq<u8>,
        m1: Seq<u8>,
        done: bool,
    ) -> bool {
        &&& next.cond == self.cond
        &&& self.counter == 2 ==> !done && next.counter == 1 &&
            next.address == word_at(m0, r0.pc) && r1 == r0.set_pc(((r0.pc + 2) % 65536) as u16)
            && m1 == m0
        &&& self.counter == 1 && call_cond_holds(self.cond, r0.f) ==> !done && next.counter == 0 &&
            next.address == self.address && ({
                let (m, sp) = pushed(m0, r0.sp, r0.pc);
                m1 == m && r1 == r0.set_sp(sp)
            })
        &&& self.counter == 0 && call_cond_holds(self.cond, r0.f) ==> done && next == self &&
            r1 == r0.set_pc(self.address) && m1 == m0
        &&& self.counter == 0 && !call_cond_holds(self.cond, r0.f) ==> done && next == self &&
            r1 == r0 && m1 == m0
        &&& (self.counter > 2 || (self.counter == 1 && !call_cond_holds(self.cond, r0.f))) ==> !done
            && next.counter == self.counter - 1 && next.address == self.address && r1 == r0 &&
            m1 == m0
    }

    pub fn act(&mut self, registers: &mut Registers, memory: &mut Memory) -> (done: bool)
        requires
            old(self).counter == 2 ==> old(registers)@.pc < 0xFFFF,
        ensures
            Self::step(*old(self), *final(self), old(registers)@, final(registers)@, old(memory)@, final(memory)@, done),
    {
        if self.counter == 2 {
            self.address = read_word_at_pc(registers, memory);
        }
        if self.call_condition(registers) {
            if self.counter == 1 {
                push_pc(registers, memory);
            } else if self.counter == 0 {
                registers.pc.set_value(self.address);
                return true;
            }
        } else if self.counter == 0 {
            return true;
        }
        self.counter = self.counter - 1;
        false
    }
}

/// `JP cc, nn` (0xC2, 0xCA, 0xD2, 0xDA for NZ, Z, NC, C): reads the low then
/// the high byte of the target, then jumps there when the condition holds,
/// finishing either way.
pub struct JpCcNn {
    pub counter: u8,
    pub address: u16,
    pub cond: Cond,
}

impl JpCcNn {
    pub open spec fn spec_opcode(&self) -> u8 {
        (0xC2 + 8 * cond_index(self.cond)) as u8
    }

    pub fn from_opcode(opcode: &u8) -> (r: Option<Self>)
        ensures
            (r is Some) <==> (*opcode == 0xC2 || *opcode == 0xCA || *opcode == 0xD2 || *opcode
                == 0xDA),
            r matches Some(i) ==> i.spec_opcode() == *opcode && i.counter == 2 && i.address == 0,
    {
        if 0xC2 <= *opcode && *opcode <= 0xDA && *opcode % 8 == 2 {
            return Some(JpCcNn { counter: 2, address: 0, cond: Cond::from_index((*opcode - 0xC2) / 8) });
        }
        None
    }

    pub fn get_opcode(&self) -> (r: u8)
        ensures
            r == self.spec_opcode(),
    {
        0xC2 + 8 * self.cond.index()
    }

    /// One tick: from this state, registers `r0` and memory `m0`, to state
    /// `next`, registers `r1` and memory `m1`, finishing when `done`.
    pub open spec fn step(
        self,
        next: Self,
        r0: RegistersView,
        r1: RegistersView,
        m0: Seq<u8>,
        m1: Seq<u8>,
        done: bool,
    ) -> bool {
        &&& next.cond == self.cond
        &&& self.counter == 2 ==> !done && next.counter == 1 &&
            next.address == m0[r0.pc as int] as u16 && r1 == r0.set_pc(next_pc(r0))
        &&& self.counter == 1 ==> !done && next.counter == 0 &&
            next.address == with_high_byte(self.address, m0[r0.pc as int]) &&
            r1 == r0.set_pc(next_pc(r0))
        &&& self.counter == 0 ==> done && next == self &&
            r1 == (if cond_holds(self.cond, r0.f) { r0.set_pc(self.address) } else { r0 })
        &&& self.counter > 2 ==> !done && next.counter == self.counter - 1 &&
            next.address == self.address && r1 == r0
        &&& m1 == m0
    }

    pub fn act(&mut self, registers: &mut Registers, memory: &Memory) -> (done: bool)
        ensures
            Self::step(*old(self), *final(self), old(registers)@, final(registers)@, memory@, memory@, done),
    {
        if self.counter == 2 {
            self.address = memory.get(registers.pc.get_value()) as u16;
            registers.pc.increment();
        } else if self.counter == 1 {
            let high = memory.get(registers.pc.get_value());
            self.address = self.address | ((high as u16) << 8);
            registers.pc.increment();
        } else if self.counter == 0 {
            if self.cond.holds(registers) {
                registers.pc.set_value(self.address);
            }
            return true;
        }
        self.counter = self.counter - 1;
        false
    }
}

/// `JP HL` (0xE9): PC = HL, finishing at once.
pub struct JpHl {}

impl JpHl {
    pub fn from_opcode(opcode: &u8) -> (r: Option<Self>)
        ensures
            r is Some <==> *opcode == 0xE9,
    {
        if *opcode == 0xE9 {
            return Some(JpHl {});
        }
        None
    }

    pub fn get_opcode(&self) -> (r: u8)
        ensures
            r == 0xE9,
    {
        0xE9
    }

    /// One tick: from this state, registers `r0` and memory `m0`, to state
    /// `next`, registers `r1` and memory `m1`, finishing when `done`.
    pub open spec fn step(
        self,
        next: Self,
        r0: RegistersView,
        r1: RegistersView,
        m0: Seq<u8>,
        m1: Seq<u8>,
        done: bool,
    ) -> bool {
        &&& done
        &&& r1 == r0.set_pc(r0.hl())
        &&& m1 == m0
    }

    pub fn act(&mut self, registers: &mut Registers) -> (done: bool)
        ensures
            Self::step(*old(self), *final(self), old(registers)@, final(registers)@, Seq::empty(), Seq::empty(), done),
    {
        let hl = registers.get_hl();
        registers.pc.set_value(hl);

        true
    }
}

/// Where a relative jump by the signed byte `offset` from `pc` lands.
pub open spec fn jr_target(pc: u16, offset: u8) -> u16 {
    if offset >= 0x80 {
        wrap_sub(pc as int, 0x100 - offset, 65536) as u16
    } else {
        ((pc + offset) % 65536) as u16
    }
}

/// Reads the signed offset at PC, steps PC, and gives the target of the jump
/// from the stepped PC.
fn read_relative_target(registers: &mut Registers, memory: &Memory) -> (r: u16)
    ensures
        final(registers)@ == old(registers)@.set_pc(next_pc(old(registers)@)),
        r == jr_target(next_pc(old(registers)@), memory@[old(registers)@.pc as int]),
{
    let relative_address = memory.get(registers.pc.get_value());
    registers.pc.increment();
    assert((relative_address & 0x80 != 0) == (relative_address >= 0x80)) by (bit_vector);

    if relative_address & 0x80 != 0 {
        registers.pc.get_value().wrapping_sub(0x100 - (relative_address as u16))
    } else {
        registers.pc.get_value().wrapping_add(relative_address as u16)
    }
}

/// `JR n` (0x18): waits a tick, then reads the signed offset after the
/// opcode and works out the target, then jumps there, finishing on the jump.
pub struct JrN {
    pub counter: u8,
    pub address: u16,
}

impl JrN {
    pub fn from_opcode(opcode: &u8) -> (r: Option<Self>)
        ensures
            r is Some <==> *opcode == 0x18,
            r matches Some(i) ==> i == (JrN { counter: 2, address: 0 }),
    {
        if *opcode == 0x18 {
            return Some(JrN { counter: 2, address: 0 });
        }
        None
    }

    pub fn get_opcode(&self) -> (r: u8)
        ensures
            r == 0x18,
    {
        0x18
    }

    /// One tick: from this state, registers `r0` and memory `m0`, to state
    /// `next`, registers `r1` and memory `m1`, finishing when `done`.
    pub open spec fn step(
        self,
        next: Self,
        r0: RegistersView,
        r1: RegistersView,
        m0: Seq<u8>,
        m1: Seq<u8>,
        done: bool,
    ) -> bool {
        &&& self.counter == 1 ==> !done &&
            next == (JrN { counter: 0, address: jr_target(next_pc(r0), m0[r0.pc as int]), }) &&
            r1 == r0.set_pc(next_pc(r0))
        &&& self.counter == 0 ==> done && next == self && r1 == r0.set_pc(self.address)
        &&& self.counter > 1 ==> !done &&
            next == (JrN { counter: (self.counter - 1) as u8, ..self }) && r1 == r0
        &&& m1 == m0
    }

    pub fn act(&mut self, registers: &mut Registers, memory: &Memory) -> (done: bool)
        ensures
            Self::step(*old(self), *final(self), old(registers)@, final(registers)@, memory@, memory@, done),
    {
        if self.counter == 1 {
            self.address = read_relative_target(registers, memory);
        } else if self.counter == 0 {
            registers.pc.set_value(self.address);
            return true;
        }
        self.counter = self.counter - 1;
        false
    }
}

/// `JR NZ, n` (0x20): like `JR n`, but the jump happens only when the zero
/// flag is reset.
pub struct JrNz {
    pub counter: u8,
    pub address: u16,
}

impl JrNz {
    pub fn from_opcode(opcode: &u8) -> (r: Option<Self>)
        ensures
            r is Some <==> *opcode == 0x20,
            r matches Some(i) ==> i == (JrNz { counter: 2, address: 0 }),
    {
        if *opcode == 0x20 {
            return Some(JrNz { counter: 2, address: 0 });
        }
        None
    }

    pub fn get_opcode(&self) -> (r: u8)
        ensures
            r == 0x20,
    {
        0x20
    }

    /// One tick: from this state, registers `r0` and memory `m0`, to state
    /// `next`, registers `r1` and memory `m1`, finishing when `done`.
    pub open spec fn step(
        self,
        next: Self,
        r0: RegistersView,
        r1: RegistersView,
        m0: Seq<u8>,
        m1: Seq<u8>,
        done: bool,
    ) -> bool {
        &&& self.counter == 1 ==> !done &&
            next == (JrNz { counter: 0, address: jr_target(next_pc(r0), m0[r0.pc as int]), })
            && r1 == r0.set_pc(next_pc(r0))
        &&& self.counter == 0 ==> done && next == self &&
            r1 == (if !bit_of(r0.f, 7) { r0.set_pc(self.address) } else { r0 })
        &&& self.counter > 1 ==> !done &&
            next == (JrNz { counter: (self.counter - 1) as u8, ..self }) && r1 == r0
        &&& m1 == m0
    }

    pub fn act(&mut self, registers: &mut Registers, memory: &Memory) -> (done: bool)
        ensures
            Self::step(*old(self), *final(self), old(registers)@, final(registers)@, memory@, memory@, done),
    {
        if self.counter == 1 {
            self.address = read_relative_target(registers, memory);
        } else if self.counter == 0 {
            if !registers.f.get_bit(ALU::ZERO_FLAG) {
                registers.pc.set_value(self.address);
            }
            return true;
        }
        self.counter = self.counter - 1;
        false
    }
}

} // verus!
