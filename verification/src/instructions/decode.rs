use vstd::prelude::*;
use crate::instructions::alu_ops::{
    AdcAA, AdcAR, AddAR, AddHlRr, AndAA, AndAR, CpAA, CpAHl, CpAR, DecR, IncHlAddr, IncR,
};
use crate::instructions::bitwise::{
    BitBHl, BitBR, BitwiseBadInstruction, ResBHl, ResBR, RlcR, RrR, RrcHl, RrcR, SetBHl, SetBR,
    SwapR,
};
use crate::instructions::jumps::{CallCcNn, CallNn, JpCcNn, JpHl, JrN, JrNz};
use crate::instructions::loads::{
    DecBc, DecRr, IncRr, LdAC, LdAN, LdARr, LdBcNn, LdHlN, LdHlR, LdHlSpN, LdNNA, LdNnSp, LdRHl,
    LdRN, ld_a_rr_opcode, ld_r_n_opcode, next_pc,
};
use crate::instructions::misc::{BadInstruction, Ccf, CplA, DAA, Di, Ei, Halt, Nop};
use crate::memory::Memory;
use crate::registers::{Reg16, Reg8, Registers, RegistersView};

verus! {

/// A prefixed (0xCB) instruction.
pub enum BitwiseInstruction {
    RlcR(RlcR),
    RrcR(RrcR),
    RrR(RrR),
    RrcHl(RrcHl),
    BitBR(BitBR),
    BitBHl(BitBHl),
    ResBR(ResBR),
    ResBHl(ResBHl),
    SetBR(SetBR),
    SetBHl(SetBHl),
    SwapR(SwapR),
    Bad(BitwiseBadInstruction),
}

impl BitwiseInstruction {
    /// The bit numbers held are below 8.
    pub open spec fn wf(self) -> bool {
        match self {
            BitwiseInstruction::BitBR(i) => i.bit < 8,
            BitwiseInstruction::BitBHl(i) => i.bit < 8,
            BitwiseInstruction::ResBR(i) => i.bit < 8,
            BitwiseInstruction::ResBHl(i) => i.bit < 8,
            BitwiseInstruction::SetBR(i) => i.bit < 8,
            BitwiseInstruction::SetBHl(i) => i.bit < 8,
            _ => true,
        }
    }

    /// The opcode (after the prefix).
    pub open spec fn spec_opcode(self) -> u8 {
        match self {
            BitwiseInstruction::RlcR(i) => i.spec_opcode(),
            BitwiseInstruction::RrcR(i) => i.spec_opcode(),
            BitwiseInstruction::RrR(i) => i.spec_opcode(),
            BitwiseInstruction::RrcHl(_) => 0x0E,
            BitwiseInstruction::BitBR(i) => i.spec_opcode(),
            BitwiseInstruction::BitBHl(i) => i.spec_opcode(),
            BitwiseInstruction::ResBR(i) => i.spec_opcode(),
            BitwiseInstruction::ResBHl(i) => i.spec_opcode(),
            BitwiseInstruction::SetBR(i) => i.spec_opcode(),
            BitwiseInstruction::SetBHl(i) => i.spec_opcode(),
            BitwiseInstruction::SwapR(i) => i.spec_opcode(),
            BitwiseInstruction::Bad(i) => i.opcode,
        }
    }

    /// Whether this is the instruction prefixed opcode `op` decodes to: the
    /// family that claims `op`, holding `op` as its opcode, in its starting
    /// state. Families are tried in the order RR r, BIT b r, BIT b (HL),
    /// RES b r, RES b (HL), SET b r, SET b (HL), SWAP r; an opcode no family
    /// claims is a bad instruction.
    pub open spec fn decodes(self, op: u8) -> bool {
        &&& self.spec_opcode() == op
        &&& match self {
            BitwiseInstruction::RrR(i) => 0x18 <= op < 0x20 && op != 0x1E && i.counter == 1,
            BitwiseInstruction::BitBR(i) => 0x40 <= op < 0x80 && op % 8 != 6 && i.counter == 1,
            BitwiseInstruction::BitBHl(i) => 0x40 <= op < 0x80 && op % 8 == 6 && i.counter == 3
                && i.value_register@ == 0,
            BitwiseInstruction::ResBR(i) => 0x80 <= op < 0xC0 && op % 8 != 6 && i.counter == 1,
            BitwiseInstruction::ResBHl(i) => 0x80 <= op < 0xC0 && op % 8 == 6 && op != 0xAE
                && i.counter == 3 && i.value_register@ == 0,
            BitwiseInstruction::SetBR(i) => 0xC0 <= op && op % 8 != 6 && i.counter == 1,
            BitwiseInstruction::SetBHl(i) => 0xC0 <= op && op % 8 == 6 && i.counter == 3
                && i.value_register@ == 0,
            BitwiseInstruction::SwapR(_) => 0x30 <= op < 0x38 && op != 0x36,
            BitwiseInstruction::Bad(_) => !bitwise_known(op),
            _ => false,
        }
    }

    /// How many ticks the instruction runs before the tick that finishes it.
    pub open spec fn ticks_left(self) -> nat {
        match self {
            BitwiseInstruction::RlcR(i) => i.counter as nat,
            BitwiseInstruction::RrcR(i) => i.counter as nat,
            BitwiseInstruction::RrR(i) => i.counter as nat,
            BitwiseInstruction::RrcHl(i) => i.counter as nat,
            BitwiseInstruction::BitBR(i) => i.counter as nat,
            BitwiseInstruction::BitBHl(i) => i.counter as nat,
            BitwiseInstruction::ResBR(i) => i.counter as nat,
            BitwiseInstruction::ResBHl(i) => i.counter as nat,
            BitwiseInstruction::SetBR(i) => i.counter as nat,
            BitwiseInstruction::SetBHl(i) => i.counter as nat,
            BitwiseInstruction::SwapR(_) => 0,
            BitwiseInstruction::Bad(_) => 0,
        }
    }

    /// One tick of the wrapped instruction.
    pub open spec fn step(
        self,
        next: Self,
        r0: RegistersView,
        r1: RegistersView,
        m0: Seq<u8>,
        m1: Seq<u8>,
        done: bool,
    ) -> bool {
        match self {
            BitwiseInstruction::RlcR(i) => next matches BitwiseInstruction::RlcR(j) && i.step(j, r0, r1, m0, m1, done),
            BitwiseInstruction::RrcR(i) => next matches BitwiseInstruction::RrcR(j) && i.step(j, r0, r1, m0, m1, done),
            BitwiseInstruction::RrR(i) => next matches BitwiseInstruction::RrR(j) && i.step(j, r0, r1, m0, m1, done),
            BitwiseInstruction::RrcHl(i) => next matches BitwiseInstruction::RrcHl(j) && i.step(j, r0, r1, m0, m1, done),
            BitwiseInstruction::BitBR(i) => next matches BitwiseInstruction::BitBR(j) && i.step(j, r0, r1, m0, m1, done),
            BitwiseInstruction::BitBHl(i) => next matches BitwiseInstruction::BitBHl(j) && i.step(j, r0, r1, m0, m1, done),
            BitwiseInstruction::ResBR(i) => next matches BitwiseInstruction::ResBR(j) && i.step(j, r0, r1, m0, m1, done),
            BitwiseInstruction::ResBHl(i) => next matches BitwiseInstruction::ResBHl(j) && i.step(j, r0, r1, m0, m1, done),
            BitwiseInstruction::SetBR(i) => next matches BitwiseInstruction::SetBR(j) && i.step(j, r0, r1, m0, m1, done),
            BitwiseInstruction::SetBHl(i) => next matches BitwiseInstruction::SetBHl(j) && i.step(j, r0, r1, m0, m1, done),
            BitwiseInstruction::SwapR(i) => next matches BitwiseInstruction::SwapR(j) && i.step(j, r0, r1, m0, m1, done),
            BitwiseInstruction::Bad(_) => next == self && !done && r1 == r0 && m1 == m0,
        }
    }

    pub fn get_opcode(&self) -> (r: u8)
        requires
            self.wf(),
        ensures
            r == self.spec_opcode(),
    {
        match self {
            BitwiseInstruction::RlcR(i) => i.get_opcode(),
            BitwiseInstruction::RrcR(i) => i.get_opcode(),
            BitwiseInstruction::RrR(i) => i.get_opcode(),
            BitwiseInstruction::RrcHl(i) => i.get_opcode(),
            BitwiseInstruction::BitBR(i) => i.get_opcode(),
            BitwiseInstruction::BitBHl(i) => i.get_opcode(),
            BitwiseInstruction::ResBR(i) => i.get_opcode(),
            BitwiseInstruction::ResBHl(i) => i.get_opcode(),
            BitwiseInstruction::SetBR(i) => i.get_opcode(),
            BitwiseInstruction::SetBHl(i) => i.get_opcode(),
            BitwiseInstruction::SwapR(i) => i.get_opcode(),
            BitwiseInstruction::Bad(i) => i.get_opcode(),
        }
    }

    /// Runs one tick of the wrapped instruction.
    pub fn act(&mut self, registers: &mut Registers, memory: &mut Memory) -> (done: bool)
        requires
            old(self).wf(),
        ensures
            final(self).wf(),
            old(self).step(*final(self), old(registers)@, final(registers)@, old(memory)@, final(memory)@, done),
    {
        match self {
            BitwiseInstruction::RlcR(i) => i.act(registers),
            BitwiseInstruction::RrcR(i) => i.act(registers),
            BitwiseInstruction::RrR(i) => i.act(registers),
            BitwiseInstruction::RrcHl(i) => i.act(registers, memory),
            BitwiseInstruction::BitBR(i) => i.act(registers),
            BitwiseInstruction::BitBHl(i) => i.act(registers, memory),
            BitwiseInstruction::ResBR(i) => i.act(registers),
            BitwiseInstruction::ResBHl(i) => i.act(registers, memory),
            BitwiseInstruction::SetBR(i) => i.act(registers),
            BitwiseInstruction::SetBHl(i) => i.act(registers, memory),
            BitwiseInstruction::SwapR(i) => i.act(registers),
            BitwiseInstruction::Bad(i) => i.act(),
        }
    }
}

/// Whether a prefixed opcode belongs to a family the prefixed decoder knows.
pub open spec fn bitwise_known(op: u8) -> bool {
    ||| (0x18 <= op < 0x20 && op != 0x1E)
    ||| (0x30 <= op < 0x38 && op != 0x36)
    ||| (0x40 <= op && op != 0xAE)
}

/// `0xCB`: the prefix of the bit instructions. On its first tick it reads the
/// opcode at PC, decodes it, steps PC, and runs the decoded instruction's
/// first tick; on later ticks it runs the decoded instruction.
pub struct Bitwise {
    pub instruction: Option<BitwiseInstruction>,
}

impl Bitwise {
    pub open spec fn wf(self) -> bool {
        self.instruction matches Some(i) ==> i.wf()
    }

    /// Decodes a prefixed opcode; see [`BitwiseInstruction::decodes`].
    pub fn decode_instruction(opcode: &u8) -> (r: BitwiseInstruction)
        ensures
            r.decodes(*opcode),
            r.wf(),
    {
        if let Some(i) = RrR::from_opcode(opcode) {
            return BitwiseInstruction::RrR(i);
        }
        if let Some(i) = BitBR::from_opcode(opcode) {
            return BitwiseInstruction::BitBR(i);
        }
        if let Some(i) = BitBHl::from_opcode(opcode) {
            return BitwiseInstruction::BitBHl(i);
        }
        if let Some(i) = ResBR::from_opcode(opcode) {
            return BitwiseInstruction::ResBR(i);
        }
        if let Some(i) = ResBHl::from_opcode(opcode) {
            return BitwiseInstruction::ResBHl(i);
        }
        if let Some(i) = SetBR::from_opcode(opcode) {
            return BitwiseInstruction::SetBR(i);
        }
        if let Some(i) = SetBHl::from_opcode(opcode) {
            return BitwiseInstruction::SetBHl(i);
        }
        if let Some(i) = SwapR::from_opcode(opcode) {
            return BitwiseInstruction::SwapR(i);
        }
        BitwiseInstruction::Bad(BitwiseBadInstruction { opcode: *opcode })
    }

    pub fn from_opcode(opcode: &u8) -> (r: Option<Self>)
        ensures
            r is Some <==> *opcode == 0xCB,
            r matches Some(i) ==> i.instruction is None,
    {
        if *opcode == 0xCB {
            return Some(Bitwise { instruction: None });
        }
        None
    }

    pub fn get_opcode(&self) -> (r: u8)
        ensures
            r == 0xCB,
    {
        0xCB
    }

    pub open spec fn step(
        self,
        next: Self,
        r0: RegistersView,
        r1: RegistersView,
        m0: Seq<u8>,
        m1: Seq<u8>,
        done: bool,
    ) -> bool {
        match self.instruction {
            Some(i) => next.instruction matches Some(j) && i.step(j, r0, r1, m0, m1, done),
            None => exists|d: BitwiseInstruction|
                #![trigger d.decodes(m0[r0.pc as int])]
                d.decodes(m0[r0.pc as int]) && d.wf() && (next.instruction matches Some(j) && d.step(
                    j,
                    r0.set_pc(next_pc(r0)),
                    r1,
                    m0,
                    m1,
                    done,
                )),
        }
    }

    pub fn act(&mut self, registers: &mut Registers, memory: &mut Memory) -> (done: bool)
        requires
            old(self).wf(),
        ensures
            final(self).wf(),
            old(self).step(*final(self), old(registers)@, final(registers)@, old(memory)@, final(memory)@, done),
    {
        let mut inner = match self.instruction.take() {
            Some(i) => i,
            None => {
                let next_opcode = memory.get(registers.pc.get_value());
                let decoded = Bitwise::decode_instruction(&next_opcode);
                registers.pc.increment();
                decoded
            },
        };
        let ghost before = inner;
        let ghost r_mid = registers@;
        let ghost m_mid = memory@;
        let done = inner.act(registers, memory);
        proof {
            if old(self).instruction is None {
                assert(before.decodes(old(memory)@[old(registers)@.pc as int]));
                assert(before.step(inner, r_mid, registers@, m_mid, memory@, done));
            }
        }
        self.instruction = Some(inner);
        done
    }
}

/// An instruction of the main (unprefixed) table, in whatever state it has
/// reached.
pub enum Instruction {
    Nop(Nop),
    Di(Di),
    Ei(Ei),
    Halt(Halt),
    Ccf(Ccf),
    CplA(CplA),
    Daa(DAA),
    Bad(BadInstruction),
    AdcAA(AdcAA),
    AndAA(AndAA),
    AddAR(AddAR),
    AdcAR(AdcAR),
    AndAR(AndAR),
    CpAR(CpAR),
    CpAA(CpAA),
    CpAHl(CpAHl),
    IncR(IncR),
    DecR(DecR),
    IncHlAddr(IncHlAddr),
    AddHlRr(AddHlRr),
    LdAC(LdAC),
    LdAN(LdAN),
    LdRN(LdRN),
    LdARr(LdARr),
    LdBcNn(LdBcNn),
    LdHlN(LdHlN),
    LdHlR(LdHlR),
    LdRHl(LdRHl),
    LdHlSpN(LdHlSpN),
    LdNNA(LdNNA),
    LdNnSp(LdNnSp),
    IncRr(IncRr),
    DecRr(DecRr),
    DecBc(DecBc),
    CallNn(CallNn),
    CallCcNn(CallCcNn),
    JpCcNn(JpCcNn),
    JpHl(JpHl),
    JrN(JrN),
    JrNz(JrNz),
    Bitwise(Bitwise),
}

/// Whether an opcode belongs to a family the main decoder knows.
pub open spec fn known_opcode(op: u8) -> bool {
    ||| op == 0x00 || op == 0x08 || op == 0x18 || op == 0x2F || op == 0x34 || op == 0x36
    ||| op == 0x76 || op == 0xA7 || op == 0xCB || op == 0xCD || op == 0xE9 || op == 0xEA
    ||| op == 0xF3 || op == 0xF8 || op == 0xFB
    ||| op == 0x3E || op == 0x06 || op == 0x0E || op == 0x16 || op == 0x1E || op == 0x2E
    ||| (0x46 <= op <= 0x6E && op % 8 == 6)
    ||| (0x70 <= op <= 0x75)
    ||| (op < 0x40 && op % 8 == 4 && op != 0x34)
    ||| (op < 0x40 && op % 8 == 5 && op != 0x35)
    ||| (op < 0x40 && op % 16 == 0x03)
    ||| (op < 0x40 && op % 16 == 0x0B)
    ||| (op < 0x40 && op % 16 == 0x09)
    ||| (0x80 <= op <= 0x85)
    ||| (0x88 <= op <= 0x8D)
    ||| (0xA0 <= op <= 0xA5)
    ||| (0xB8 <= op <= 0xBD)
    ||| op == 0x0A || op == 0x1A || op == 0x7E
    ||| op == 0xC4 || op == 0xCC || op == 0xD4 || op == 0xDC
    ||| op == 0x20
    ||| op == 0xC2 || op == 0xCA || op == 0xD2 || op == 0xDA
}

impl Instruction {
    /// The invariants the wrapped state keeps: bit numbers below 8 and
    /// `LD A, (rr)` never through SP.
    pub open spec fn wf(self) -> bool {
        match self {
            Instruction::Bitwise(i) => i.wf(),
            Instruction::LdARr(i) => i.reg != Reg16::SP,
            _ => true,
        }
    }

    /// The opcode the instruction was decoded from.
    pub open spec fn spec_opcode(self) -> u8 {
        match self {
            Instruction::Nop(_) => 0x00,
            Instruction::Di(_) => 0xF3,
            Instruction::Ei(_) => 0xFB,
            Instruction::Halt(_) => 0x76,
            Instruction::Ccf(_) => 0x3F,
            Instruction::CplA(_) => 0x2F,
            Instruction::Daa(_) => 0x27,
            Instruction::Bad(i) => i.opcode,
            Instruction::AdcAA(_) => 0x8F,
            Instruction::AndAA(_) => 0xA7,
            Instruction::AddAR(i) => i.spec_opcode(),
            Instruction::AdcAR(i) => i.spec_opcode(),
            Instruction::AndAR(i) => i.spec_opcode(),
            Instruction::CpAR(i) => i.spec_opcode(),
            Instruction::CpAA(_) => 0xBF,
            Instruction::CpAHl(_) => 0xBE,
            Instruction::IncR(i) => i.spec_opcode(),
            Instruction::DecR(i) => i.spec_opcode(),
            Instruction::IncHlAddr(_) => 0x34,
            Instruction::AddHlRr(i) => i.spec_opcode(),
            Instruction::LdAC(_) => 0x79,
            Instruction::LdAN(_) => 0x3E,
            Instruction::LdRN(i) => ld_r_n_opcode(i.reg),
            Instruction::LdARr(i) => ld_a_rr_opcode(i.reg),
            Instruction::LdBcNn(_) => 0x01,
            Instruction::LdHlN(_) => 0x36,
            Instruction::LdHlR(i) => i.spec_opcode(),
            Instruction::LdRHl(i) => i.spec_opcode(),
            Instruction::LdHlSpN(_) => 0xF8,
            Instruction::LdNNA(_) => 0xEA,
            Instruction::LdNnSp(_) => 0x08,
            Instruction::IncRr(i) => i.spec_opcode(),
            Instruction::DecRr(i) => i.spec_opcode(),
            Instruction::DecBc(_) => 0x0B,
            Instruction::CallNn(_) => 0xCD,
            Instruction::CallCcNn(i) => i.spec_opcode(),
            Instruction::JpCcNn(i) => i.spec_opcode(),
            Instruction::JpHl(_) => 0xE9,
            Instruction::JrN(_) => 0x18,
            Instruction::JrNz(_) => 0x20,
            Instruction::Bitwise(_) => 0xCB,
        }
    }

    /// Whether this is the instruction opcode `op` decodes to: the family
    /// that claims `op`, holding `op` as its opcode, in its starting state.
    /// An opcode no family claims is a bad instruction.
    pub open spec fn decodes(self, op: u8) -> bool {
        &&& self.spec_opcode() == op
        &&& match self {
            Instruction::Nop(_) => op == 0x00,
            Instruction::LdRN(i) => (op == 0x3E || op == 0x06 || op == 0x0E || op == 0x16 || op
                == 0x1E || op == 0x2E) && i.reg != Reg8::L && i.counter == 1,
            Instruction::LdRHl(i) => 0x46 <= op <= 0x6E && op % 8 == 6 && i.counter == 1
                && i.address == 0,
            Instruction::LdHlR(i) => 0x70 <= op <= 0x75 && i.counter == 1 && i.address == 0,
            Instruction::IncR(_) => op < 0x40 && op % 8 == 4 && op != 0x34,
            Instruction::IncRr(i) => op < 0x40 && op % 16 == 0x03 && i.counter == 1,
            Instruction::DecR(_) => op < 0x40 && op % 8 == 5 && op != 0x35,
            Instruction::DecRr(i) => op < 0x40 && op % 16 == 0x0B && i.counter == 1,
            Instruction::AddAR(_) => 0x80 <= op <= 0x85,
            Instruction::AdcAR(_) => 0x88 <= op <= 0x8D,
            Instruction::AndAR(_) => 0xA0 <= op <= 0xA5,
            Instruction::CpAR(_) => 0xB8 <= op <= 0xBD,
            Instruction::AddHlRr(i) => op < 0x40 && op % 16 == 0x09 && i.counter == 1,
            Instruction::LdARr(i) => (op == 0x0A || op == 0x1A || op == 0x7E) && i.reg != Reg16::SP
                && i.counter == 1,
            Instruction::JrNz(i) => op == 0x20 && i.counter == 2 && i.address == 0,
            Instruction::CallCcNn(i) => (op == 0xC4 || op == 0xCC || op == 0xD4 || op == 0xDC)
                && i.counter == 2 && i.address == 0,
            Instruction::JpCcNn(i) => (op == 0xC2 || op == 0xCA || op == 0xD2 || op == 0xDA)
                && i.counter == 2 && i.address == 0,
            Instruction::LdNnSp(i) => op == 0x08 && i.counter == 4 && i.address == 0,
            Instruction::JrN(i) => op == 0x18 && i.counter == 2 && i.address == 0,
            Instruction::CplA(_) => op == 0x2F,
            Instruction::IncHlAddr(i) => op == 0x34 && i.counter == 2 && i.value_register@ == 0,
            Instruction::LdHlN(i) => op == 0x36 && i.counter == 2 && i.value == 0,
            Instruction::Halt(_) => op == 0x76,
            Instruction::AndAA(_) => op == 0xA7,
            Instruction::Bitwise(i) => op == 0xCB && i.instruction is None,
            Instruction::CallNn(i) => op == 0xCD && i.counter == 2 && i.address == 0,
            Instruction::JpHl(_) => op == 0xE9,
            Instruction::LdNNA(i) => op == 0xEA && i.counter == 3 && i.address == 0,
            Instruction::Di(_) => op == 0xF3,
            Instruction::LdHlSpN(i) => op == 0xF8 && i.counter == 2 && i.value == 0,
            Instruction::Ei(_) => op == 0xFB,
            Instruction::Bad(_) => !known_opcode(op),
            _ => false,
        }
    }

    /// Whether the instruction is one that never finishes: an unknown
    /// opcode, or the prefix followed by an unknown opcode.
    pub open spec fn never_finishes(self) -> bool {
        ||| self is Bad
        ||| self matches Instruction::Bitwise(b) && b.instruction matches Some(
            BitwiseInstruction::Bad(_),
        )
    }

    /// A bound on how many ticks the instruction runs before the tick that
    /// finishes it (exact but for the prefix before its opcode is read).
    pub open spec fn ticks_left(self) -> nat {
        match self {
            Instruction::CpAHl(i) => i.counter as nat,
            Instruction::IncHlAddr(i) => i.counter as nat,
            Instruction::AddHlRr(i) => i.counter as nat,
            Instruction::LdAN(i) => i.reusable_ld_r_n.counter as nat,
            Instruction::LdRN(i) => i.counter as nat,
            Instruction::LdARr(i) => i.counter as nat,
            Instruction::LdBcNn(i) => i.counter as nat,
            Instruction::LdHlN(i) => i.counter as nat,
            Instruction::LdHlR(i) => i.counter as nat,
            Instruction::LdRHl(i) => i.counter as nat,
            Instruction::LdHlSpN(i) => i.counter as nat,
            Instruction::LdNNA(i) => i.counter as nat,
            Instruction::LdNnSp(i) => i.counter as nat,
            Instruction::IncRr(i) => i.counter as nat,
            Instruction::DecRr(i) => i.counter as nat,
            Instruction::DecBc(i) => i.counter as nat,
            Instruction::CallNn(i) => i.counter as nat,
            Instruction::CallCcNn(i) => i.counter as nat,
            Instruction::JpCcNn(i) => i.counter as nat,
            Instruction::JrN(i) => i.counter as nat,
            Instruction::JrNz(i) => i.counter as nat,
            Instruction::Bitwise(i) => match i.instruction {
                Some(j) => j.ticks_left(),
                None => 3,
            },
            _ => 0,
        }
    }

    /// What the next tick needs so that no address steps past 0xFFFF: a call
    /// does not read the word after PC starting at 0xFFFF, and `LD (nn), SP`
    /// does not step its address past 0xFFFF.
    pub open spec fn ready(self, r: RegistersView) -> bool {
        match self {
            Instruction::CallNn(i) => i.counter == 2 ==> r.pc < 0xFFFF,
            Instruction::CallCcNn(i) => i.counter == 2 ==> r.pc < 0xFFFF,
            Instruction::LdNnSp(i) => i.counter == 2 ==> i.address < 0xFFFF,
            _ => true,
        }
    }

    /// One tick of the wrapped instruction, also over the interrupt-enable
    /// flag (`ie0` to `ie1`) and the halt flag (`h0` to `h1`).
    pub open spec fn step(
        self,
        next: Self,
        r0: RegistersView,
        r1: RegistersView,
        m0: Seq<u8>,
        m1: Seq<u8>,
        ie0: bool,
        ie1: bool,
        h0: bool,
        h1: bool,
        done: bool,
    ) -> bool {
        match self {
            Instruction::Nop(_) => next == self && done && r1 == r0 && m1 == m0 && ie1 == ie0 && h1 == h0,
            Instruction::Di(_) => next == self && done && r1 == r0 && m1 == m0 && !ie1 && h1 == h0,
            Instruction::Ei(_) => next == self && done && r1 == r0 && m1 == m0 && ie1 && h1 == h0,
            Instruction::Halt(_) => next == self && done && r1 == r0 && m1 == m0 && ie1 == ie0 && h1,
            Instruction::Ccf(i) => next matches Instruction::Ccf(j) && i.step(j, r0, r1, m0, m1, done)
                && ie1 == ie0 && h1 == h0,
            Instruction::CplA(i) => next matches Instruction::CplA(j) && i.step(j, r0, r1, m0, m1, done)
                && ie1 == ie0 && h1 == h0,
            Instruction::Daa(i) => next matches Instruction::Daa(j) && i.step(j, r0, r1, m0, m1, done)
                && ie1 == ie0 && h1 == h0,
            Instruction::Bad(_) => next == self && !done && r1 == r0 && m1 == m0 && ie1 == ie0 && h1 == h0,
            Instruction::AdcAA(i) => next matches Instruction::AdcAA(j) && i.step(j, r0, r1, m0, m1, done)
                && ie1 == ie0 && h1 == h0,
            Instruction::AndAA(i) => next matches Instruction::AndAA(j) && i.step(j, r0, r1, m0, m1, done)
                && ie1 == ie0 && h1 == h0,
            Instruction::AddAR(i) => next matches Instruction::AddAR(j) && i.step(j, r0, r1, m0, m1, done)
                && ie1 == ie0 && h1 == h0,
            Instruction::AdcAR(i) => next matches Instruction::AdcAR(j) && i.step(j, r0, r1, m0, m1, done)
                && ie1 == ie0 && h1 == h0,
            Instruction::AndAR(i) => next matches Instruction::AndAR(j) && i.step(j, r0, r1, m0, m1, done)
                && ie1 == ie0 && h1 == h0,
            Instruction::CpAR(i) => next matches Instruction::CpAR(j) && i.step(j, r0, r1, m0, m1, done)
                && ie1 == ie0 && h1 == h0,
            Instruction::CpAA(i) => next matches Instruction::CpAA(j) && i.step(j, r0, r1, m0, m1, done)
                && ie1 == ie0 && h1 == h0,
            Instruction::CpAHl(i) => next matches Instruction::CpAHl(j) && i.step(j, r0, r1, m0, m1, done)
                && ie1 == ie0 && h1 == h0,
            Instruction::IncR(i) => next matches Instruction::IncR(j) && i.step(j, r0, r1, m0, m1, done)
                && ie1 == ie0 && h1 == h0,
            Instruction::DecR(i) => next matches Instruction::DecR(j) && i.step(j, r0, r1, m0, m1, done)
                && ie1 == ie0 && h1 == h0,
            Instruction::IncHlAddr(i) => next matches Instruction::IncHlAddr(j) && i.step(j, r0, r1, m0, m1, done)
                && ie1 == ie0 && h1 == h0,
            Instruction::AddHlRr(i) => next matches Instruction::AddHlRr(j) && i.step(j, r0, r1, m0, m1, done)
                && ie1 == ie0 && h1 == h0,
            Instruction::LdAC(i) => next matches Instruction::LdAC(j) && i.step(j, r0, r1, m0, m1, done)
                && ie1 == ie0 && h1 == h0,
            Instruction::LdAN(i) => next matches Instruction::LdAN(j) && i.step(j, r0, r1, m0, m1, done)
                && ie1 == ie0 && h1 == h0,
            Instruction::LdRN(i) => next matches Instruction::LdRN(j) && i.step(j, r0, r1, m0, m1, done)
                && ie1 == ie0 && h1 == h0,
            Instruction::LdARr(i) => next matches Instruction::LdARr(j) && i.step(j, r0, r1, m0, m1, done)
                && ie1 == ie0 && h1 == h0,
            Instruction::LdBcNn(i) => next matches Instruction::LdBcNn(j) && i.step(j, r0, r1, m0, m1, done)
                && ie1 == ie0 && h1 == h0,
            Instruction::LdHlN(i) => next matches Instruction::LdHlN(j) && i.step(j, r0, r1, m0, m1, done)
                && ie1 == ie0 && h1 == h0,
            Instruction::LdHlR(i) => next matches Instruction::LdHlR(j) && i.step(j, r0, r1, m0, m1, done)
                && ie1 == ie0 && h1 == h0,
            Instruction::LdRHl(i) => next matches Instruction::LdRHl(j) && i.step(j, r0, r1, m0, m1, done)
                && ie1 == ie0 && h1 == h0,
            Instruction::LdHlSpN(i) => next matches Instruction::LdHlSpN(j) && i.step(j, r0, r1, m0, m1, done)
                && ie1 == ie0 && h1 == h0,
            Instruction::LdNNA(i) => next matches Instruction::LdNNA(j) && i.step(j, r0, r1, m0, m1, done)
                && ie1 == ie0 && h1 == h0,
            Instruction::LdNnSp(i) => next matches Instruction::LdNnSp(j) && i.step(j, r0, r1, m0, m1, done)
                && ie1 == ie0 && h1 == h0,
            Instruction::IncRr(i) => next matches Instruction::IncRr(j) && i.step(j, r0, r1, m0, m1, done)
                && ie1 == ie0 && h1 == h0,
            Instruction::DecRr(i) => next matches Instruction::DecRr(j) && i.step(j, r0, r1, m0, m1, done)
                && ie1 == ie0 && h1 == h0,
            Instruction::DecBc(i) => next matches Instruction::DecBc(j) && i.step(j, r0, r1, m0, m1, done)
                && ie1 == ie0 && h1 == h0,
            Instruction::CallNn(i) => next matches Instruction::CallNn(j) && i.step(j, r0, r1, m0, m1, done)
                && ie1 == ie0 && h1 == h0,
            Instruction::CallCcNn(i) => next matches Instruction::CallCcNn(j) && i.step(j, r0, r1, m0, m1, done)
                && ie1 == ie0 && h1 == h0,
            Instruction::JpCcNn(i) => next matches Instruction::JpCcNn(j) && i.step(j, r0, r1, m0, m1, done)
                && ie1 == ie0 && h1 == h0,
            Instruction::JpHl(i) => next matches Instruction::JpHl(j) && i.step(j, r0, r1, m0, m1, done)
                && ie1 == ie0 && h1 == h0,
            Instruction::JrN(i) => next matches Instruction::JrN(j) && i.step(j, r0, r1, m0, m1, done)
                && ie1 == ie0 && h1 == h0,
            Instruction::JrNz(i) => next matches Instruction::JrNz(j) && i.step(j, r0, r1, m0, m1, done)
                && ie1 == ie0 && h1 == h0,
            Instruction::Bitwise(i) => next matches Instruction::Bitwise(j) && i.step(j, r0, r1, m0, m1, done)
                && ie1 == ie0 && h1 == h0,
        }
    }

    pub fn get_opcode(&self) -> (r: u8)
        requires
            self.wf(),
        ensures
            r == self.spec_opcode(),
    {
        match self {
            Instruction::Nop(i) => i.get_opcode(),
            Instruction::Di(i) => i.get_opcode(),
            Instruction::Ei(i) => i.get_opcode(),
            Instruction::Halt(i) => i.get_opcode(),
            Instruction::Ccf(i) => i.get_opcode(),
            Instruction::CplA(i) => i.get_opcode(),
            Instruction::Daa(i) => i.get_opcode(),
            Instruction::Bad(i) => i.get_opcode(),
            Instruction::AdcAA(i) => i.get_opcode(),
            Instruction::AndAA(i) => i.get_opcode(),
            Instruction::AddAR(i) => i.get_opcode(),
            Instruction::AdcAR(i) => i.get_opcode(),
            Instruction::AndAR(i) => i.get_opcode(),
            Instruction::CpAR(i) => i.get_opcode(),
            Instruction::CpAA(i) => i.get_opcode(),
            Instruction::CpAHl(i) => i.get_opcode(),
            Instruction::IncR(i) => i.get_opcode(),
            Instruction::DecR(i) => i.get_opcode(),
            Instruction::IncHlAddr(i) => i.get_opcode(),
            Instruction::AddHlRr(i) => i.get_opcode(),
            Instruction::LdAC(i) => i.get_opcode(),
            Instruction::LdAN(i) => i.get_opcode(),
            Instruction::LdRN(i) => i.get_opcode(),
            Instruction::LdARr(i) => i.get_opcode(),
            Instruction::LdBcNn(i) => i.get_opcode(),
            Instruction::LdHlN(i) => i.get_opcode(),
            Instruction::LdHlR(i) => i.get_opcode(),
            Instruction::LdRHl(i) => i.get_opcode(),
            Instruction::LdHlSpN(i) => i.get_opcode(),
            Instruction::LdNNA(i) => i.get_opcode(),
            Instruction::LdNnSp(i) => i.get_opcode(),
            Instruction::IncRr(i) => i.get_opcode(),
            Instruction::DecRr(i) => i.get_opcode(),
            Instruction::DecBc(i) => i.get_opcode(),
            Instruction::CallNn(i) => i.get_opcode(),
            Instruction::CallCcNn(i) => i.get_opcode(),
            Instruction::JpCcNn(i) => i.get_opcode(),
            Instruction::JpHl(i) => i.get_opcode(),
            Instruction::JrN(i) => i.get_opcode(),
            Instruction::JrNz(i) => i.get_opcode(),
            Instruction::Bitwise(i) => i.get_opcode(),
        }
    }

    /// Runs one tick of the wrapped instruction.
    pub fn act(
        &mut self,
        registers: &mut Registers,
        memory: &mut Memory,
        enable_interrupts: &mut bool,
        is_halted: &mut bool,
    ) -> (done: bool)
        requires
            old(self).wf(),
            old(self).ready(old(registers)@),
        ensures
            final(self).wf(),
            old(self).step(
                *final(self),
                old(registers)@,
                final(registers)@,
                old(memory)@,
                final(memory)@,
                *old(enable_interrupts),
                *final(enable_interrupts),
                *old(is_halted),
                *final(is_halted),
                done,
            ),
    {
        match self {
            Instruction::Nop(i) => i.act(),
            Instruction::Di(i) => i.act(enable_interrupts),
            Instruction::Ei(i) => i.act(enable_interrupts),
            Instruction::Halt(i) => i.act(is_halted),
            Instruction::Ccf(i) => i.act(registers),
            Instruction::CplA(i) => i.act(registers),
            Instruction::Daa(i) => i.act(registers),
            Instruction::Bad(i) => i.act(),
            Instruction::AdcAA(i) => i.act(registers),
            Instruction::AndAA(i) => i.act(registers),
            Instruction::AddAR(i) => i.act(registers),
            Instruction::AdcAR(i) => i.act(registers),
            Instruction::AndAR(i) => i.act(registers),
            Instruction::CpAR(i) => i.act(registers),
            Instruction::CpAA(i) => i.act(registers),
            Instruction::CpAHl(i) => i.act(registers, memory),
            Instruction::IncR(i) => i.act(registers),
            Instruction::DecR(i) => i.act(registers),
            Instruction::IncHlAddr(i) => i.act(registers, memory),
            Instruction::AddHlRr(i) => i.act(registers),
            Instruction::LdAC(i) => i.act(registers),
            Instruction::LdAN(i) => i.act(registers, memory),
            Instruction::LdRN(i) => i.act(registers, memory),
            Instruction::LdARr(i) => i.act(registers, memory),
            Instruction::LdBcNn(i) => i.act(registers, memory),
            Instruction::LdHlN(i) => i.act(registers, memory),
            Instruction::LdHlR(i) => i.act(registers, memory),
            Instruction::LdRHl(i) => i.act(registers, memory),
            Instruction::LdHlSpN(i) => i.act(registers, memory),
            Instruction::LdNNA(i) => i.act(registers, memory),
            Instruction::LdNnSp(i) => i.act(registers, memory),
            Instruction::IncRr(i) => i.act(registers),
            Instruction::DecRr(i) => i.act(registers),
            Instruction::DecBc(i) => i.act(registers),
            Instruction::CallNn(i) => i.act(registers, memory),
            Instruction::CallCcNn(i) => i.act(registers, memory),
            Instruction::JpCcNn(i) => i.act(registers, memory),
            Instruction::JpHl(i) => i.act(registers),
            Instruction::JrN(i) => i.act(registers, memory),
            Instruction::JrNz(i) => i.act(registers, memory),
            Instruction::Bitwise(i) => i.act(registers, memory),
        }
    }
}

/// Decodes an opcode of the main table; see [`Instruction::decodes`].
pub fn decode_instruction(opcode: &u8) -> (r: Instruction)
    ensures
        r.decodes(*opcode),
        r.wf(),
{
    if let Some(i) = Nop::from_opcode(opcode) {
        return Instruction::Nop(i);
    }
    if let Some(i) = LdRN::from_opcode(opcode) {
        return Instruction::LdRN(i);
    }
    if let Some(i) = LdRHl::from_opcode(opcode) {
        return Instruction::LdRHl(i);
    }
    if let Some(i) = LdHlR::from_opcode(opcode) {
        return Instruction::LdHlR(i);
    }
    if let Some(i) = IncR::from_opcode(opcode) {
        return Instruction::IncR(i);
    }
    if let Some(i) = IncRr::from_opcode(opcode) {
        return Instruction::IncRr(i);
    }
    if let Some(i) = DecR::from_opcode(opcode) {
        return Instruction::DecR(i);
    }
    if let Some(i) = DecRr::from_opcode(opcode) {
        return Instruction::DecRr(i);
    }
    if let Some(i) = AddAR::from_opcode(opcode) {
        return Instruction::AddAR(i);
    }
    if let Some(i) = AdcAR::from_opcode(opcode) {
        return Instruction::AdcAR(i);
    }
    if let Some(i) = AndAR::from_opcode(opcode) {
        return Instruction::AndAR(i);
    }
    if let Some(i) = AddHlRr::from_opcode(opcode) {
        return Instruction::AddHlRr(i);
    }
    if let Some(i) = CpAR::from_opcode(opcode) {
        return Instruction::CpAR(i);
    }
    if let Some(i) = LdARr::from_opcode(opcode) {
        return Instruction::LdARr(i);
    }
    if let Some(i) = CallCcNn::from_opcode(opcode) {
        return Instruction::CallCcNn(i);
    }
    if let Some(i) = JrNz::from_opcode(opcode) {
        return Instruction::JrNz(i);
    }
    if let Some(i) = JpCcNn::from_opcode(opcode) {
        return Instruction::JpCcNn(i);
    }
    if let Some(i) = LdNnSp::from_opcode(opcode) {
        return Instruction::LdNnSp(i);
    }
    if let Some(i) = JrN::from_opcode(opcode) {
        return Instruction::JrN(i);
    }
    if let Some(i) = CplA::from_opcode(opcode) {
        return Instruction::CplA(i);
    }
    if let Some(i) = IncHlAddr::from_opcode(opcode) {
        return Instruction::IncHlAddr(i);
    }
    if let Some(i) = LdHlN::from_opcode(opcode) {
        return Instruction::LdHlN(i);
    }
    if let Some(i) = Halt::from_opcode(opcode) {
        return Instruction::Halt(i);
    }
    if let Some(i) = AndAA::from_opcode(opcode) {
        return Instruction::AndAA(i);
    }
    if let Some(i) = Bitwise::from_opcode(opcode) {
        return Instruction::Bitwise(i);
    }
    if let Some(i) = CallNn::from_opcode(opcode) {
        return Instruction::CallNn(i);
    }
    if let Some(i) = JpHl::from_opcode(opcode) {
        return Instruction::JpHl(i);
    }
    if let Some(i) = LdNNA::from_opcode(opcode) {
        return Instruction::LdNNA(i);
    }
    if let Some(i) = Di::from_opcode(opcode) {
        return Instruction::Di(i);
    }
    if let Some(i) = LdHlSpN::from_opcode(opcode) {
        return Instruction::LdHlSpN(i);
    }
    if let Some(i) = Ei::from_opcode(opcode) {
        return Instruction::Ei(i);
    }
    Instruction::Bad(BadInstruction { opcode: *opcode })
}

} // verus!
