use vstd::prelude::*;
use std::collections::VecDeque;
use crate::instructions::decode::{Instruction, decode_instruction};
use crate::instructions::jumps::pushed;
use crate::instructions::misc::Nop;
use crate::memory::Memory;
use crate::registers::{Registers, RegistersView};

verus! {

/// The interrupt sources, each with its handler address and its bit in the
/// interrupt-enable (0xFFFF) and interrupt-flag (0xFF0F) registers.
#[derive(Clone, Copy, Debug, PartialEq, Eq, Structural)]
pub enum Interrupt {
    VBlank,
    LcdStat,
    Timer,
    Serial,
    Joypad,
}

pub open spec fn interrupt_address(interrupt: Interrupt) -> u16 {
    match interrupt {
        Interrupt::VBlank => 0x40,
        Interrupt::LcdStat => 0x48,
        Interrupt::Timer => 0x50,
        Interrupt::Serial => 0x58,
        Interrupt::Joypad => 0x60,
    }
}

pub open spec fn interrupt_mask(interrupt: Interrupt) -> u8 {
    match interrupt {
        Interrupt::VBlank => 0x01,
        Interrupt::LcdStat => 0x02,
        Interrupt::Timer => 0x04,
        Interrupt::Serial => 0x08,
        Interrupt::Joypad => 0x10,
    }
}

impl Interrupt {
    /// The address of the interrupt's handler.
    pub fn get_address(&self) -> (r: u16)
        ensures
            r == interrupt_address(*self),
    {
        match self {
            Interrupt::VBlank => 0x40,
            Interrupt::LcdStat => 0x48,
            Interrupt::Timer => 0x50,
            Interrupt::Serial => 0x58,
            Interrupt::Joypad => 0x60,
        }
    }

    /// The interrupt's bit in the enable and flag registers.
    pub fn get_bit_mask(&self) -> (r: u8)
        ensures
            r == interrupt_mask(*self),
    {
        match self {
            Interrupt::VBlank => 0x01,
            Interrupt::LcdStat => 0x02,
            Interrupt::Timer => 0x04,
            Interrupt::Serial => 0x08,
            Interrupt::Joypad => 0x10,
        }
    }
}

/// Address of the interrupt-enable register.
pub const INTERRUPT_ENABLE: u16 = 0xFFFF;

/// Address of the interrupt-flag register.
pub const INTERRUPT_FLAG: u16 = 0xFF0F;

/// A CPU that runs one tick at a time and can be interrupted.
pub trait CPU {
    /// What the CPU keeps true from one tick to the next.
    spec fn inv(&self) -> bool;

    /// Whether the next tick can run.
    spec fn can_clock(&self) -> bool;

    /// Runs one clock tick.
    fn clock(&mut self, memory: &mut Memory)
        requires
            old(self).inv(),
            old(self).can_clock(),
        ensures
            final(self).inv(),
    ;

    /// Raises `interrupt`, which the CPU takes or refuses.
    fn try_interrupt(&mut self, memory: &mut Memory, interrupt: Interrupt)
        requires
            old(self).inv(),
        ensures
            final(self).inv(),
    ;
}

/// The most addresses the CPU's call history keeps.
pub const CALLSTACK_LIMIT: usize = 1_000_000;

/// The call history after the opcode at `address` is fetched: the address
/// is added at the end, and the oldest one is dropped when the history would
/// pass [`CALLSTACK_LIMIT`] addresses.
pub open spec fn traced(trace: Seq<u16>, address: u16) -> Seq<u16> {
    let t = trace.push(address);
    if t.len() > CALLSTACK_LIMIT {
        t.drop_first()
    } else {
        t
    }
}

/// The Game Boy CPU: its registers, its interrupt state, and the instruction
/// it is in the middle of.
pub struct GameBoyCPU {
    pub registers: Registers,
    pub enable_interrupts: bool,
    pub is_halted: bool,
    pub current_instruction: Instruction,
    pub interrupt: Option<Interrupt>,
    /// The addresses of the opcodes fetched, oldest first, at most
    /// [`CALLSTACK_LIMIT`] of them.
    pub callstack: VecDeque<u16>,
}

/// The registers and memory after the CPU moves on to the next instruction
/// from registers `r` and memory `m` with `pending` waiting: a pending
/// interrupt first pushes PC and jumps to its handler; then the opcode at PC
/// is fetched and PC steps past it.
pub open spec fn fetch_state(r: RegistersView, m: Seq<u8>, pending: Option<Interrupt>) -> (
    RegistersView,
    Seq<u8>,
) {
    match pending {
        Some(interrupt) => {
            let (m1, sp) = pushed(m, r.sp, r.pc);
            let r1 = r.set_sp(sp).set_pc(interrupt_address(interrupt));
            (r1.set_pc(((r1.pc + 1) % 65536) as u16), m1)
        },
        None => (r.set_pc(((r.pc + 1) % 65536) as u16), m),
    }
}

/// The address the next opcode is fetched from, from registers `r` with
/// `pending` waiting.
pub open spec fn fetch_address(r: RegistersView, pending: Option<Interrupt>) -> u16 {
    match pending {
        Some(interrupt) => interrupt_address(interrupt),
        None => r.pc,
    }
}

impl GameBoyCPU {
    pub open spec fn wf(&self) -> bool {
        &&& self.current_instruction.wf()
        &&& self.callstack@.len() <= CALLSTACK_LIMIT
    }

    /// Whether the next tick can run without stepping an address past 0xFFFF
    /// (see [`Instruction::ready`]).
    pub open spec fn ready(&self) -> bool {
        self.current_instruction.ready(self.registers@)
    }

    /// A CPU about to run `NOP`.
    pub fn new_with_nop() -> (r: Self)
        ensures
            r.wf(),
            r.current_instruction == Instruction::Nop(Nop {}),
            r.registers@ == Registers::new_spec(0, 0, 0, 0, 0x100, 0xFFFE),
            !r.enable_interrupts,
            !r.is_halted,
            r.interrupt is None,
            r.callstack@.len() == 0,
    {
        Self::new(Instruction::Nop(Nop {}))
    }

    /// A CPU at the start of the cartridge (PC 0x100, SP 0xFFFE, other
    /// registers zero), interrupts disabled, running `first_instruction`.
    pub fn new(first_instruction: Instruction) -> (r: Self)
        requires
            first_instruction.wf(),
        ensures
            r.wf(),
            r.current_instruction == first_instruction,
            r.registers@ == Registers::new_spec(0, 0, 0, 0, 0x100, 0xFFFE),
            !r.enable_interrupts,
            !r.is_halted,
            r.interrupt is None,
            r.callstack@.len() == 0,
    {
        let registers = Registers::new(0, 0, 0, 0, 0x100, 0xFFFE);
        Self {
            registers,
            enable_interrupts: false,
            is_halted: false,
            current_instruction: first_instruction,
            interrupt: None,
            callstack: VecDeque::new(),
        }
    }

    /// Moves on to the next instruction: serves a pending interrupt (pushing
    /// PC and jumping to its handler), then fetches and decodes the opcode at
    /// PC and steps PC past it.
    fn load_next_instruction(&mut self, memory: &mut Memory)
        requires
            old(self).callstack@.len() <= CALLSTACK_LIMIT,
        ensures
            ({
                let (r1, m1) = fetch_state(old(self).registers@, old(memory)@, old(self).interrupt);
                &&& final(self).registers@ == r1
                &&& final(memory)@ == m1
                &&& final(self).current_instruction.decodes(
                    m1[fetch_address(old(self).registers@, old(self).interrupt) as int],
                )
            }),
            final(self).wf(),
            final(self).interrupt is None,
            final(self).enable_interrupts == old(self).enable_interrupts,
            final(self).is_halted == old(self).is_halted,
            final(self).callstack@ == traced(
                old(self).callstack@,
                fetch_address(old(self).registers@, old(self).interrupt),
            ),
    {
        match self.interrupt {
            Some(interrupt) => {
                self.interrupt = None;

                let pc = self.registers.pc.get_value();
                self.registers.sp.decrement();
                memory.set(self.registers.sp.get_value(), ((pc & 0xFF00) >> 8) as u8);
                self.registers.sp.decrement();
                memory.set(self.registers.sp.get_value(), (pc & 0xFF) as u8);
                assert((pc & 0xFF00) >> 8 == pc / 256 && pc & 0xFF == pc % 256) by (bit_vector);

                self.registers.pc.set_value(interrupt.get_address());
            },
            None => {},
        }

        self.callstack.push_back(self.registers.pc.get_value());
        if self.callstack.len() > CALLSTACK_LIMIT {
            self.callstack.pop_front();
        }
        proof {
            assert(self.callstack@ =~= traced(
                old(self).callstack@,
                fetch_address(old(self).registers@, old(self).interrupt),
            ));
        }

        let opcode = memory.get(self.registers.pc.get_value());

        self.current_instruction = decode_instruction(&opcode);

        self.registers.pc.increment();
    }
}

impl CPU for GameBoyCPU {
    open spec fn inv(&self) -> bool {
        self.wf()
    }

    open spec fn can_clock(&self) -> bool {
        self.ready()
    }

    /// One clock tick. A halted CPU does nothing. Otherwise the current
    /// instruction runs one tick; when it finishes, the CPU moves on to the
    /// next instruction (see [`fetch_state`]).
    fn clock(&mut self, memory: &mut Memory)
        ensures
            final(self).wf(),
            old(self).is_halted ==> *final(self) == *old(self) && final(memory)@ == old(memory)@,
            !old(self).is_halted ==> exists|
                next: Instruction,
                r1: RegistersView,
                m1: Seq<u8>,
                ie1: bool,
                h1: bool,
                done: bool,
            |
                #![trigger old(self).current_instruction.step(next, old(self).registers@, r1, old(memory)@, m1, old(self).enable_interrupts, ie1, old(self).is_halted, h1, done)]
                old(self).current_instruction.step(
                    next,
                    old(self).registers@,
                    r1,
                    old(memory)@,
                    m1,
                    old(self).enable_interrupts,
                    ie1,
                    old(self).is_halted,
                    h1,
                    done,
                ) && final(self).enable_interrupts == ie1 && final(self).is_halted == h1 && if done {
                    let (r2, m2) = fetch_state(r1, m1, old(self).interrupt);
                    &&& final(self).registers@ == r2
                    &&& final(memory)@ == m2
                    &&& final(self).interrupt is None
                    &&& final(self).callstack@ == traced(
                        old(self).callstack@,
                        fetch_address(r1, old(self).interrupt),
                    )
                    &&& final(self).current_instruction.decodes(
                        m2[fetch_address(r1, old(self).interrupt) as int],
                    )
                } else {
                    &&& final(self).registers@ == r1
                    &&& final(memory)@ == m1
                    &&& final(self).interrupt == old(self).interrupt
                    &&& final(self).callstack@ == old(self).callstack@
                    &&& final(self).current_instruction == next
                },
    {
        if self.is_halted {
            return;
        }
        let ghost r0 = self.registers@;
        let ghost m0 = memory@;
        let ghost before = self.current_instruction;

        let instruction_finished = self.current_instruction.act(
            &mut self.registers,
            memory,
            &mut self.enable_interrupts,
            &mut self.is_halted,
        );
        let ghost next = self.current_instruction;
        let ghost r1 = self.registers@;
        let ghost m1 = memory@;

        if instruction_finished {
            self.load_next_instruction(memory)
        }
        proof {
            assert(before.step(next, r0, r1, m0, m1, old(self).enable_interrupts, self.enable_interrupts, old(self).is_halted, self.is_halted, instruction_finished));
        }
    }

    /// Raises `interrupt` when interrupts are enabled and the interrupt's
    /// enable bit is set: the interrupt becomes pending (served when the
    /// current instruction finishes), the CPU leaves halt, and the
    /// interrupt's flag bit is set. Otherwise nothing changes.
    fn try_interrupt(&mut self, memory: &mut Memory, interrupt: Interrupt)
        ensures
            final(self).wf(),
            ({
                let accepted = old(self).enable_interrupts && old(memory)@[0xFFFF] & interrupt_mask(
                    interrupt,
                ) != 0;
                if accepted {
                    &&& final(self).interrupt == Some(interrupt)
                    &&& !final(self).is_halted
                    &&& final(memory)@ == old(memory)@.update(
                        0xFF0F,
                        old(memory)@[0xFF0F] | interrupt_mask(interrupt),
                    )
                    &&& final(self).registers@ == old(self).registers@
                    &&& final(self).enable_interrupts == old(self).enable_interrupts
                    &&& final(self).current_instruction == old(self).current_instruction
                    &&& final(self).callstack@ == old(self).callstack@
                } else {
                    &&& *final(self) == *old(self)
                    &&& final(memory)@ == old(memory)@
                }
            }),
    {
        if !self.enable_interrupts {
            return;
        }

        let ie = memory.get(INTERRUPT_ENABLE);
        let interrupt_flags = memory.get(INTERRUPT_FLAG);

        if (ie & interrupt.get_bit_mask()) == 0 {
            return;
        }

        self.interrupt = Some(interrupt);
        self.is_halted = false;

        memory.set(INTERRUPT_FLAG, interrupt_flags | interrupt.get_bit_mask());
    }
}

} // verus!
