use vstd::prelude::*;
use crate::register::{Register16, Register8};

verus! {

/// One of the 8-bit registers an instruction can name.
#[derive(Clone, Copy, Debug, PartialEq, Eq, Structural)]
pub enum Reg8 {
    A,
    B,
    C,
    D,
    E,
    H,
    L,
}

/// One of the 16-bit registers an instruction can name: the pairs `BC`,
/// `DE`, `HL` and the stack pointer.
#[derive(Clone, Copy, Debug, PartialEq, Eq, Structural)]
pub enum Reg16 {
    BC,
    DE,
    HL,
    SP,
}


/// The register an instruction encodes with the three-bit code `code`
/// (`B C D E H L - A` for 0 to 7; 6 names memory at `HL`, not a register).
pub open spec fn reg8_of_code(code: u8) -> Option<Reg8> {
    if code == 0 {
        Some(Reg8::B)
    } else if code == 1 {
        Some(Reg8::C)
    } else if code == 2 {
        Some(Reg8::D)
    } else if code == 3 {
        Some(Reg8::E)
    } else if code == 4 {
        Some(Reg8::H)
    } else if code == 5 {
        Some(Reg8::L)
    } else if code == 7 {
        Some(Reg8::A)
    } else {
        None
    }
}

/// The three-bit code of register `r`.
pub open spec fn code_of_reg8(r: Reg8) -> u8 {
    match r {
        Reg8::B => 0,
        Reg8::C => 1,
        Reg8::D => 2,
        Reg8::E => 3,
        Reg8::H => 4,
        Reg8::L => 5,
        Reg8::A => 7,
    }
}

/// The 16-bit register an instruction encodes with the two-bit code `code`
/// (`BC DE HL SP` for 0 to 3).
pub open spec fn reg16_of_code(code: u8) -> Reg16 {
    if code == 0 {
        Reg16::BC
    } else if code == 1 {
        Reg16::DE
    } else if code == 2 {
        Reg16::HL
    } else {
        Reg16::SP
    }
}

/// The two-bit code of register `r`.
pub open spec fn code_of_reg16(r: Reg16) -> u8 {
    match r {
        Reg16::BC => 0,
        Reg16::DE => 1,
        Reg16::HL => 2,
        Reg16::SP => 3,
    }
}

impl Reg8 {
    /// The register with three-bit code `code`, if any.
    pub fn from_code(code: u8) -> (r: Option<Reg8>)
        ensures
            r == reg8_of_code(code),
    {
        if code == 0 {
            Some(Reg8::B)
        } else if code == 1 {
            Some(Reg8::C)
        } else if code == 2 {
            Some(Reg8::D)
        } else if code == 3 {
            Some(Reg8::E)
        } else if code == 4 {
            Some(Reg8::H)
        } else if code == 5 {
            Some(Reg8::L)
        } else if code == 7 {
            Some(Reg8::A)
        } else {
            None
        }
    }

    /// The register among B, C, D, E, H, L whose code is `opcode - base`.
    pub fn from_offset(opcode: u8, base: u8) -> (r: Option<Reg8>)
        requires
            base <= 250,
        ensures
            (r is Some) <==> (base <= opcode && opcode <= base + 5),
            r matches Some(reg) ==> base + code_of_reg8(reg) == opcode,
    {
        if base <= opcode && opcode <= base + 5 {
            Reg8::from_code(opcode - base)
        } else {
            None
        }
    }

    /// The register's three-bit code.
    pub fn code(&self) -> (r: u8)
        ensures
            r == code_of_reg8(*self),
            r < 8,
            r != 6,
            reg8_of_code(r) == Some(*self),
    {
        match self {
            Reg8::B => 0,
            Reg8::C => 1,
            Reg8::D => 2,
            Reg8::E => 3,
            Reg8::H => 4,
            Reg8::L => 5,
            Reg8::A => 7,
        }
    }
}

impl Reg16 {
    /// The register with two-bit code `code & 3`.
    pub fn from_code(code: u8) -> (r: Reg16)
        requires
            code < 4,
        ensures
            r == reg16_of_code(code),
    {
        if code == 0 {
            Reg16::BC
        } else if code == 1 {
            Reg16::DE
        } else if code == 2 {
            Reg16::HL
        } else {
            Reg16::SP
        }
    }

    /// The register's two-bit code.
    pub fn code(&self) -> (r: u8)
        ensures
            r == code_of_reg16(*self),
            r < 4,
            reg16_of_code(r) == *self,
    {
        match self {
            Reg16::BC => 0,
            Reg16::DE => 1,
            Reg16::HL => 2,
            Reg16::SP => 3,
        }
    }
}

/// The 16-bit value whose high byte is `hi` and low byte `lo`.
pub open spec fn pair(hi: u8, lo: u8) -> u16 {
    (hi as int * 256 + lo as int) as u16
}

/// The contents of the register file as plain numbers.
#[derive(PartialEq, Eq, Structural)]
pub struct RegistersView {
    pub a: u8,
    pub f: u8,
    pub b: u8,
    pub c: u8,
    pub d: u8,
    pub e: u8,
    pub h: u8,
    pub l: u8,
    pub sp: u16,
    pub pc: u16,
}

impl RegistersView {
    pub open spec fn r8(self, r: Reg8) -> u8 {
        match r {
            Reg8::A => self.a,
            Reg8::B => self.b,
            Reg8::C => self.c,
            Reg8::D => self.d,
            Reg8::E => self.e,
            Reg8::H => self.h,
            Reg8::L => self.l,
        }
    }

    pub open spec fn set8(self, r: Reg8, v: u8) -> RegistersView {
        match r {
            Reg8::A => RegistersView { a: v, ..self },
            Reg8::B => RegistersView { b: v, ..self },
            Reg8::C => RegistersView { c: v, ..self },
            Reg8::D => RegistersView { d: v, ..self },
            Reg8::E => RegistersView { e: v, ..self },
            Reg8::H => RegistersView { h: v, ..self },
            Reg8::L => RegistersView { l: v, ..self },
        }
    }

    pub open spec fn r16(self, r: Reg16) -> u16 {
        match r {
            Reg16::BC => pair(self.b, self.c),
            Reg16::DE => pair(self.d, self.e),
            Reg16::HL => pair(self.h, self.l),
            Reg16::SP => self.sp,
        }
    }

    pub open spec fn set16(self, r: Reg16, v: u16) -> RegistersView {
        let hi = (v / 256) as u8;
        let lo = (v % 256) as u8;
        match r {
            Reg16::BC => RegistersView { b: hi, c: lo, ..self },
            Reg16::DE => RegistersView { d: hi, e: lo, ..self },
            Reg16::HL => RegistersView { h: hi, l: lo, ..self },
            Reg16::SP => RegistersView { sp: v, ..self },
        }
    }

    pub open spec fn hl(self) -> u16 {
        pair(self.h, self.l)
    }

    pub open spec fn set_f(self, f: u8) -> RegistersView {
        RegistersView { f, ..self }
    }

    pub open spec fn set_pc(self, pc: u16) -> RegistersView {
        RegistersView { pc, ..self }
    }

    pub open spec fn set_sp(self, sp: u16) -> RegistersView {
        RegistersView { sp, ..self }
    }

    pub open spec fn set_a(self, a: u8) -> RegistersView {
        RegistersView { a, ..self }
    }
}

/// Writing a pair and reading it back gives the value written.
pub proof fn lemma_pair_split(v: u16)
    ensures
        pair((v / 256) as u8, (v % 256) as u8) == v,
{
}

/// The CPU's register file: the 8-bit registers `A F B C D E H L`, which pair
/// up as `AF BC DE HL`, the stack pointer and the program counter.
pub struct Registers {
    pub a: Register8,
    pub f: Register8,
    pub b: Register8,
    pub c: Register8,
    pub d: Register8,
    pub e: Register8,
    pub h: Register8,
    pub l: Register8,
    pub sp: Register16,
    pub pc: Register16,
}

impl View for Registers {
    type V = RegistersView;

    open spec fn view(&self) -> RegistersView {
        RegistersView {
            a: self.a@,
            f: self.f@,
            b: self.b@,
            c: self.c@,
            d: self.d@,
            e: self.e@,
            h: self.h@,
            l: self.l@,
            sp: self.sp@,
            pc: self.pc@,
        }
    }
}

fn high_byte(v: u16) -> (r: u8)
    ensures
        r == v / 256,
{
    (v / 256) as u8
}

fn low_byte(v: u16) -> (r: u8)
    ensures
        r == v % 256,
{
    (v % 256) as u8
}

fn join(hi: u8, lo: u8) -> (r: u16)
    ensures
        r == pair(hi, lo),
{
    (hi as u16) * 256 + (lo as u16)
}

impl Registers {
    /// The contents of registers loaded from the pairs `AF`, `BC`, `DE`,
    /// `HL`, the program counter and the stack pointer.
    pub open spec fn new_spec(af: u16, bc: u16, de: u16, hl: u16, pc: u16, sp: u16) -> RegistersView {
        RegistersView {
            a: (af / 256) as u8,
            f: (af % 256) as u8,
            b: (bc / 256) as u8,
            c: (bc % 256) as u8,
            d: (de / 256) as u8,
            e: (de % 256) as u8,
            h: (hl / 256) as u8,
            l: (hl % 256) as u8,
            sp,
            pc,
        }
    }

    /// Registers loaded from the pairs `AF`, `BC`, `DE`, `HL`, the program
    /// counter and the stack pointer.
    pub fn new(af: u16, bc: u16, de: u16, hl: u16, pc: u16, sp: u16) -> (r: Self)
        ensures
            r@ == Self::new_spec(af, bc, de, hl, pc, sp),
    {
        Registers {
            a: Register8::new(high_byte(af)),
            f: Register8::new(low_byte(af)),
            b: Register8::new(high_byte(bc)),
            c: Register8::new(low_byte(bc)),
            d: Register8::new(high_byte(de)),
            e: Register8::new(low_byte(de)),
            h: Register8::new(high_byte(hl)),
            l: Register8::new(low_byte(hl)),
            sp: Register16::new(sp),
            pc: Register16::new(pc),
        }
    }

    /// The 8-bit register `r`.
    pub fn get8(&self, r: Reg8) -> (v: u8)
        ensures
            v == self@.r8(r),
    {
        match r {
            Reg8::A => self.a.get_value(),
            Reg8::B => self.b.get_value(),
            Reg8::C => self.c.get_value(),
            Reg8::D => self.d.get_value(),
            Reg8::E => self.e.get_value(),
            Reg8::H => self.h.get_value(),
            Reg8::L => self.l.get_value(),
        }
    }

    /// Writes the 8-bit register `r`.
    pub fn set8(&mut self, r: Reg8, v: u8)
        ensures
            final(self)@ == old(self)@.set8(r, v),
    {
        match r {
            Reg8::A => self.a.set_value(v),
            Reg8::B => self.b.set_value(v),
            Reg8::C => self.c.set_value(v),
            Reg8::D => self.d.set_value(v),
            Reg8::E => self.e.set_value(v),
            Reg8::H => self.h.set_value(v),
            Reg8::L => self.l.set_value(v),
        }
    }

    /// The 16-bit register `r`.
    pub fn get16(&self, r: Reg16) -> (v: u16)
        ensures
            v == self@.r16(r),
    {
        match r {
            Reg16::BC => join(self.b.get_value(), self.c.get_value()),
            Reg16::DE => join(self.d.get_value(), self.e.get_value()),
            Reg16::HL => join(self.h.get_value(), self.l.get_value()),
            Reg16::SP => self.sp.get_value(),
        }
    }

    /// Writes the 16-bit register `r`; a pair takes the high byte in its
    /// first register.
    pub fn set16(&mut self, r: Reg16, v: u16)
        ensures
            final(self)@ == old(self)@.set16(r, v),
    {
        let hi = high_byte(v);
        let lo = low_byte(v);
        match r {
            Reg16::BC => {
                self.b.set_value(hi);
                self.c.set_value(lo);
            },
            Reg16::DE => {
                self.d.set_value(hi);
                self.e.set_value(lo);
            },
            Reg16::HL => {
                self.h.set_value(hi);
                self.l.set_value(lo);
            },
            Reg16::SP => self.sp.set_value(v),
        }
    }

    pub fn get_af(&self) -> (v: u16)
        ensures
            v == pair(self@.a, self@.f),
    {
        join(self.a.get_value(), self.f.get_value())
    }

    pub fn get_bc(&self) -> (v: u16)
        ensures
            v == self@.r16(Reg16::BC),
    {
        self.get16(Reg16::BC)
    }

    pub fn set_bc(&mut self, v: u16)
        ensures
            final(self)@ == old(self)@.set16(Reg16::BC, v),
    {
        self.set16(Reg16::BC, v)
    }

    pub fn get_de(&self) -> (v: u16)
        ensures
            v == self@.r16(Reg16::DE),
    {
        self.get16(Reg16::DE)
    }

    pub fn set_de(&mut self, v: u16)
        ensures
            final(self)@ == old(self)@.set16(Reg16::DE, v),
    {
        self.set16(Reg16::DE, v)
    }

    pub fn get_hl(&self) -> (v: u16)
        ensures
            v == self@.hl(),
    {
        self.get16(Reg16::HL)
    }

    pub fn set_hl(&mut self, v: u16)
        ensures
            final(self)@ == old(self)@.set16(Reg16::HL, v),
    {
        self.set16(Reg16::HL, v)
    }
}

} // verus!
