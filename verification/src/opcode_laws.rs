use vstd::prelude::*;
use crate::alu::lemma_flags_bits;
use crate::instructions::decode::{BitwiseInstruction, Instruction};
use crate::instructions::jumps::{CallCcNn, JpCcNn};
use crate::register::bit_of;
use crate::registers::{RegistersView, code_of_reg8};

verus! {

// What the instructions do, stated from the opcode alone: the register an
// opcode names is read straight from the register file's fields, and the
// result is given as arithmetic on the values before the tick.

/// The 8-bit register that the three-bit code `code` of an opcode names:
/// B, C, D, E, H, L, (HL), A in that order (0 stands for (HL)).
pub open spec fn reg_by_code(r: RegistersView, code: u8) -> u8 {
    if code == 0 {
        r.b
    } else if code == 1 {
        r.c
    } else if code == 2 {
        r.d
    } else if code == 3 {
        r.e
    } else if code == 4 {
        r.h
    } else if code == 5 {
        r.l
    } else if code == 7 {
        r.a
    } else {
        0
    }
}

/// The 16-bit register that the two-bit code `code` of an opcode names: BC,
/// DE, HL, SP in that order, as a number.
pub open spec fn pair_by_code(r: RegistersView, code: u8) -> int {
    if code == 0 {
        r.b * 256 + r.c
    } else if code == 1 {
        r.d * 256 + r.e
    } else if code == 2 {
        r.h * 256 + r.l
    } else {
        r.sp as int
    }
}

/// `DEC rr` (0x0B, 0x1B, 0x2B, 0x3B): the instruction decoded from the
/// opcode runs two ticks and leaves the pair that `op / 16` names one lower
/// (0 going to 0xFFFF); the other pairs, A, F, PC and memory are unchanged.
#[verifier::spinoff_prover]
pub proof fn lemma_dec_rr_decrements_its_pair(
    op: u8,
    i: Instruction,
    n1: Instruction,
    n2: Instruction,
    r0: RegistersView,
    r1: RegistersView,
    r2: RegistersView,
    m0: Seq<u8>,
    m1: Seq<u8>,
    m2: Seq<u8>,
    ie: bool,
    h: bool,
    d1: bool,
    d2: bool,
)
    requires
        op < 0x40,
        op % 16 == 0x0B,
        i.decodes(op),
        i.step(n1, r0, r1, m0, m1, ie, ie, h, h, d1),
        n1.step(n2, r1, r2, m1, m2, ie, ie, h, h, d2),
    ensures
        !d1,
        d2,
        pair_by_code(r2, op / 16) == (pair_by_code(r0, op / 16) + 65535) % 65536,
        forall|c: u8| c < 4 && c != op / 16 ==> pair_by_code(r2, c) == pair_by_code(r0, c),
        r2.a == r0.a && r2.f == r0.f && r2.pc == r0.pc,
        m2 == m0,
{
}

/// `INC rr` (0x03, 0x13, 0x23, 0x33): the instruction decoded from the
/// opcode runs two ticks and leaves the pair that `op / 16` names one higher
/// (0xFFFF going to 0); the other pairs, A, F, PC and memory are unchanged.
#[verifier::spinoff_prover]
pub proof fn lemma_inc_rr_increments_its_pair(
    op: u8,
    i: Instruction,
    n1: Instruction,
    n2: Instruction,
    r0: RegistersView,
    r1: RegistersView,
    r2: RegistersView,
    m0: Seq<u8>,
    m1: Seq<u8>,
    m2: Seq<u8>,
    ie: bool,
    h: bool,
    d1: bool,
    d2: bool,
)
    requires
        op < 0x40,
        op % 16 == 0x03,
        i.decodes(op),
        i.step(n1, r0, r1, m0, m1, ie, ie, h, h, d1),
        n1.step(n2, r1, r2, m1, m2, ie, ie, h, h, d2),
    ensures
        !d1,
        d2,
        pair_by_code(r2, op / 16) == (pair_by_code(r0, op / 16) + 1) % 65536,
        forall|c: u8| c < 4 && c != op / 16 ==> pair_by_code(r2, c) == pair_by_code(r0, c),
        r2.a == r0.a && r2.f == r0.f && r2.pc == r0.pc,
        m2 == m0,
{
}

/// The registers after a tick that changes only A and F, from `r0`.
pub open spec fn only_a_and_f_changed(r0: RegistersView, r1: RegistersView) -> bool {
    r1 == (RegistersView { a: r1.a, f: r1.f, ..r0 })
}

/// `ADD A, r` (0x80 to 0x85): one tick; A becomes the old A plus the old
/// value of the register that `op % 8` names, modulo 256; Z says the new A
/// is zero, N is reset, H says the low nibbles carried, C says the sum
/// passed 0xFF; nothing else changes.
#[verifier::spinoff_prover]
pub proof fn lemma_add_a_r_adds_the_named_register(
    op: u8,
    i: Instruction,
    n: Instruction,
    r0: RegistersView,
    r1: RegistersView,
    m0: Seq<u8>,
    m1: Seq<u8>,
    ie: bool,
    h: bool,
    done: bool,
)
    requires
        0x80 <= op <= 0x85,
        i.decodes(op),
        i.step(n, r0, r1, m0, m1, ie, ie, h, h, done),
    ensures
        done,
        ({
            let v = reg_by_code(r0, op % 8);
            &&& r1.a == (r0.a + v) % 256
            &&& bit_of(r1.f, 7) == (r1.a == 0)
            &&& !bit_of(r1.f, 6)
            &&& bit_of(r1.f, 5) == (r0.a % 16 + v % 16 >= 16)
            &&& bit_of(r1.f, 4) == (r0.a + v >= 256)
        }),
        only_a_and_f_changed(r0, r1),
        m1 == m0,
{
    let v = reg_by_code(r0, op % 8);
    lemma_flags_bits(r0.f, (r0.a + v) % 256 == 0, false, r0.a % 16 + v % 16 >= 16, r0.a + v >= 256, false);
}

/// `ADC A, r` (0x88 to 0x8D): one tick; A becomes the old A plus the
/// register that `op % 8` names plus the old carry, modulo 256; Z, N, H and
/// C as for an addition of the three; nothing else changes.
#[verifier::spinoff_prover]
pub proof fn lemma_adc_a_r_adds_the_named_register_and_carry(
    op: u8,
    i: Instruction,
    n: Instruction,
    r0: RegistersView,
    r1: RegistersView,
    m0: Seq<u8>,
    m1: Seq<u8>,
    ie: bool,
    h: bool,
    done: bool,
)
    requires
        0x88 <= op <= 0x8D,
        i.decodes(op),
        i.step(n, r0, r1, m0, m1, ie, ie, h, h, done),
    ensures
        done,
        ({
            let v = reg_by_code(r0, op % 8);
            let c: int = if bit_of(r0.f, 4) { 1 } else { 0 };
            &&& r1.a == (r0.a + v + c) % 256
            &&& bit_of(r1.f, 7) == (r1.a == 0)
            &&& !bit_of(r1.f, 6)
            &&& bit_of(r1.f, 5) == (r0.a % 16 + v % 16 + c >= 16)
            &&& bit_of(r1.f, 4) == (r0.a + v + c >= 256)
        }),
        only_a_and_f_changed(r0, r1),
        m1 == m0,
{
    let v = reg_by_code(r0, op % 8);
    let c: int = if bit_of(r0.f, 4) { 1 } else { 0 };
    lemma_flags_bits(r0.f, (r0.a + v + c) % 256 == 0, false, r0.a % 16 + v % 16 + c >= 16, r0.a + v + c >= 256, false);
}

/// `AND A, r` (0xA0 to 0xA5): one tick; A becomes the bitwise and of the old
/// A and the register that `op % 8` names; Z says the new A is zero, N and C
/// are reset, H is set; nothing else changes.
#[verifier::spinoff_prover]
pub proof fn lemma_and_a_r_ands_the_named_register(
    op: u8,
    i: Instruction,
    n: Instruction,
    r0: RegistersView,
    r1: RegistersView,
    m0: Seq<u8>,
    m1: Seq<u8>,
    ie: bool,
    h: bool,
    done: bool,
)
    requires
        0xA0 <= op <= 0xA5,
        i.decodes(op),
        i.step(n, r0, r1, m0, m1, ie, ie, h, h, done),
    ensures
        done,
        r1.a == r0.a & reg_by_code(r0, op % 8),
        bit_of(r1.f, 7) == (r1.a == 0),
        !bit_of(r1.f, 6) && bit_of(r1.f, 5) && !bit_of(r1.f, 4),
        only_a_and_f_changed(r0, r1),
        m1 == m0,
{
    let v = reg_by_code(r0, op % 8);
    lemma_flags_bits(r0.f, r0.a & v == 0, false, true, false, false);
}

/// `CP A, r` (0xB8 to 0xBD): one tick; A keeps its value; Z says A equals
/// the register that `op % 8` names, N is set, H says A's low nibble is the
/// smaller, C says A is the smaller; nothing else changes.
#[verifier::spinoff_prover]
pub proof fn lemma_cp_a_r_compares_with_the_named_register(
    op: u8,
    i: Instruction,
    n: Instruction,
    r0: RegistersView,
    r1: RegistersView,
    m0: Seq<u8>,
    m1: Seq<u8>,
    ie: bool,
    h: bool,
    done: bool,
)
    requires
        0xB8 <= op <= 0xBD,
        i.decodes(op),
        i.step(n, r0, r1, m0, m1, ie, ie, h, h, done),
    ensures
        done,
        ({
            let v = reg_by_code(r0, op % 8);
            &&& r1.a == r0.a
            &&& bit_of(r1.f, 7) == (r0.a == v)
            &&& bit_of(r1.f, 6)
            &&& bit_of(r1.f, 5) == (r0.a % 16 < v % 16)
            &&& bit_of(r1.f, 4) == (r0.a < v)
        }),
        only_a_and_f_changed(r0, r1),
        m1 == m0,
{
    let v = reg_by_code(r0, op % 8);
    lemma_flags_bits(r0.f, crate::register::wrap_sub(r0.a as int, v as int, 256) == 0, true, r0.a % 16 < v % 16, r0.a < v, false);
}

/// Whether every 8-bit register but the one coded `code`, and SP and PC,
/// keep their values from `r0` to `r1`.
pub open spec fn others_kept(r0: RegistersView, r1: RegistersView, code: u8) -> bool {
    &&& forall|c: u8|
        c < 8 && c != 6 && c != code ==> #[trigger] reg_by_code(r1, c) == reg_by_code(r0, c)
    &&& r1.sp == r0.sp
    &&& r1.pc == r0.pc
}

/// `INC r` (0x04, 0x0C, ..., 0x3C but 0x34): one tick; the register that
/// `op / 8` names goes one up, 0xFF going to 0; Z says it is now zero, N is
/// reset, H says its low nibble was 0xF, C is kept; the other registers keep
/// their values.
#[verifier::spinoff_prover]
pub proof fn lemma_inc_r_increments_the_named_register(
    op: u8,
    i: Instruction,
    n: Instruction,
    r0: RegistersView,
    r1: RegistersView,
    m0: Seq<u8>,
    m1: Seq<u8>,
    ie: bool,
    h: bool,
    done: bool,
)
    requires
        op < 0x40,
        op % 8 == 4,
        op != 0x34,
        i.decodes(op),
        i.step(n, r0, r1, m0, m1, ie, ie, h, h, done),
    ensures
        done,
        ({
            let v = reg_by_code(r0, op / 8);
            let w = reg_by_code(r1, op / 8);
            &&& w == (v + 1) % 256
            &&& bit_of(r1.f, 7) == (w == 0)
            &&& !bit_of(r1.f, 6)
            &&& bit_of(r1.f, 5) == (v % 16 == 15)
            &&& bit_of(r1.f, 4) == bit_of(r0.f, 4)
        }),
        others_kept(r0, r1, op / 8),
        m1 == m0,
{
    let v = reg_by_code(r0, op / 8);
    lemma_flags_bits(r0.f, (v + 1) % 256 == 0, false, v % 16 + 1 >= 16, bit_of(r0.f, 4), false);
}

/// `DEC r` (0x05, 0x0D, ..., 0x3D but 0x35): one tick; the register that
/// `op / 8` names goes one down, 0 going to 0xFF; Z says it is now zero, N
/// is set, H says its low nibble was 0, C is kept; the other registers keep
/// their values.
#[verifier::spinoff_prover]
pub proof fn lemma_dec_r_decrements_the_named_register(
    op: u8,
    i: Instruction,
    n: Instruction,
    r0: RegistersView,
    r1: RegistersView,
    m0: Seq<u8>,
    m1: Seq<u8>,
    ie: bool,
    h: bool,
    done: bool,
)
    requires
        op < 0x40,
        op % 8 == 5,
        op != 0x35,
        i.decodes(op),
        i.step(n, r0, r1, m0, m1, ie, ie, h, h, done),
    ensures
        done,
        ({
            let v = reg_by_code(r0, op / 8);
            let w = reg_by_code(r1, op / 8);
            &&& w == (v + 255) % 256
            &&& bit_of(r1.f, 7) == (w == 0)
            &&& bit_of(r1.f, 6)
            &&& bit_of(r1.f, 5) == (v % 16 == 0)
            &&& bit_of(r1.f, 4) == bit_of(r0.f, 4)
        }),
        others_kept(r0, r1, op / 8),
        m1 == m0,
{
    let v = reg_by_code(r0, op / 8);
    lemma_flags_bits(r0.f, crate::register::wrap_sub(v as int, 1, 256) == 0, true, v % 16 < 1, bit_of(r0.f, 4), false);
}

/// `SET b, r` (prefixed 0xC0 to 0xFF, but those ending in 6 or 0xE): the
/// first tick sets bit `b` (bits 3 to 5 of the opcode) of the register that
/// `op % 8` names and keeps every other bit of it; the other registers and
/// the flags keep their values.
#[verifier::spinoff_prover]
pub proof fn lemma_set_b_r_sets_only_its_bit(
    op: u8,
    i: BitwiseInstruction,
    n: BitwiseInstruction,
    r0: RegistersView,
    r1: RegistersView,
    m0: Seq<u8>,
    m1: Seq<u8>,
    done: bool,
)
    requires
        0xC0 <= op,
        op % 8 != 6,
        i.wf(),
        i.decodes(op),
        i.step(n, r0, r1, m0, m1, done),
    ensures
        !done,
        reg_by_code(r1, op % 8) == reg_by_code(r0, op % 8) | (1u8 << ((op - 0xC0) / 8) as u8),
        others_kept(r0, r1, op % 8),
        r1.f == r0.f,
        m1 == m0,
{
    match i {
        BitwiseInstruction::SetBR(j) => {
            let code = code_of_reg8(j.reg);
            assert(op == 0xC0 + 8 * j.bit + code);
            assert((op - 0xC0) / 8 == j.bit);
            assert(op % 8 == code);
            assert(reg_by_code(r0, op % 8) == r0.r8(j.reg));
        },
        _ => {},
    }
}

/// `RES b, r` (prefixed 0x80 to 0xBF, but those ending in 6 or 0xE): the
/// first tick clears bit `b` (bits 3 to 5 of the opcode) of the register
/// that `op % 8` names and keeps every other bit of it; the other registers
/// and the flags keep their values.
#[verifier::spinoff_prover]
pub proof fn lemma_res_b_r_clears_only_its_bit(
    op: u8,
    i: BitwiseInstruction,
    n: BitwiseInstruction,
    r0: RegistersView,
    r1: RegistersView,
    m0: Seq<u8>,
    m1: Seq<u8>,
    done: bool,
)
    requires
        0x80 <= op < 0xC0,
        op % 8 != 6,
        i.wf(),
        i.decodes(op),
        i.step(n, r0, r1, m0, m1, done),
    ensures
        !done,
        reg_by_code(r1, op % 8) == reg_by_code(r0, op % 8) & !(1u8 << ((op - 0x80) / 8) as u8),
        others_kept(r0, r1, op % 8),
        r1.f == r0.f,
        m1 == m0,
{
    match i {
        BitwiseInstruction::ResBR(j) => {
            let code = code_of_reg8(j.reg);
            assert(op == 0x80 + 8 * j.bit + code);
            assert((op - 0x80) / 8 == j.bit);
            assert(op % 8 == code);
            assert(reg_by_code(r0, op % 8) == r0.r8(j.reg));
        },
        _ => {},
    }
}

/// `BIT b, r` (prefixed 0x40 to 0x7F, but those ending in 6 or 0xE): the
/// first tick sets Z exactly when bit `b` (bits 3 to 5 of the opcode) of the
/// register that `op % 8` names is clear, resets N, sets H and keeps C; no
/// register but F changes.
#[verifier::spinoff_prover]
pub proof fn lemma_bit_b_r_tests_its_bit(
    op: u8,
    i: BitwiseInstruction,
    n: BitwiseInstruction,
    r0: RegistersView,
    r1: RegistersView,
    m0: Seq<u8>,
    m1: Seq<u8>,
    done: bool,
)
    requires
        0x40 <= op < 0x80,
        op % 8 != 6,
        i.wf(),
        i.decodes(op),
        i.step(n, r0, r1, m0, m1, done),
    ensures
        !done,
        bit_of(r1.f, 7) == !bit_of(reg_by_code(r0, op % 8), ((op - 0x40) / 8) as u8),
        !bit_of(r1.f, 6) && bit_of(r1.f, 5),
        bit_of(r1.f, 4) == bit_of(r0.f, 4),
        r1 == r0.set_f(r1.f),
        m1 == m0,
{
    let v = reg_by_code(r0, op % 8);
    let b = ((op - 0x40) / 8) as u8;
    lemma_flags_bits(r0.f, !bit_of(v, b), false, true, bit_of(r0.f, 4), false);
    match i {
        BitwiseInstruction::BitBR(j) => {
            let code = code_of_reg8(j.reg);
            assert(op == 0x40 + 8 * j.bit + code);
            assert((op - 0x40) / 8 == j.bit);
            assert(op % 8 == code);
            assert(reg_by_code(r0, op % 8) == r0.r8(j.reg));
        },
        _ => {},
    }
}

/// `ADD HL, rr` (0x09, 0x19, 0x29, 0x39): two ticks; the first makes HL the
/// old HL plus the old pair that `op / 16` names, modulo 0x10000; Z says the
/// new HL is zero, N is reset, H says the low 12 bits carried, C says the
/// sum passed 0xFFFF; A, the other pairs, SP and PC keep their values.
#[verifier::spinoff_prover]
pub proof fn lemma_add_hl_rr_adds_the_named_pair(
    op: u8,
    i: Instruction,
    n1: Instruction,
    n2: Instruction,
    r0: RegistersView,
    r1: RegistersView,
    r2: RegistersView,
    m0: Seq<u8>,
    m1: Seq<u8>,
    m2: Seq<u8>,
    ie: bool,
    h: bool,
    d1: bool,
    d2: bool,
)
    requires
        op < 0x40,
        op % 16 == 0x09,
        i.decodes(op),
        i.step(n1, r0, r1, m0, m1, ie, ie, h, h, d1),
        n1.step(n2, r1, r2, m1, m2, ie, ie, h, h, d2),
    ensures
        !d1,
        d2,
        ({
            let hl = pair_by_code(r0, 2);
            let v = pair_by_code(r0, op / 16);
            &&& pair_by_code(r2, 2) == (hl + v) % 65536
            &&& bit_of(r2.f, 7) == (pair_by_code(r2, 2) == 0)
            &&& !bit_of(r2.f, 6)
            &&& bit_of(r2.f, 5) == (hl % 4096 + v % 4096 >= 4096)
            &&& bit_of(r2.f, 4) == (hl + v >= 65536)
        }),
        pair_by_code(r2, 0) == pair_by_code(r0, 0) && pair_by_code(r2, 1) == pair_by_code(r0, 1),
        r2.a == r0.a && r2.sp == r0.sp && r2.pc == r0.pc,
        m2 == m0,
{
    let hl = pair_by_code(r0, 2);
    let v = pair_by_code(r0, op / 16);
    lemma_flags_bits(r0.f, (hl + v) % 65536 == 0, false, hl % 4096 + v % 4096 >= 4096, hl + v >= 65536, false);
}

/// Whether `JP cc, nn` with opcode `op` jumps for the flag byte `f`: NZ
/// (0xC2) when Z is clear, Z (0xCA) when Z is set, NC (0xD2) when C is
/// clear, C (0xDA) when C is set.
pub open spec fn jp_taken(op: u8, f: u8) -> bool {
    if op == 0xC2 {
        !bit_of(f, 7)
    } else if op == 0xCA {
        bit_of(f, 7)
    } else if op == 0xD2 {
        !bit_of(f, 4)
    } else {
        bit_of(f, 4)
    }
}

/// Whether `CALL cc, nn` with opcode `op` calls for the flag byte `f`: 0xC4
/// when Z is clear, 0xCC when Z is set, 0xD4 and 0xDC both when C is clear.
pub open spec fn call_taken(op: u8, f: u8) -> bool {
    if op == 0xC4 {
        !bit_of(f, 7)
    } else if op == 0xCC {
        bit_of(f, 7)
    } else {
        !bit_of(f, 4)
    }
}

/// The last tick of `JP cc, nn` finishes the instruction and sets PC to the
/// target read before exactly when the instruction's condition holds
/// ([`jp_taken`]); otherwise PC keeps its value. Nothing else changes.
#[verifier::spinoff_prover]
pub proof fn lemma_jp_cc_nn_jumps_exactly_when_its_condition_holds(
    j: JpCcNn,
    n: Instruction,
    r0: RegistersView,
    r1: RegistersView,
    m0: Seq<u8>,
    m1: Seq<u8>,
    ie: bool,
    h: bool,
    done: bool,
)
    requires
        j.counter == 0,
        Instruction::JpCcNn(j).step(n, r0, r1, m0, m1, ie, ie, h, h, done),
    ensures
        done,
        r1.pc == (if jp_taken(j.spec_opcode(), r0.f) { j.address } else { r0.pc }),
        r1 == r0.set_pc(r1.pc),
        m1 == m0,
{
}

/// The push tick of `CALL cc, nn` (counter 1): when the instruction's
/// condition holds ([`call_taken`]), SP goes two down and the old PC is
/// stored below the old SP, high byte first, low byte at the new SP;
/// otherwise registers and memory are unchanged. It does not finish.
#[verifier::spinoff_prover]
pub proof fn lemma_call_cc_nn_pushes_exactly_when_its_condition_holds(
    j: CallCcNn,
    n: Instruction,
    r0: RegistersView,
    r1: RegistersView,
    m0: Seq<u8>,
    m1: Seq<u8>,
    ie: bool,
    h: bool,
    done: bool,
)
    requires
        j.counter == 1,
        Instruction::CallCcNn(j).step(n, r0, r1, m0, m1, ie, ie, h, h, done),
    ensures
        !done,
        call_taken(j.spec_opcode(), r0.f) ==> {
            &&& r1.sp == (r0.sp + 65534) % 65536
            &&& r1 == r0.set_sp(r1.sp)
            &&& m1 == m0.update((r0.sp + 65535) % 65536, (r0.pc / 256) as u8).update(
                (r0.sp + 65534) % 65536,
                (r0.pc % 256) as u8,
            )
        },
        !call_taken(j.spec_opcode(), r0.f) ==> r1 == r0 && m1 == m0,
{
}

/// The last tick of `CALL cc, nn` (counter 0) finishes the instruction and
/// sets PC to the target exactly when the instruction's condition holds
/// ([`call_taken`]); otherwise PC keeps its value. Nothing else changes.
#[verifier::spinoff_prover]
pub proof fn lemma_call_cc_nn_jumps_exactly_when_its_condition_holds(
    j: CallCcNn,
    n: Instruction,
    r0: RegistersView,
    r1: RegistersView,
    m0: Seq<u8>,
    m1: Seq<u8>,
    ie: bool,
    h: bool,
    done: bool,
)
    requires
        j.counter == 0,
        Instruction::CallCcNn(j).step(n, r0, r1, m0, m1, ie, ie, h, h, done),
    ensures
        done,
        r1.pc == (if call_taken(j.spec_opcode(), r0.f) { j.address } else { r0.pc }),
        r1 == r0.set_pc(r1.pc),
        m1 == m0,
{
}

} // verus!
