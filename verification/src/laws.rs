use vstd::prelude::*;
use crate::alu::{add8, add_flags, half_borrow_sub, half_carry_add, lemma_flags_bits, sub8, sub_flags};
use crate::instructions::misc::{daa_offset, daa_value};
use crate::performance_timer::{distinct_categories, saturating_sum, totals_after};
use crate::cpu::{Interrupt, fetch_address, fetch_state, interrupt_address};
use crate::instructions::decode::{Bitwise, Instruction};
use crate::instructions::jumps::{pushed, word_at};
use crate::register::{bit_of, with_bit, wrap_sub};
use crate::registers::{Reg16, Reg8, RegistersView, code_of_reg16, code_of_reg8};

verus! {

/// Writing an 8-bit register and reading it back gives the value written;
/// every other 8-bit register keeps its value.
pub proof fn lemma_register8_write_read(r: RegistersView, x: Reg8, y: Reg8, v: u8)
    ensures
        r.set8(x, v).r8(x) == v,
        x != y ==> r.set8(x, v).r8(y) == r.r8(y),
        r.set8(x, v).sp == r.sp && r.set8(x, v).pc == r.pc && r.set8(x, v).f == r.f,
{
}

/// Writing a 16-bit register and reading it back gives the value written; the
/// other 16-bit registers keep their values; a pair's high byte lands in its
/// first register and its low byte in its second.
pub proof fn lemma_register16_write_read(r: RegistersView, x: Reg16, y: Reg16, v: u16)
    ensures
        r.set16(x, v).r16(x) == v,
        x != y ==> r.set16(x, v).r16(y) == r.r16(y),
        r.set16(Reg16::HL, v).h == v / 256 && r.set16(Reg16::HL, v).l == v % 256,
        r.set16(x, v).a == r.a && r.set16(x, v).f == r.f && r.set16(x, v).pc == r.pc,
{
}

/// Reading a pair is reading its two halves: HL is H * 256 + L.
pub proof fn lemma_pair_of_halves(r: RegistersView)
    ensures
        r.hl() == r.h * 256 + r.l,
        r.r16(Reg16::BC) == r.b * 256 + r.c,
        r.r16(Reg16::DE) == r.d * 256 + r.e,
{
}

/// Register codes and registers correspond one to one.
pub proof fn lemma_register_codes_distinct(x: Reg8, y: Reg8, p: Reg16, q: Reg16)
    ensures
        code_of_reg8(x) == code_of_reg8(y) ==> x == y,
        code_of_reg16(p) == code_of_reg16(q) ==> p == q,
{
}

/// Setting a bit and reading it back gives what was set; other bits keep
/// their values; setting a bit twice is setting it once.
pub proof fn lemma_bit_write_read(value: u8, bit: u8, on: bool, other: u8, again: bool)
    requires
        bit < 8,
        other < 8,
    ensures
        bit_of(with_bit(value, bit, on), bit) == on,
        other != bit ==> bit_of(with_bit(value, bit, on), other) == bit_of(value, other),
        with_bit(with_bit(value, bit, on), bit, again) == with_bit(value, bit, again),
{
    crate::register::lemma_with_bit(value, bit, on, other);
    assert(with_bit(with_bit(value, bit, on), bit, again) == with_bit(value, bit, again))
        by (bit_vector)
        requires
            bit < 8,
    ;
}

/// Subtracting what was added gives the first value back, and adding back
/// what was subtracted does too (for values of a register of modulus `m`).
pub proof fn lemma_sub_undoes_add(a: u32, b: u32, m: u32)
    requires
        a < m,
        b < m,
        m == 256 || m == 65536,
    ensures
        wrap_sub((a + b) % (m as int), b as int, m as int) == a,
        (wrap_sub(a as int, b as int, m as int) + b) % (m as int) == a,
{
    if m == 256 {
        assert(((a + b) % 256 >= b ==> (a + b) % 256 - b == a) && ((a + b) % 256 < b ==> (a + b)
            % 256 - b + 256 == a) && (a >= b ==> (a - b + b) % 256 == a) && (a < b ==> (a - b + 256
            + b) % 256 == a)) by (bit_vector)
            requires
                a < 256,
                b < 256,
        ;
    } else {
        assert(((a + b) % 65536 >= b ==> (a + b) % 65536 - b == a) && ((a + b) % 65536 < b ==> (a
            + b) % 65536 - b + 65536 == a) && (a >= b ==> (a - b + b) % 65536 == a) && (a < b ==> (a
            - b + 65536 + b) % 65536 == a)) by (bit_vector)
            requires
                a < 65536,
                b < 65536,
        ;
    }
}

/// Addition is commutative, in its result and in all its flags, with or
/// without a carry in.
pub proof fn lemma_add_commutes(f: u8, a: u32, b: u32, cin: int, m: u32, hm: u32)
    ensures
        (a + b + cin) % (m as int) == (b + a + cin) % (m as int),
        add_flags(f, a, b, cin, m, hm) == add_flags(f, b, a, cin, m, hm),
{
    assert(a + b + cin == b + a + cin);
}

/// Comparing a value with itself sets Z and N and resets H and C.
pub proof fn lemma_compare_with_itself(f: u8, a: u32, m: u32, hm: u32)
    requires
        m > 0,
        hm > 0,
    ensures
        sub_flags(f, a, a, 0, m, hm) == crate::alu::flags_with(f, true, true, false, false),
{
}

/// The half carry of an 8-bit addition is the carry out of the addition of
/// the two values shifted left by four bits, which is how it is computed
/// on the Game Boy's 8-bit registers; likewise the half borrow of a
/// subtraction.
pub proof fn lemma_half_carry_is_shifted_carry_u8(a: u8, b: u8)
    ensures
        half_carry_add(a as u32, b as u32, 0, 16) == ((a << 4u8) as int + (b << 4u8) as int > 255),
        half_borrow_sub(a as u32, b as u32, 0, 16) == ((a << 4u8) < (b << 4u8)),
{
    assert(((a as u32) % 16 + (b as u32) % 16 >= 16) == ((a << 4u8) as u32 + (b << 4u8) as u32
        > 255) && ((a as u32) % 16 < (b as u32) % 16) == ((a << 4u8) < (b << 4u8))) by (bit_vector);
}

/// The 16-bit counterpart of [`lemma_half_carry_is_shifted_carry_u8`]: the
/// half carry is the carry out of bit 11.
pub proof fn lemma_half_carry_is_shifted_carry_u16(a: u16, b: u16)
    ensures
        half_carry_add(a as u32, b as u32, 0, 4096) == ((a << 4u16) as int + (b << 4u16) as int
            > 65535),
        half_borrow_sub(a as u32, b as u32, 0, 4096) == ((a << 4u16) < (b << 4u16)),
{
    assert(((a as u32) % 4096 + (b as u32) % 4096 >= 4096) == ((a << 4u16) as u32 + (b << 4u16) as u32
        > 65535) && ((a as u32) % 4096 < (b as u32) % 4096) == ((a << 4u16) < (b << 4u16)))
        by (bit_vector);
}

/// What a push writes, a word read at the new stack pointer gives back (the
/// low byte lands at the lower address). The one exception is a push from
/// SP = 1, whose two bytes wrap round the top of memory.
pub proof fn lemma_push_then_read_word(m: Seq<u8>, sp: u16, value: u16)
    requires
        m.len() == 65536,
        sp != 1,
    ensures
        ({
            let (m1, sp1) = pushed(m, sp, value);
            &&& word_at(m1, sp1) == value
            &&& sp1 == wrap_sub(sp as int, 2, 65536)
            &&& m1.len() == 65536
        }),
{
    let (m1, sp1) = pushed(m, sp, value);
    let s1 = wrap_sub(sp as int, 1, 65536);
    assert(m1[sp1 as int] == (value % 256) as u8);
    assert(m1[sp1 + 1] == (value / 256) as u8);
}

/// A byte holding two decimal digits, one in each nibble.
pub open spec fn is_bcd(x: u8) -> bool {
    x % 16 <= 9 && x / 16 <= 9
}

/// The number (below 100) that the two decimal digits of a byte stand for.
pub open spec fn bcd_value(x: u8) -> u8 {
    (x / 16 * 10 + x % 16) as u8
}

/// The byte of two decimal digits that stands for `d` (below 100).
pub open spec fn bcd_of(d: u8) -> u8 {
    (d / 10 * 16 + d % 10) as u8
}

/// `ADD` of two decimal bytes followed by `DAA` gives the decimal byte of
/// the sum modulo 100, and DAA's carry says whether the sum reached 100.
#[verifier::spinoff_prover]
#[verifier::rlimit(30)]
pub proof fn lemma_daa_after_add(f: u8, a: u8, b: u8)
    requires
        is_bcd(a),
        is_bcd(b),
    ensures
        ({
            let s = add8(a, b, 0);
            let f1 = add_flags(f, a as u32, b as u32, 0, 256, 16);
            let n = bit_of(f1, 6);
            let h = bit_of(f1, 5);
            let c = bit_of(f1, 4);
            &&& daa_value(s, n, h, c) == bcd_of(((bcd_value(a) + bcd_value(b)) % 100) as u8)
            &&& (c || (!n && s > 0x99)) == (bcd_value(a) + bcd_value(b) >= 100)
        }),
{
    let s = add8(a, b, 0);
    let h = half_carry_add(a as u32, b as u32, 0, 16);
    let c = a + b >= 256;
    lemma_flags_bits(f, s == 0, false, h, c, false);
    assert(h == (a % 16 + b % 16 >= 16));
    assert(s == ((a + b) % 256) as u8);
    assert(((((a + b) % 256) as u8 + daa_offset(((a + b) % 256) as u8, false, a % 16 + b % 16 >= 16, a + b >= 256)) % 256) as u8
        == bcd_of(((bcd_value(a) + bcd_value(b)) % 100) as u8)) by (bit_vector)
        requires
            is_bcd(a),
            is_bcd(b),
    ;
    assert((a + b >= 256 || ((a + b) % 256) as u8 > 0x99) == (bcd_value(a) + bcd_value(b) >= 100))
        by (bit_vector)
        requires
            is_bcd(a),
            is_bcd(b),
    ;
}

/// `SUB` of two decimal bytes followed by `DAA` gives the decimal byte of
/// the difference modulo 100, and DAA's carry says whether it borrowed.
#[verifier::spinoff_prover]
#[verifier::rlimit(30)]
pub proof fn lemma_daa_after_sub(f: u8, a: u8, b: u8)
    requires
        is_bcd(a),
        is_bcd(b),
    ensures
        ({
            let s = sub8(a, b, 0);
            let f1 = sub_flags(f, a as u32, b as u32, 0, 256, 16);
            let n = bit_of(f1, 6);
            let h = bit_of(f1, 5);
            let c = bit_of(f1, 4);
            &&& daa_value(s, n, h, c) == bcd_of(((bcd_value(a) + 100 - bcd_value(b)) % 100) as u8)
            &&& (c || (!n && s > 0x99)) == (bcd_value(a) < bcd_value(b))
        }),
{
    let s = sub8(a, b, 0);
    let h = half_borrow_sub(a as u32, b as u32, 0, 16);
    let c = a < b;
    lemma_flags_bits(f, wrap_sub(a as int, b as int, 256) == 0, true, h, c, false);
    assert(h == (a % 16 < b % 16));
    assert(s == ((a + 256 - b) % 256) as u8);
    let o = daa_offset(s, true, h, c);
    assert(o == daa_offset(((a + 256 - b) % 256) as u8, true, a % 16 < b % 16, a < b));
    assert(((((a + 256 - b) % 256) as u8 + 256 - daa_offset(((a + 256 - b) % 256) as u8, true, a % 16 < b % 16, a < b)) % 256) as u8
        == bcd_of(((bcd_value(a) + 100 - bcd_value(b)) % 100) as u8)) by (bit_vector)
        requires
            is_bcd(a),
            is_bcd(b),
    ;
    assert(wrap_sub(s as int, o as int, 256) == (s + 256 - o) % 256);
    assert((a < b) == (bcd_value(a) < bcd_value(b))) by (bit_vector)
        requires
            is_bcd(a),
            is_bcd(b),
    ;
}

/// Every tick of an instruction that can finish either finishes it or
/// leaves it with fewer ticks to go, and it stays one that can finish unless
/// it is the prefix reading an unknown opcode: no instruction but an unknown
/// one runs forever.
#[verifier::spinoff_prover]
#[verifier::rlimit(40)]
pub proof fn lemma_tick_makes_progress(
    i: Instruction,
    next: Instruction,
    r0: RegistersView,
    r1: RegistersView,
    m0: Seq<u8>,
    m1: Seq<u8>,
    ie0: bool,
    ie1: bool,
    h0: bool,
    h1: bool,
    done: bool,
)
    requires
        i.wf(),
        !i.never_finishes(),
        i.step(next, r0, r1, m0, m1, ie0, ie1, h0, h1, done),
    ensures
        done || next.ticks_left() < i.ticks_left(),
        next.never_finishes() ==> (i matches Instruction::Bitwise(b) && b.instruction is None),
{
    match i {
        Instruction::Bitwise(b) => {
            lemma_prefixed_tick_makes_progress(b, next, r0, r1, m0, m1, ie0, ie1, h0, h1, done);
        },
        _ => {},
    }
}

/// The prefix's part of [`lemma_tick_makes_progress`].
proof fn lemma_prefixed_tick_makes_progress(
    b: Bitwise,
    next: Instruction,
    r0: RegistersView,
    r1: RegistersView,
    m0: Seq<u8>,
    m1: Seq<u8>,
    ie0: bool,
    ie1: bool,
    h0: bool,
    h1: bool,
    done: bool,
)
    requires
        Instruction::Bitwise(b).wf(),
        !Instruction::Bitwise(b).never_finishes(),
        Instruction::Bitwise(b).step(next, r0, r1, m0, m1, ie0, ie1, h0, h1, done),
    ensures
        done || next.ticks_left() < Instruction::Bitwise(b).ticks_left(),
        next.never_finishes() ==> b.instruction is None,
{
}

/// Serving a pending interrupt between two instructions pushes the address
/// the CPU was about to run from, where a read of the word at the new stack
/// pointer finds it, and starts the handler: the next opcode comes from the
/// handler's address, PC ends just past it, SP is two lower, and no other
/// register changes. Without a pending interrupt the opcode comes from PC
/// and only PC moves. (A push from SP = 1 wraps round the top of memory and
/// is left out, as in [`lemma_push_then_read_word`].)
pub proof fn lemma_interrupt_is_served(r: RegistersView, m: Seq<u8>, interrupt: Interrupt)
    requires
        m.len() == 65536,
        r.sp != 1,
    ensures
        ({
            let (r1, m1) = fetch_state(r, m, Some(interrupt));
            &&& fetch_address(r, Some(interrupt)) == interrupt_address(interrupt)
            &&& r1.pc == interrupt_address(interrupt) + 1
            &&& r1.sp == wrap_sub(r.sp as int, 2, 65536)
            &&& word_at(m1, r1.sp) == r.pc
            &&& r1 == r.set_sp(r1.sp).set_pc(r1.pc)
        }),
        ({
            let (r1, m1) = fetch_state(r, m, None);
            &&& fetch_address(r, None) == r.pc
            &&& r1 == r.set_pc(((r.pc + 1) % 65536) as u16)
            &&& m1 == m
        }),
{
    lemma_push_then_read_word(m, r.sp, r.pc);
}

/// The sum of the totals, in nanoseconds.
pub open spec fn total_nanos(totals: Seq<(Seq<char>, u128)>) -> int
    decreases totals.len(),
{
    if totals.len() == 0 {
        0
    } else {
        total_nanos(totals.drop_last()) + totals.last().1
    }
}

proof fn lemma_total_nanos_push(totals: Seq<(Seq<char>, u128)>, entry: (Seq<char>, u128))
    ensures
        total_nanos(totals.push(entry)) == total_nanos(totals) + entry.1,
{
    assert(totals.push(entry).drop_last() =~= totals);
}

proof fn lemma_total_nanos_update(totals: Seq<(Seq<char>, u128)>, i: int, entry: (Seq<char>, u128))
    requires
        0 <= i < totals.len(),
    ensures
        total_nanos(totals.update(i, entry)) == total_nanos(totals) - totals[i].1 + entry.1,
        totals[i].1 <= total_nanos(totals),
    decreases totals.len(),
{
    let last = totals.len() - 1;
    if i == last {
        assert(totals.update(i, entry).drop_last() =~= totals.drop_last());
    } else {
        lemma_total_nanos_update(totals.drop_last(), i, entry);
        assert(totals.update(i, entry).drop_last() =~= totals.drop_last().update(i, entry));
    }
    lemma_total_nanos_nonnegative(totals.drop_last());
}

proof fn lemma_total_nanos_nonnegative(totals: Seq<(Seq<char>, u128)>)
    ensures
        total_nanos(totals) >= 0,
    decreases totals.len(),
{
    if totals.len() > 0 {
        lemma_total_nanos_nonnegative(totals.drop_last());
    }
}

/// Counting time for a category never takes time away: every category
/// already counted keeps its place and a total no smaller than before; at
/// most the category counted is added, at the end; the categories stay
/// distinct; the counted category is there afterwards; and the sum of the
/// totals grows by exactly the time counted, unless that sum would pass
/// `u128::MAX` (where the category's total saturates instead).
pub proof fn lemma_totals_only_grow(totals: Seq<(Seq<char>, u128)>, category: Seq<char>, nanos: u128)
    requires
        distinct_categories(totals),
    ensures
        ({
            let after = totals_after(totals, category, nanos);
            &&& distinct_categories(after)
            &&& totals.len() <= after.len() <= totals.len() + 1
            &&& forall|i: int|
                0 <= i < totals.len() ==> #[trigger] after[i].0 == totals[i].0 && after[i].1
                    >= totals[i].1
            &&& after.len() == totals.len() + 1 ==> after[totals.len() as int] == (category, nanos)
            &&& exists|i: int| 0 <= i < after.len() && #[trigger] after[i].0 == category
            &&& total_nanos(after) <= total_nanos(totals) + nanos
            &&& total_nanos(totals) + nanos <= u128::MAX ==> total_nanos(after) == total_nanos(
                totals,
            ) + nanos
        }),
{
    let after = totals_after(totals, category, nanos);
    if exists|i: int| 0 <= i < totals.len() && #[trigger] totals[i].0 == category {
        let i = choose|i: int| 0 <= i < totals.len() && #[trigger] totals[i].0 == category;
        let entry = (category, saturating_sum(totals[i].1, nanos));
        assert(after == totals.update(i, entry));
        lemma_total_nanos_update(totals, i, entry);
        assert(after[i].0 == category);
        assert forall|a: int, b: int| 0 <= a < b < after.len() implies #[trigger] after[a].0
            != #[trigger] after[b].0 by {
            assert(totals[a].0 != totals[b].0);
        }
    } else {
        let entry = (category, nanos);
        assert(after == totals.push(entry));
        lemma_total_nanos_push(totals, entry);
        assert(after[totals.len() as int].0 == category);
        assert forall|a: int, b: int| 0 <= a < b < after.len() implies #[trigger] after[a].0
            != #[trigger] after[b].0 by {
            if b < totals.len() {
                assert(totals[a].0 != totals[b].0);
            } else {
                assert(totals[a].0 != category);
            }
        }
    }
}

} // verus!
