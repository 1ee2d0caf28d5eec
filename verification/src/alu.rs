use vstd::prelude::*;
use crate::register::{bit_of, with_bit, wrap_sub, Register, Register8};

verus! {

/// The flag byte `f` with its four flag bits replaced: zero (bit 7),
/// subtract (bit 6), half carry (bit 5) and carry (bit 4). The low nibble of
/// `f` is kept.
pub open spec fn flags_with(f: u8, z: bool, n: bool, h: bool, c: bool) -> u8 {
    (f & 0x0Fu8) | (if z {
        0x80u8
    } else {
        0u8
    }) | (if n {
        0x40u8
    } else {
        0u8
    }) | (if h {
        0x20u8
    } else {
        0u8
    }) | (if c {
        0x10u8
    } else {
        0u8
    })
}

/// `1` when the carry `c` is set, `0` otherwise.
pub open spec fn carry_in(c: bool) -> int {
    if c {
        1
    } else {
        0
    }
}

/// Whether `a + b + cin` carries out of the part of the register below its top
/// four bits.
pub open spec fn half_carry_add(a: u32, b: u32, cin: int, hm: u32) -> bool {
    (a % hm) + (b % hm) + cin >= hm
}

/// Whether `a - b - cin` borrows from the part of the register above its low
/// part (the part below the top four bits).
pub open spec fn half_borrow_sub(a: u32, b: u32, cin: int, hm: u32) -> bool {
    (a % hm) < (b % hm) + cin
}


/// The flags after adding `b` and the carry `cin` to `a` in a register of
/// modulus `m` whose low part has modulus `hm`.
pub open spec fn add_flags(f: u8, a: u32, b: u32, cin: int, m: u32, hm: u32) -> u8 {
    flags_with(f, (a + b + cin) % (m as int) == 0, false, half_carry_add(a, b, cin, hm), a + b + cin >= m)
}

/// The flags after subtracting `b` and the carry `cin` from `a` in a register
/// of modulus `m` whose low part has modulus `hm`.
pub open spec fn sub_flags(f: u8, a: u32, b: u32, cin: int, m: u32, hm: u32) -> u8 {
    flags_with(
        f,
        wrap_sub(a as int, b + cin, m as int) == 0,
        true,
        half_borrow_sub(a, b, cin, hm),
        a < b + cin,
    )
}

/// The 8-bit sum `a + b + cin`, wrapping.
pub open spec fn add8(a: u8, b: u8, cin: int) -> u8 {
    ((a + b + cin) % 256) as u8
}

/// The 8-bit difference `a - b - cin`, wrapping.
pub open spec fn sub8(a: u8, b: u8, cin: int) -> u8 {
    wrap_sub(a as int, b + cin, 256) as u8
}


/// The byte rotated left by one, bit 7 coming round to bit 0.
pub open spec fn rlc_value(v: u8) -> u8 {
    (v << 1u8) | (v >> 7u8)
}

/// The byte rotated right by one, bit 0 coming round to bit 7.
pub open spec fn rrc_value(v: u8) -> u8 {
    (v >> 1u8) | (v << 7u8)
}

/// The byte rotated right by one through the carry: the carry `c` enters at
/// bit 7.
pub open spec fn rr_value(v: u8, c: bool) -> u8 {
    (v >> 1u8) | (if c {
        0x80u8
    } else {
        0u8
    })
}

/// Every flag byte is its low nibble with its four flag bits.
pub proof fn lemma_flags_decompose(f: u8)
    ensures
        f == flags_with(f, bit_of(f, 7), bit_of(f, 6), bit_of(f, 5), bit_of(f, 4)),
{
    assert(f == flags_with(f, bit_of(f, 7), bit_of(f, 6), bit_of(f, 5), bit_of(f, 4)))
        by (bit_vector);
}

/// Reading and writing single flag bits of a composed flag byte.
pub proof fn lemma_flags_bits(f: u8, z: bool, n: bool, h: bool, c: bool, x: bool)
    ensures
        bit_of(flags_with(f, z, n, h, c), 7) == z,
        bit_of(flags_with(f, z, n, h, c), 6) == n,
        bit_of(flags_with(f, z, n, h, c), 5) == h,
        bit_of(flags_with(f, z, n, h, c), 4) == c,
        with_bit(flags_with(f, z, n, h, c), 7, x) == flags_with(f, x, n, h, c),
        with_bit(flags_with(f, z, n, h, c), 6, x) == flags_with(f, z, x, h, c),
        with_bit(flags_with(f, z, n, h, c), 5, x) == flags_with(f, z, n, x, c),
        with_bit(flags_with(f, z, n, h, c), 4, x) == flags_with(f, z, n, h, x),
{
    assert(bit_of(flags_with(f, z, n, h, c), 7) == z) by (bit_vector);
    assert(bit_of(flags_with(f, z, n, h, c), 6) == n) by (bit_vector);
    assert(bit_of(flags_with(f, z, n, h, c), 5) == h) by (bit_vector);
    assert(bit_of(flags_with(f, z, n, h, c), 4) == c) by (bit_vector);
    assert(with_bit(flags_with(f, z, n, h, c), 7, x) == flags_with(f, x, n, h, c))
        by (bit_vector);
    assert(with_bit(flags_with(f, z, n, h, c), 6, x) == flags_with(f, z, x, h, c))
        by (bit_vector);
    assert(with_bit(flags_with(f, z, n, h, c), 5, x) == flags_with(f, z, n, x, c))
        by (bit_vector);
    assert(with_bit(flags_with(f, z, n, h, c), 4, x) == flags_with(f, z, n, h, x))
        by (bit_vector);
}

/// Composing flags twice keeps only the second set of flags.
pub proof fn lemma_flags_twice(
    f: u8,
    z: bool,
    n: bool,
    h: bool,
    c: bool,
    z2: bool,
    n2: bool,
    h2: bool,
    c2: bool,
)
    ensures
        flags_with(flags_with(f, z, n, h, c), z2, n2, h2, c2) == flags_with(f, z2, n2, h2, c2),
{
    assert(flags_with(flags_with(f, z, n, h, c), z2, n2, h2, c2) == flags_with(f, z2, n2, h2, c2))
        by (bit_vector);
}

proof fn lemma_bitwise_bounds(x: u32, y: u32, m: u32)
    requires
        x < m,
        y < m,
        m == 256 || m == 65536,
    ensures
        x & y < m,
        x | y < m,
        x ^ y < m,
{
    assert(x & y < m) by (bit_vector)
        requires
            x < m,
    ;
    assert(x | y < m) by (bit_vector)
        requires
            x < m,
            y < m,
            m == 256 || m == 65536,
    ;
    assert(x ^ y < m) by (bit_vector)
        requires
            x < m,
            y < m,
            m == 256 || m == 65536,
    ;
}


/// What adding a carried-in one after `a + b` amounts to.
proof fn lemma_add_carry_arith(a: u32, b: u32, m: u32, hm: u32)
    requires
        a < m,
        b < m,
        (m == 256 && hm == 16) || (m == 65536 && hm == 4096),
    ensures
        (((a + b) % (m as int)) + 1) % (m as int) == (a + b + 1) % (m as int),
        ((a + b >= m) || ((a + b) % (m as int)) + 1 >= m) == (a + b + 1 >= m),
        (half_carry_add(a, b, 0, hm) || half_carry_add(((a + b) % (m as int)) as u32, 1, 0, hm))
            == half_carry_add(a, b, 1, hm),
{
    if m == 256 {
        assert(((a + b) % 256 + 1) % 256 == (a + b + 1) % 256) by (bit_vector)
            requires
                a < 256,
                b < 256,
        ;
        assert(((a + b) % 256 + 1 >= 256) == (a + b == 255)) by (bit_vector)
            requires
                a < 256,
                b < 256,
        ;
        assert((a % 16 + b % 16 >= 16 || ((a + b) % 256) % 16 + 1 >= 16) == (a % 16 + b % 16 + 1
            >= 16)) by (bit_vector)
            requires
                a < 256,
                b < 256,
        ;
    } else {
        assert(((a + b) % 65536 + 1) % 65536 == (a + b + 1) % 65536) by (bit_vector)
            requires
                a < 65536,
                b < 65536,
        ;
        assert(((a + b) % 65536 + 1 >= 65536) == (a + b == 65535)) by (bit_vector)
            requires
                a < 65536,
                b < 65536,
        ;
        assert((a % 4096 + b % 4096 >= 4096 || ((a + b) % 65536) % 4096 + 1 >= 4096) == (a % 4096
            + b % 4096 + 1 >= 4096)) by (bit_vector)
            requires
                a < 65536,
                b < 65536,
        ;
    }
}

/// What subtracting a carried-in one after `a - b` amounts to.
proof fn lemma_sub_carry_arith(a: u32, b: u32, m: u32, hm: u32)
    requires
        a < m,
        b < m,
        (m == 256 && hm == 16) || (m == 65536 && hm == 4096),
    ensures
        wrap_sub(wrap_sub(a as int, b as int, m as int), 1, m as int) == wrap_sub(
            a as int,
            b + 1,
            m as int,
        ),
        ((a < b) || wrap_sub(a as int, b as int, m as int) < 1) == (a < b + 1),
        (half_borrow_sub(a, b, 0, hm) || half_borrow_sub(
            wrap_sub(a as int, b as int, m as int) as u32,
            1,
            0,
            hm,
        )) == half_borrow_sub(a, b, 1, hm),
{
    if m == 256 {
        assert(((a % 16 < b % 16) || ((if a >= b { a - b } else { a - b + 256 }) % 16) < 1) == (a
            % 16 < b % 16 + 1)) by (bit_vector)
            requires
                a < 256,
                b < 256,
        ;
    } else {
        assert(((a % 4096 < b % 4096) || ((if a >= b { a - b } else { a - b + 65536 }) % 4096) < 1)
            == (a % 4096 < b % 4096 + 1)) by (bit_vector)
            requires
                a < 65536,
                b < 65536,
        ;
    }
}

/// The arithmetic logic unit. It owns the flag register `F` and updates it as
/// the Game Boy CPU does for each operation.
pub struct ALU {
    pub flags: Register8,
}

impl ALU {
    /// Bit of the zero flag (Z).
    pub const ZERO_FLAG: u8 = 7;

    /// Bit of the subtract flag (N).
    pub const SUB_FLAG: u8 = 6;

    /// Bit of the half carry flag (H).
    pub const HALF_CARRY_FLAG: u8 = 5;

    /// Bit of the carry flag (C).
    pub const CARRY_FLAG: u8 = 4;

    /// Whether flag bit `bit` is set.
    pub open spec fn flag(&self, bit: u8) -> bool {
        bit_of(self.flags@, bit)
    }

    pub fn new(flags: Register8) -> (r: Self)
        ensures
            r.flags@ == flags@,
    {
        Self { flags }
    }

    /// `a &= b`; Z from the result, N reset, H set, C reset.
    pub fn and<T: Register>(&mut self, a: &mut T, b: &T)
        ensures
            final(a).reg_value() == old(a).reg_value() & b.reg_value(),
            final(self).flags@ == flags_with(
                old(self).flags@,
                final(a).reg_value() == 0,
                false,
                true,
                false,
            ),
    {
        let ghost f0 = self.flags@;
        proof {
            a.lemma_shape();
            b.lemma_shape();
            lemma_flags_decompose(f0);
            lemma_bitwise_bounds(a.reg_value(), b.reg_value(), T::modulus());
            lemma_flags_bits(f0, bit_of(f0, 7), bit_of(f0, 6), bit_of(f0, 5), bit_of(f0, 4), false);
            lemma_flags_bits(f0, bit_of(f0, 7), false, bit_of(f0, 5), bit_of(f0, 4), true);
            lemma_flags_bits(f0, bit_of(f0, 7), false, true, bit_of(f0, 4), false);
        }
        self.flags.set_bit(Self::SUB_FLAG, false);
        self.flags.set_bit(Self::HALF_CARRY_FLAG, true);
        self.flags.set_bit(Self::CARRY_FLAG, false);

        let value = a.get_wide() & b.get_wide();
        a.set_wide(value);

        let zero = a.is_zero();
        proof {
            lemma_flags_bits(f0, bit_of(f0, 7), false, true, false, zero);
        }
        self.flags.set_bit(Self::ZERO_FLAG, zero);
    }

    /// `a ^= b`; Z from the result, N, H and C reset.
    pub fn xor_internal<T: Register>(&mut self, a: &mut T, b: &T)
        ensures
            final(a).reg_value() == old(a).reg_value() ^ b.reg_value(),
            final(self).flags@ == flags_with(
                old(self).flags@,
                final(a).reg_value() == 0,
                false,
                false,
                false,
            ),
    {
        let ghost f0 = self.flags@;
        proof {
            a.lemma_shape();
            b.lemma_shape();
            lemma_flags_decompose(f0);
            lemma_bitwise_bounds(a.reg_value(), b.reg_value(), T::modulus());
            lemma_flags_bits(f0, bit_of(f0, 7), bit_of(f0, 6), bit_of(f0, 5), bit_of(f0, 4), false);
            lemma_flags_bits(f0, bit_of(f0, 7), false, bit_of(f0, 5), bit_of(f0, 4), false);
            lemma_flags_bits(f0, bit_of(f0, 7), false, false, bit_of(f0, 4), false);
        }
        self.flags.set_bit(Self::SUB_FLAG, false);
        self.flags.set_bit(Self::HALF_CARRY_FLAG, false);
        self.flags.set_bit(Self::CARRY_FLAG, false);

        let value = a.get_wide() ^ b.get_wide();
        a.set_wide(value);

        let zero = a.is_zero();
        proof {
            lemma_flags_bits(f0, bit_of(f0, 7), false, false, false, zero);
        }
        self.flags.set_bit(Self::ZERO_FLAG, zero);
    }

    /// `a |= b`; Z from the result, N, H and C reset.
    pub fn or_internal<T: Register>(&mut self, a: &mut T, b: &T)
        ensures
            final(a).reg_value() == old(a).reg_value() | b.reg_value(),
            final(self).flags@ == flags_with(
                old(self).flags@,
                final(a).reg_value() == 0,
                false,
                false,
                false,
            ),
    {
        let ghost f0 = self.flags@;
        proof {
            a.lemma_shape();
            b.lemma_shape();
            lemma_flags_decompose(f0);
            lemma_bitwise_bounds(a.reg_value(), b.reg_value(), T::modulus());
            lemma_flags_bits(f0, bit_of(f0, 7), bit_of(f0, 6), bit_of(f0, 5), bit_of(f0, 4), false);
            lemma_flags_bits(f0, bit_of(f0, 7), false, bit_of(f0, 5), bit_of(f0, 4), false);
            lemma_flags_bits(f0, bit_of(f0, 7), false, false, bit_of(f0, 4), false);
        }
        self.flags.set_bit(Self::SUB_FLAG, false);
        self.flags.set_bit(Self::HALF_CARRY_FLAG, false);
        self.flags.set_bit(Self::CARRY_FLAG, false);

        let value = a.get_wide() | b.get_wide();
        a.set_wide(value);

        let zero = a.is_zero();
        proof {
            lemma_flags_bits(f0, bit_of(f0, 7), false, false, false, zero);
        }
        self.flags.set_bit(Self::ZERO_FLAG, zero);
    }

    /// `a += b` (wrapping); N reset, Z from the result, and H and C set when
    /// the addition carries (they are never reset here).
    fn add_internal<T: Register>(&mut self, a: &mut T, b: &T)
        ensures
            final(a).reg_value() == (old(a).reg_value() + b.reg_value()) % (T::modulus() as int),
            final(self).flags@ == flags_with(
                old(self).flags@,
                final(a).reg_value() == 0,
                false,
                bit_of(old(self).flags@, 5) || half_carry_add(
                    old(a).reg_value(),
                    b.reg_value(),
                    0,
                    T::half_modulus(),
                ),
                bit_of(old(self).flags@, 4) || old(a).reg_value() + b.reg_value() >= T::modulus(),
            ),
    {
        let ghost f0 = self.flags@;
        let ghost z0 = bit_of(f0, 7);
        let ghost h0 = bit_of(f0, 5);
        let ghost c0 = bit_of(f0, 4);
        proof {
            a.lemma_shape();
            b.lemma_shape();
            lemma_flags_decompose(f0);
            lemma_flags_bits(f0, z0, bit_of(f0, 6), h0, c0, false);
        }
        self.flags.set_bit(Self::SUB_FLAG, false);

        let av = a.get_wide();
        let bv = b.get_wide();
        let m = T::modulus_exec();
        let hm = T::half_modulus_exec();

        if av + bv >= m {
            proof {
                lemma_flags_bits(f0, z0, false, h0, c0, true);
            }
            self.flags.set_bit(Self::CARRY_FLAG, true);
        }
        let ghost c1 = c0 || av + bv >= m;

        if (av % hm) + (bv % hm) >= hm {
            proof {
                lemma_flags_bits(f0, z0, false, h0, c1, true);
            }
            self.flags.set_bit(Self::HALF_CARRY_FLAG, true);
        }
        let ghost h1 = h0 || (av % hm) + (bv % hm) >= hm;

        a.wrapping_add(b);

        let zero = a.is_zero();
        proof {
            lemma_flags_bits(f0, z0, false, h1, c1, zero);
        }
        self.flags.set_bit(Self::ZERO_FLAG, zero);
    }

    /// `a += b` (wrapping); Z from the result, N reset, H and C set exactly
    /// when the addition carries out of the low part and out of the register.
    pub fn add<T: Register>(&mut self, a: &mut T, b: &T)
        ensures
            final(a).reg_value() == (old(a).reg_value() + b.reg_value()) % (T::modulus() as int),
            final(self).flags@ == flags_with(
                old(self).flags@,
                final(a).reg_value() == 0,
                false,
                half_carry_add(old(a).reg_value(), b.reg_value(), 0, T::half_modulus()),
                old(a).reg_value() + b.reg_value() >= T::modulus(),
            ),
    {
        let ghost f0 = self.flags@;
        proof {
            lemma_flags_decompose(f0);
            lemma_flags_bits(f0, bit_of(f0, 7), bit_of(f0, 6), bit_of(f0, 5), bit_of(f0, 4), false);
            lemma_flags_bits(f0, bit_of(f0, 7), bit_of(f0, 6), bit_of(f0, 5), false, false);
        }
        self.flags.set_bit(Self::CARRY_FLAG, false);
        self.flags.set_bit(Self::HALF_CARRY_FLAG, false);
        let ghost f1 = self.flags@;
        proof {
            lemma_flags_bits(f0, bit_of(f0, 7), bit_of(f0, 6), false, false, false);
        }

        self.add_internal(a, b);
        proof {
            lemma_flags_twice(
                f0,
                bit_of(f0, 7),
                bit_of(f0, 6),
                false,
                false,
                final(a).reg_value() == 0,
                false,
                half_carry_add(old(a).reg_value(), b.reg_value(), 0, T::half_modulus()),
                old(a).reg_value() + b.reg_value() >= T::modulus(),
            );
        }
    }

    /// `a += b` (wrapping) leaving the carry flag as it was; Z from the
    /// result, N reset, H set exactly when the low part carries.
    pub fn add_no_carry<T: Register>(&mut self, a: &mut T, b: &T)
        ensures
            final(a).reg_value() == (old(a).reg_value() + b.reg_value()) % (T::modulus() as int),
            final(self).flags@ == flags_with(
                old(self).flags@,
                final(a).reg_value() == 0,
                false,
                half_carry_add(old(a).reg_value(), b.reg_value(), 0, T::half_modulus()),
                bit_of(old(self).flags@, 4),
            ),
    {
        let ghost f0 = self.flags@;
        let ghost c0 = bit_of(f0, 4);
        proof {
            lemma_flags_decompose(f0);
            lemma_flags_bits(f0, bit_of(f0, 7), bit_of(f0, 6), bit_of(f0, 5), c0, false);
            lemma_flags_bits(f0, bit_of(f0, 7), bit_of(f0, 6), false, c0, false);
        }
        self.flags.set_bit(Self::HALF_CARRY_FLAG, false);
        let carry_flag = self.flags.get_bit(Self::CARRY_FLAG);

        self.add_internal(a, b);
        let ghost z = final(a).reg_value() == 0;
        let ghost h = half_carry_add(old(a).reg_value(), b.reg_value(), 0, T::half_modulus());
        let ghost c = c0 || old(a).reg_value() + b.reg_value() >= T::modulus();
        proof {
            lemma_flags_twice(f0, bit_of(f0, 7), bit_of(f0, 6), false, c0, z, false, h, c);
            lemma_flags_bits(f0, z, false, h, c, carry_flag);
        }
        self.flags.set_bit(Self::CARRY_FLAG, carry_flag);
    }

    /// `a += b + carry` (wrapping); Z from the result, N reset, H and C set
    /// exactly when the three-way sum carries out of the low part and out of
    /// the register.
    pub fn adc<T: Register>(&mut self, a: &mut T, b: &T)
        ensures
            final(a).reg_value() == (old(a).reg_value() + b.reg_value() + carry_in(
                bit_of(old(self).flags@, 4),
            )) % (T::modulus() as int),
            final(self).flags@ == flags_with(
                old(self).flags@,
                final(a).reg_value() == 0,
                false,
                half_carry_add(
                    old(a).reg_value(),
                    b.reg_value(),
                    carry_in(bit_of(old(self).flags@, 4)),
                    T::half_modulus(),
                ),
                old(a).reg_value() + b.reg_value() + carry_in(bit_of(old(self).flags@, 4))
                    >= T::modulus(),
            ),
    {
        let ghost f0 = self.flags@;
        let ghost a0 = a.reg_value();
        proof {
            a.lemma_shape();
            b.lemma_shape();
        }
        let carry = self.flags.get_bit(Self::CARRY_FLAG);

        self.add(a, b);

        if carry {
            let ghost a1 = a.reg_value();
            let ghost z1 = a1 == 0;
            let ghost h1 = half_carry_add(a0, b.reg_value(), 0, T::half_modulus());
            let ghost c1 = a0 + b.reg_value() >= T::modulus();
            let one = T::one();
            self.add_internal(a, &one);
            proof {
                lemma_add_carry_arith(a0, b.reg_value(), T::modulus(), T::half_modulus());
                lemma_flags_bits(f0, z1, false, h1, c1, false);
                lemma_flags_twice(
                    f0,
                    z1,
                    false,
                    h1,
                    c1,
                    a.reg_value() == 0,
                    false,
                    h1 || half_carry_add(a1, 1, 0, T::half_modulus()),
                    c1 || a1 + 1 >= T::modulus(),
                );
            }
        }
    }

    /// `a -= b` (wrapping); N set, Z from the result, and H and C set when
    /// the subtraction borrows (they are never reset here).
    fn sub_internal<T: Register>(&mut self, a: &mut T, b: &T)
        ensures
            final(a).reg_value() == wrap_sub(
                old(a).reg_value() as int,
                b.reg_value() as int,
                T::modulus() as int,
            ),
            final(self).flags@ == flags_with(
                old(self).flags@,
                final(a).reg_value() == 0,
                true,
                bit_of(old(self).flags@, 5) || half_borrow_sub(
                    old(a).reg_value(),
                    b.reg_value(),
                    0,
                    T::half_modulus(),
                ),
                bit_of(old(self).flags@, 4) || old(a).reg_value() < b.reg_value(),
            ),
    {
        let ghost f0 = self.flags@;
        let ghost z0 = bit_of(f0, 7);
        let ghost h0 = bit_of(f0, 5);
        let ghost c0 = bit_of(f0, 4);
        proof {
            a.lemma_shape();
            b.lemma_shape();
            lemma_flags_decompose(f0);
            lemma_flags_bits(f0, z0, bit_of(f0, 6), h0, c0, true);
        }
        self.flags.set_bit(Self::SUB_FLAG, true);

        let av = a.get_wide();
        let bv = b.get_wide();
        let hm = T::half_modulus_exec();

        if av < bv {
            proof {
                lemma_flags_bits(f0, z0, true, h0, c0, true);
            }
            self.flags.set_bit(Self::CARRY_FLAG, true);
        }
        let ghost c1 = c0 || av < bv;

        if av % hm < bv % hm {
            proof {
                lemma_flags_bits(f0, z0, true, h0, c1, true);
            }
            self.flags.set_bit(Self::HALF_CARRY_FLAG, true);
        }
        let ghost h1 = h0 || av % hm < bv % hm;

        a.wrapping_sub(b);

        let zero = a.is_zero();
        proof {
            lemma_flags_bits(f0, z0, true, h1, c1, zero);
        }
        self.flags.set_bit(Self::ZERO_FLAG, zero);
    }

    /// `a -= b` (wrapping); Z from the result, N set, H and C set exactly
    /// when the low part and the whole register borrow.
    pub fn sub<T: Register>(&mut self, a: &mut T, b: &T)
        ensures
            final(a).reg_value() == wrap_sub(
                old(a).reg_value() as int,
                b.reg_value() as int,
                T::modulus() as int,
            ),
            final(self).flags@ == flags_with(
                old(self).flags@,
                final(a).reg_value() == 0,
                true,
                half_borrow_sub(old(a).reg_value(), b.reg_value(), 0, T::half_modulus()),
                old(a).reg_value() < b.reg_value(),
            ),
    {
        let ghost f0 = self.flags@;
        proof {
            lemma_flags_decompose(f0);
            lemma_flags_bits(f0, bit_of(f0, 7), bit_of(f0, 6), bit_of(f0, 5), bit_of(f0, 4), false);
            lemma_flags_bits(f0, bit_of(f0, 7), bit_of(f0, 6), bit_of(f0, 5), false, false);
            lemma_flags_bits(f0, bit_of(f0, 7), bit_of(f0, 6), false, false, false);
        }
        self.flags.set_bit(Self::CARRY_FLAG, false);
        self.flags.set_bit(Self::HALF_CARRY_FLAG, false);

        self.sub_internal(a, b);
        proof {
            lemma_flags_twice(
                f0,
                bit_of(f0, 7),
                bit_of(f0, 6),
                false,
                false,
                final(a).reg_value() == 0,
                true,
                half_borrow_sub(old(a).reg_value(), b.reg_value(), 0, T::half_modulus()),
                old(a).reg_value() < b.reg_value(),
            );
        }
    }

    /// `a -= b` (wrapping) leaving the carry flag as it was; Z from the
    /// result, N set, H set exactly when the low part borrows.
    pub fn sub_no_carry<T: Register>(&mut self, a: &mut T, b: &T)
        ensures
            final(a).reg_value() == wrap_sub(
                old(a).reg_value() as int,
                b.reg_value() as int,
                T::modulus() as int,
            ),
            final(self).flags@ == flags_with(
                old(self).flags@,
                final(a).reg_value() == 0,
                true,
                half_borrow_sub(old(a).reg_value(), b.reg_value(), 0, T::half_modulus()),
                bit_of(old(self).flags@, 4),
            ),
    {
        let ghost f0 = self.flags@;
        let ghost c0 = bit_of(f0, 4);
        proof {
            lemma_flags_decompose(f0);
            lemma_flags_bits(f0, bit_of(f0, 7), bit_of(f0, 6), bit_of(f0, 5), c0, false);
            lemma_flags_bits(f0, bit_of(f0, 7), bit_of(f0, 6), false, c0, false);
        }
        self.flags.set_bit(Self::HALF_CARRY_FLAG, false);
        let carry_flag = self.flags.get_bit(Self::CARRY_FLAG);

        self.sub_internal(a, b);
        let ghost z = final(a).reg_value() == 0;
        let ghost h = half_borrow_sub(old(a).reg_value(), b.reg_value(), 0, T::half_modulus());
        let ghost c = c0 || old(a).reg_value() < b.reg_value();
        proof {
            lemma_flags_twice(f0, bit_of(f0, 7), bit_of(f0, 6), false, c0, z, true, h, c);
            lemma_flags_bits(f0, z, true, h, c, carry_flag);
        }
        self.flags.set_bit(Self::CARRY_FLAG, carry_flag);
    }

    /// `a -= b + carry` (wrapping); Z from the result, N set, H and C set
    /// exactly when the low part and the whole register borrow.
    pub fn sbc<T: Register>(&mut self, a: &mut T, b: &T)
        ensures
            final(a).reg_value() == wrap_sub(
                old(a).reg_value() as int,
                b.reg_value() + carry_in(bit_of(old(self).flags@, 4)),
                T::modulus() as int,
            ),
            final(self).flags@ == flags_with(
                old(self).flags@,
                final(a).reg_value() == 0,
                true,
                half_borrow_sub(
                    old(a).reg_value(),
                    b.reg_value(),
                    carry_in(bit_of(old(self).flags@, 4)),
                    T::half_modulus(),
                ),
                old(a).reg_value() < b.reg_value() + carry_in(bit_of(old(self).flags@, 4)),
            ),
    {
        let ghost f0 = self.flags@;
        let ghost a0 = a.reg_value();
        proof {
            a.lemma_shape();
            b.lemma_shape();
        }
        let carry = self.flags.get_bit(Self::CARRY_FLAG);

        self.sub(a, b);

        if carry {
            let ghost a1 = a.reg_value();
            let ghost z1 = a1 == 0;
            let ghost h1 = half_borrow_sub(a0, b.reg_value(), 0, T::half_modulus());
            let ghost c1 = a0 < b.reg_value();
            let one = T::one();
            self.sub_internal(a, &one);
            proof {
                lemma_sub_carry_arith(a0, b.reg_value(), T::modulus(), T::half_modulus());
                lemma_flags_bits(f0, z1, true, h1, c1, false);
                lemma_flags_twice(
                    f0,
                    z1,
                    true,
                    h1,
                    c1,
                    a.reg_value() == 0,
                    true,
                    h1 || half_borrow_sub(a1, 1, 0, T::half_modulus()),
                    c1 || a1 < 1,
                );
            }
        }
    }

    /// Writes the four flags one by one: N, H, C, then Z.
    fn write_flags(&mut self, z: bool, n: bool, h: bool, c: bool)
        ensures
            final(self).flags@ == flags_with(old(self).flags@, z, n, h, c),
    {
        let ghost f0 = self.flags@;
        proof {
            lemma_flags_decompose(f0);
            lemma_flags_bits(f0, bit_of(f0, 7), bit_of(f0, 6), bit_of(f0, 5), bit_of(f0, 4), n);
            lemma_flags_bits(f0, bit_of(f0, 7), n, bit_of(f0, 5), bit_of(f0, 4), h);
            lemma_flags_bits(f0, bit_of(f0, 7), n, h, bit_of(f0, 4), c);
            lemma_flags_bits(f0, bit_of(f0, 7), n, h, c, z);
        }
        self.flags.set_bit(Self::SUB_FLAG, n);
        self.flags.set_bit(Self::HALF_CARRY_FLAG, h);
        self.flags.set_bit(Self::CARRY_FLAG, c);
        self.flags.set_bit(Self::ZERO_FLAG, z);
    }

    /// Rotates `a` left; C takes the bit rotated out, Z from the result, N
    /// and H reset.
    pub fn rlc(&mut self, a: &mut Register8)
        ensures
            final(a)@ == rlc_value(old(a)@),
            final(self).flags@ == flags_with(
                old(self).flags@,
                final(a)@ == 0,
                false,
                false,
                bit_of(old(a)@, 7),
            ),
    {
        let value = a.get_value();
        let carry = value & 0x80 != 0;
        assert(carry == bit_of(value, 7)) by (bit_vector)
            requires
                carry == (value & 0x80 != 0),
        ;
        a.set_value((value << 1) | (value >> 7));
        let zero = a.get_value() == 0;
        self.write_flags(zero, false, false, carry);
    }

    /// Rotates `a` right; C takes the bit rotated out, Z from the result, N
    /// and H reset.
    pub fn rrc(&mut self, a: &mut Register8)
        ensures
            final(a)@ == rrc_value(old(a)@),
            final(self).flags@ == flags_with(
                old(self).flags@,
                final(a)@ == 0,
                false,
                false,
                bit_of(old(a)@, 0),
            ),
    {
        let value = a.get_value();
        let carry = value & 0x01 != 0;
        assert(carry == bit_of(value, 0)) by (bit_vector)
            requires
                carry == (value & 0x01 != 0),
        ;
        a.set_value((value >> 1) | (value << 7));
        let zero = a.get_value() == 0;
        self.write_flags(zero, false, false, carry);
    }

    /// Rotates `a` right through the carry: the old C enters at bit 7 and C
    /// takes bit 0; Z from the result, N and H reset.
    pub fn rr(&mut self, a: &mut Register8)
        ensures
            final(a)@ == rr_value(old(a)@, bit_of(old(self).flags@, 4)),
            final(self).flags@ == flags_with(
                old(self).flags@,
                final(a)@ == 0,
                false,
                false,
                bit_of(old(a)@, 0),
            ),
    {
        let value = a.get_value();
        let old_carry = self.flags.get_bit(Self::CARRY_FLAG);
        let carry = value & 0x01 != 0;
        assert(carry == bit_of(value, 0)) by (bit_vector)
            requires
                carry == (value & 0x01 != 0),
        ;
        let top: u8 = if old_carry {
            0x80
        } else {
            0
        };
        a.set_value((value >> 1) | top);
        let zero = a.get_value() == 0;
        self.write_flags(zero, false, false, carry);
    }
}

} // verus!
