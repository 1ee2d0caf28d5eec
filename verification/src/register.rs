use vstd::prelude::*;

verus! {

/// Whether bit `bit` of `value` is set.
pub open spec fn bit_of(value: u8, bit: u8) -> bool {
    (value >> bit) & 1u8 == 1u8
}

/// `value` with bit `bit` forced to `on`.
pub open spec fn with_bit(value: u8, bit: u8, on: bool) -> u8 {
    if on {
        value | (1u8 << bit)
    } else {
        value & !(1u8 << bit)
    }
}

/// `x - y` reduced into `[0, m)`, for `x, y < m`.
pub open spec fn wrap_sub(x: int, y: int, m: int) -> int {
    if x >= y {
        x - y
    } else {
        x - y + m
    }
}

/// Setting a bit makes it read back as set, and leaves every other bit alone.
pub proof fn lemma_with_bit(value: u8, bit: u8, on: bool, other: u8)
    requires
        bit < 8,
        other < 8,
    ensures
        bit_of(with_bit(value, bit, on), bit) == on,
        other != bit ==> bit_of(with_bit(value, bit, on), other) == bit_of(value, other),
{
    assert(bit_of(with_bit(value, bit, on), bit) == on) by (bit_vector)
        requires
            bit < 8,
    ;
    assert(other != bit ==> bit_of(with_bit(value, bit, on), other) == bit_of(value, other))
        by (bit_vector)
        requires
            bit < 8,
            other < 8,
    ;
}

/// A register whose contents is an unsigned number of 8 or 16 bits.
pub trait Register: Sized {
    /// The register's contents as a number.
    spec fn reg_value(&self) -> u32;

    /// One more than the largest value the register holds.
    spec fn modulus() -> u32;

    /// The modulus of the part below the top four bits, the part whose
    /// overflow is the half carry.
    spec fn half_modulus() -> u32;

    proof fn lemma_shape(&self)
        ensures
            self.reg_value() < Self::modulus(),
            (Self::modulus() == 256 && Self::half_modulus() == 16) || (Self::modulus() == 65536
                && Self::half_modulus() == 4096),
    ;

    fn get_wide(&self) -> (r: u32)
        ensures
            r == self.reg_value(),
    ;

    fn set_wide(&mut self, v: u32)
        requires
            v < Self::modulus(),
        ensures
            final(self).reg_value() == v,
    ;

    fn modulus_exec() -> (r: u32)
        ensures
            r == Self::modulus(),
    ;

    fn half_modulus_exec() -> (r: u32)
        ensures
            r == Self::half_modulus(),
    ;

    fn one() -> (r: Self)
        ensures
            r.reg_value() == 1,
    ;

    fn is_zero(&self) -> (r: bool)
        ensures
            r == (self.reg_value() == 0),
    ;

    fn wrapping_add(&mut self, other: &Self)
        ensures
            final(self).reg_value() == (old(self).reg_value() + other.reg_value()) % (
            Self::modulus() as int),
    ;

    fn wrapping_sub(&mut self, other: &Self)
        ensures
            final(self).reg_value() == wrap_sub(
                old(self).reg_value() as int,
                other.reg_value() as int,
                Self::modulus() as int,
            ),
    ;
}

/// An 8-bit register.
#[derive(Clone, Copy, Debug)]
pub struct Register8 {
    value: u8,
}

impl View for Register8 {
    type V = u8;

    open spec fn view(&self) -> u8 {
        self.spec_value()
    }
}

impl Register8 {
    pub closed spec fn spec_value(&self) -> u8 {
        self.value
    }

    pub fn new(value: u8) -> (r: Self)
        ensures
            r@ == value,
    {
        Register8 { value }
    }

    pub fn get_value(&self) -> (r: u8)
        ensures
            r == self@,
    {
        self.value
    }

    pub fn set_value(&mut self, value: u8)
        ensures
            final(self)@ == value,
    {
        self.value = value;
    }

    /// Adds `other`, wrapping.
    pub fn wrapping_add_u8(&mut self, other: u8)
        ensures
            final(self)@ == (old(self)@ + other) % 256,
    {
        self.value = self.value.wrapping_add(other);
    }

    /// Subtracts `other`, wrapping.
    pub fn wrapping_sub_u8(&mut self, other: u8)
        ensures
            final(self)@ == wrap_sub(old(self)@ as int, other as int, 256),
    {
        self.value = self.value.wrapping_sub(other);
    }

    pub fn get_bit(&self, bit: u8) -> (r: bool)
        requires
            bit < 8,
        ensures
            r == bit_of(self@, bit),
    {
        (self.value >> bit) & 1 == 1
    }

    pub fn set_bit(&mut self, bit: u8, on: bool)
        requires
            bit < 8,
        ensures
            final(self)@ == with_bit(old(self)@, bit, on),
    {
        if on {
            self.value = self.value | (1u8 << bit);
        } else {
            self.value = self.value & !(1u8 << bit);
        }
    }
}

impl Register for Register8 {
    open spec fn reg_value(&self) -> u32 {
        self@ as u32
    }

    open spec fn modulus() -> u32 {
        256
    }

    open spec fn half_modulus() -> u32 {
        16
    }

    proof fn lemma_shape(&self) {
    }

    fn get_wide(&self) -> (r: u32) {
        self.value as u32
    }

    fn set_wide(&mut self, v: u32) {
        self.value = v as u8;
    }

    fn modulus_exec() -> (r: u32) {
        256
    }

    fn half_modulus_exec() -> (r: u32) {
        16
    }

    fn one() -> (r: Self) {
        Register8 { value: 1 }
    }

    fn is_zero(&self) -> (r: bool) {
        self.value == 0
    }

    fn wrapping_add(&mut self, other: &Self) {
        self.value = self.value.wrapping_add(other.value);
    }

    fn wrapping_sub(&mut self, other: &Self) {
        self.value = self.value.wrapping_sub(other.value);
    }
}

/// A 16-bit register.
#[derive(Clone, Copy, Debug)]
pub struct Register16 {
    value: u16,
}

impl View for Register16 {
    type V = u16;

    open spec fn view(&self) -> u16 {
        self.spec_value()
    }
}

impl Register16 {
    pub closed spec fn spec_value(&self) -> u16 {
        self.value
    }

    pub fn new(value: u16) -> (r: Self)
        ensures
            r@ == value,
    {
        Register16 { value }
    }

    pub fn get_value(&self) -> (r: u16)
        ensures
            r == self@,
    {
        self.value
    }

    pub fn set_value(&mut self, value: u16)
        ensures
            final(self)@ == value,
    {
        self.value = value;
    }

    /// Adds one, wrapping from `0xFFFF` to `0`.
    pub fn increment(&mut self)
        ensures
            final(self)@ == (old(self)@ + 1) % 65536,
    {
        self.value = self.value.wrapping_add(1);
    }

    /// Subtracts one, wrapping from `0` to `0xFFFF`.
    pub fn decrement(&mut self)
        ensures
            final(self)@ == wrap_sub(old(self)@ as int, 1, 65536),
    {
        self.value = self.value.wrapping_sub(1);
    }
}

impl Register for Register16 {
    open spec fn reg_value(&self) -> u32 {
        self@ as u32
    }

    open spec fn modulus() -> u32 {
        65536
    }

    open spec fn half_modulus() -> u32 {
        4096
    }

    proof fn lemma_shape(&self) {
    }

    fn get_wide(&self) -> (r: u32) {
        self.value as u32
    }

    fn set_wide(&mut self, v: u32) {
        self.value = v as u16;
    }

    fn modulus_exec() -> (r: u32) {
        65536
    }

    fn half_modulus_exec() -> (r: u32) {
        4096
    }

    fn one() -> (r: Self) {
        Register16 { value: 1 }
    }

    fn is_zero(&self) -> (r: bool) {
        self.value == 0
    }

    fn wrapping_add(&mut self, other: &Self) {
        self.value = self.value.wrapping_add(other.value);
    }

    fn wrapping_sub(&mut self, other: &Self) {
        self.value = self.value.wrapping_sub(other.value);
    }
}

} // verus!
