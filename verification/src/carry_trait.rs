use vstd::prelude::*;

verus! {

/// Whether adding or subtracting two numbers of the same width leaves that width.
pub trait CarryTrait: Sized {
    /// The largest value of the type.
    spec fn max_value() -> int;

    spec fn as_int(&self) -> int;

    /// True when `self + other` exceeds the type's range.
    fn add_carries(&self, other: Self) -> (r: bool)
        ensures
            r == (self.as_int() + other.as_int() > Self::max_value()),
    ;

    /// True when `self - other` is negative.
    fn sub_borrows(&self, other: Self) -> (r: bool)
        ensures
            r == (self.as_int() < other.as_int()),
    ;
}

impl CarryTrait for u8 {
    open spec fn max_value() -> int {
        u8::MAX as int
    }

    open spec fn as_int(&self) -> int {
        *self as int
    }

    fn add_carries(&self, other: Self) -> (r: bool) {
        self.checked_add(other).is_none()
    }

    fn sub_borrows(&self, other: Self) -> (r: bool) {
        self.checked_sub(other).is_none()
    }
}

impl CarryTrait for u16 {
    open spec fn max_value() -> int {
        u16::MAX as int
    }

    open spec fn as_int(&self) -> int {
        *self as int
    }

    fn add_carries(&self, other: Self) -> (r: bool) {
        self.checked_add(other).is_none()
    }

    fn sub_borrows(&self, other: Self) -> (r: bool) {
        self.checked_sub(other).is_none()
    }
}

} // verus!
