use vstd::prelude::*;

verus! {

/// A bounded integer type usable as a synthesized x-axis: it exposes its
/// maximum value and a conversion from a sequence index that saturates at
/// that maximum instead of wrapping or failing.
///
/// Implemented for every fixed-width signed and unsigned integer type and for
/// the platform-native size types.
pub trait BoundedIndex: Sized + Copy {
    /// The value as a mathematical integer.
    spec fn as_int(self) -> int;

    /// The largest representable value, as a mathematical integer.
    spec fn max_int() -> int;

    /// The index `i` as a value of this type: `i` itself while it fits,
    /// the type's maximum once it no longer does.
    fn saturating_index(i: usize) -> (r: Self)
        ensures
            r.as_int() == if i as int <= Self::max_int() {
                i as int
            } else {
                Self::max_int()
            },
    ;
}

impl BoundedIndex for u8 {
    open spec fn as_int(self) -> int {
        self as int
    }

    open spec fn max_int() -> int {
        u8::MAX as int
    }

    fn saturating_index(i: usize) -> (r: Self) {
        if i as u128 >= u8::MAX as u128 {
            u8::MAX
        } else {
            i as u8
        }
    }
}

impl BoundedIndex for u16 {
    open spec fn as_int(self) -> int {
        self as int
    }

    open spec fn max_int() -> int {
        u16::MAX as int
    }

    fn saturating_index(i: usize) -> (r: Self) {
        if i as u128 >= u16::MAX as u128 {
            u16::MAX
        } else {
            i as u16
        }
    }
}

impl BoundedIndex for u32 {
    open spec fn as_int(self) -> int {
        self as int
    }

    open spec fn max_int() -> int {
        u32::MAX as int
    }

    fn saturating_index(i: usize) -> (r: Self) {
        if i as u128 >= u32::MAX as u128 {
            u32::MAX
        } else {
            i as u32
        }
    }
}

impl BoundedIndex for u64 {
    open spec fn as_int(self) -> int {
        self as int
    }

    open spec fn max_int() -> int {
        u64::MAX as int
    }

    fn saturating_index(i: usize) -> (r: Self) {
        if i as u128 >= u64::MAX as u128 {
            u64::MAX
        } else {
            i as u64
        }
    }
}

impl BoundedIndex for u128 {
    open spec fn as_int(self) -> int {
        self as int
    }

    open spec fn max_int() -> int {
        u128::MAX as int
    }

    fn saturating_index(i: usize) -> (r: Self) {
        if i as u128 >= u128::MAX {
            u128::MAX
        } else {
            i as u128
        }
    }
}

impl BoundedIndex for usize {
    open spec fn as_int(self) -> int {
        self as int
    }

    open spec fn max_int() -> int {
        usize::MAX as int
    }

    fn saturating_index(i: usize) -> (r: Self) {
        i
    }
}

impl BoundedIndex for i8 {
    open spec fn as_int(self) -> int {
        self as int
    }

    open spec fn max_int() -> int {
        i8::MAX as int
    }

    fn saturating_index(i: usize) -> (r: Self) {
        if i as u128 >= i8::MAX as u128 {
            i8::MAX
        } else {
            i as i8
        }
    }
}

impl BoundedIndex for i16 {
    open spec fn as_int(self) -> int {
        self as int
    }

    open spec fn max_int() -> int {
        i16::MAX as int
    }

    fn saturating_index(i: usize) -> (r: Self) {
        if i as u128 >= i16::MAX as u128 {
            i16::MAX
        } else {
            i as i16
        }
    }
}

impl BoundedIndex for i32 {
    open spec fn as_int(self) -> int {
        self as int
    }

    open spec fn max_int() -> int {
        i32::MAX as int
    }

    fn saturating_index(i: usize) -> (r: Self) {
        if i as u128 >= i32::MAX as u128 {
            i32::MAX
        } else {
            i as i32
        }
    }
}

impl BoundedIndex for i64 {
    open spec fn as_int(self) -> int {
        self as int
    }

    open spec fn max_int() -> int {
        i64::MAX as int
    }

    fn saturating_index(i: usize) -> (r: Self) {
        if i as u128 >= i64::MAX as u128 {
            i64::MAX
        } else {
            i as i64
        }
    }
}

impl BoundedIndex for i128 {
    open spec fn as_int(self) -> int {
        self as int
    }

    open spec fn max_int() -> int {
        i128::MAX as int
    }

    fn saturating_index(i: usize) -> (r: Self) {
        if i as u128 >= i128::MAX as u128 {
            i128::MAX
        } else {
            i as i128
        }
    }
}

impl BoundedIndex for isize {
    open spec fn as_int(self) -> int {
        self as int
    }

    open spec fn max_int() -> int {
        isize::MAX as int
    }

    fn saturating_index(i: usize) -> (r: Self) {
        if i as u128 >= isize::MAX as u128 {
            isize::MAX
        } else {
            i as isize
        }
    }
}

} // verus!
