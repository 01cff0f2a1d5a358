//! The bounded numeric family: a primitive numeric value wrapped together
//! with an inclusive range `[min, max]` that it is guaranteed to lie in.
//!
//! The range is fixed when the value is constructed and kept as fields of
//! the wrapper, so the invariant is a runtime datum; what makes it a
//! guarantee is the verified contract: the validating constructor proves
//! the invariant, every accessor preserves it, and the only way around it
//! is the explicitly named unchecked constructor. (Range parameters in the
//! type itself would need signed const generics, which the verifier does
//! not accept, so the bounds live in fields instead; the trade-off is
//! documented here rather than silently downgraded.)
//!
//! One wrapper type exists per primitive integer width, all with the same
//! shape and the same contract.

use vstd::prelude::*;
use crate::errors::OutOfBoundsError;
use crate::decimal::{spec_decimal, i128_to_decimal, u128_to_decimal};

verus! {

/// An `i8` held inside a fixed inclusive range `[min, max]`.
#[derive(Debug, Clone, Copy, PartialEq, Eq, Hash)]
pub struct BoundedI8 {
    min: i8,
    max: i8,
    value: i8,
}

impl BoundedI8 {
    /// The lower bound this value was constructed against.
    pub closed spec fn spec_min(self) -> i8 {
        self.min
    }

    /// The upper bound this value was constructed against.
    pub closed spec fn spec_max(self) -> i8 {
        self.max
    }

    /// The wrapped value.
    pub closed spec fn spec_value(self) -> i8 {
        self.value
    }

    /// The invariant: the wrapped value lies inside the range.
    pub open spec fn wf(self) -> bool {
        self.spec_min() <= self.spec_value() <= self.spec_max()
    }

    /// The validation gate, as a specification-level function: the result
    /// of constructing from `num` against `[min, max]`.
    pub closed spec fn spec_new(min: i8, max: i8, num: i8) -> Result<Self, OutOfBoundsError<i8>> {
        if num < min {
            Err(OutOfBoundsError::Low(min, max, num))
        } else if num > max {
            Err(OutOfBoundsError::High(min, max, num))
        } else {
            Ok(BoundedI8 { min, max, value: num })
        }
    }

    /// Range round trip: a value inside the range is accepted and wraps
    /// exactly that value; a value below the range is rejected as `Low`
    /// and a value above it as `High`, each carrying the exact bounds and
    /// offending value.
    pub proof fn lemma_range_round_trip(min: i8, max: i8, num: i8)
        ensures
            min <= num <= max ==> (Self::spec_new(min, max, num) matches Ok(b) && b.spec_min() == min
                && b.spec_max() == max && b.spec_value() == num && b.wf()),
            num < min ==> Self::spec_new(min, max, num) == Err::<Self, _>(
                OutOfBoundsError::Low(min, max, num),
            ),
            num >= min && num > max ==> Self::spec_new(min, max, num) == Err::<Self, _>(
                OutOfBoundsError::High(min, max, num),
            ),
    {
    }

    /// Serialization symmetry, at the value level: a wrapper that holds
    /// its invariant re-enters the validation gate unchanged, so parsing
    /// back a transparently serialized value restores the original.
    pub proof fn lemma_revalidate(b: Self)
        requires
            b.wf(),
        ensures
            Self::spec_new(b.spec_min(), b.spec_max(), b.spec_value()) == Ok::<Self, OutOfBoundsError<i8>>(b),
    {
    }

    /// Creates a new bounded value from `num`, validated against the
    /// inclusive range `[min, max]`.
    pub fn new(min: i8, max: i8, num: i8) -> (r: Result<Self, OutOfBoundsError<i8>>)
        ensures
            r == Self::spec_new(min, max, num),
            num < min ==> r == Err::<Self, _>(OutOfBoundsError::Low(min, max, num)),
            num >= min && num > max ==> r == Err::<Self, _>(OutOfBoundsError::High(min, max, num)),
            min <= num <= max ==> (r matches Ok(b) && b.spec_min() == min && b.spec_max() == max
                && b.spec_value() == num && b.wf()),
    {
        if min > num {
            Err(OutOfBoundsError::Low(min, max, num))
        } else if num > max {
            Err(OutOfBoundsError::High(min, max, num))
        } else {
            Ok(BoundedI8 { min, max, value: num })
        }
    }

    /// Creates a new bounded value without validating it. The caller is
    /// responsible for having established `min <= num <= max`; a value
    /// that violates it is wrapped all the same and the wrapper will not
    /// hold [`Self::wf`]. This is the explicit escape hatch for call
    /// sites that re-derive the bound elsewhere, not a general bypass.
    pub fn new_unchecked(min: i8, max: i8, num: i8) -> (r: Self)
        ensures
            r.spec_min() == min,
            r.spec_max() == max,
            r.spec_value() == num,
    {
        BoundedI8 { min, max, value: num }
    }

    /// Consumes the wrapper and returns the raw value.
    pub fn into_inner(self) -> (r: i8)
        ensures
            r == self.spec_value(),
    {
        self.value
    }

    /// Renders the wrapped value in its natural decimal form, with no
    /// added formatting.
    pub fn to_text(&self) -> (r: String)
        ensures
            r@ == spec_decimal(self.spec_value() as int),
    {
        i128_to_decimal(self.value as i128)
    }
}

/// An `i16` held inside a fixed inclusive range `[min, max]`.
#[derive(Debug, Clone, Copy, PartialEq, Eq, Hash)]
pub struct BoundedI16 {
    min: i16,
    max: i16,
    value: i16,
}

impl BoundedI16 {
    /// The lower bound this value was constructed against.
    pub closed spec fn spec_min(self) -> i16 {
        self.min
    }

    /// The upper bound this value was constructed against.
    pub closed spec fn spec_max(self) -> i16 {
        self.max
    }

    /// The wrapped value.
    pub closed spec fn spec_value(self) -> i16 {
        self.value
    }

    /// The invariant: the wrapped value lies inside the range.
    pub open spec fn wf(self) -> bool {
        self.spec_min() <= self.spec_value() <= self.spec_max()
    }

    /// The validation gate, as a specification-level function: the result
    /// of constructing from `num` against `[min, max]`.
    pub closed spec fn spec_new(min: i16, max: i16, num: i16) -> Result<Self, OutOfBoundsError<i16>> {
        if num < min {
            Err(OutOfBoundsError::Low(min, max, num))
        } else if num > max {
            Err(OutOfBoundsError::High(min, max, num))
        } else {
            Ok(BoundedI16 { min, max, value: num })
        }
    }

    /// Range round trip: a value inside the range is accepted and wraps
    /// exactly that value; a value below the range is rejected as `Low`
    /// and a value above it as `High`, each carrying the exact bounds and
    /// offending value.
    pub proof fn lemma_range_round_trip(min: i16, max: i16, num: i16)
        ensures
            min <= num <= max ==> (Self::spec_new(min, max, num) matches Ok(b) && b.spec_min() == min
                && b.spec_max() == max && b.spec_value() == num && b.wf()),
            num < min ==> Self::spec_new(min, max, num) == Err::<Self, _>(
                OutOfBoundsError::Low(min, max, num),
            ),
            num >= min && num > max ==> Self::spec_new(min, max, num) == Err::<Self, _>(
                OutOfBoundsError::High(min, max, num),
            ),
    {
    }

    /// Serialization symmetry, at the value level: a wrapper that holds
    /// its invariant re-enters the validation gate unchanged, so parsing
    /// back a transparently serialized value restores the original.
    pub proof fn lemma_revalidate(b: Self)
        requires
            b.wf(),
        ensures
            Self::spec_new(b.spec_min(), b.spec_max(), b.spec_value()) == Ok::<Self, OutOfBoundsError<i16>>(b),
    {
    }

    /// Creates a new bounded value from `num`, validated against the
    /// inclusive range `[min, max]`.
    pub fn new(min: i16, max: i16, num: i16) -> (r: Result<Self, OutOfBoundsError<i16>>)
        ensures
            r == Self::spec_new(min, max, num),
            num < min ==> r == Err::<Self, _>(OutOfBoundsError::Low(min, max, num)),
            num >= min && num > max ==> r == Err::<Self, _>(OutOfBoundsError::High(min, max, num)),
            min <= num <= max ==> (r matches Ok(b) && b.spec_min() == min && b.spec_max() == max
                && b.spec_value() == num && b.wf()),
    {
        if min > num {
            Err(OutOfBoundsError::Low(min, max, num))
        } else if num > max {
            Err(OutOfBoundsError::High(min, max, num))
        } else {
            Ok(BoundedI16 { min, max, value: num })
        }
    }

    /// Creates a new bounded value without validating it. The caller is
    /// responsible for having established `min <= num <= max`; a value
    /// that violates it is wrapped all the same and the wrapper will not
    /// hold [`Self::wf`]. This is the explicit escape hatch for call
    /// sites that re-derive the bound elsewhere, not a general bypass.
    pub fn new_unchecked(min: i16, max: i16, num: i16) -> (r: Self)
        ensures
            r.spec_min() == min,
            r.spec_max() == max,
            r.spec_value() == num,
    {
        BoundedI16 { min, max, value: num }
    }

    /// Consumes the wrapper and returns the raw value.
    pub fn into_inner(self) -> (r: i16)
        ensures
            r == self.spec_value(),
    {
        self.value
    }

    /// Renders the wrapped value in its natural decimal form, with no
    /// added formatting.
    pub fn to_text(&self) -> (r: String)
        ensures
            r@ == spec_decimal(self.spec_value() as int),
    {
        i128_to_decimal(self.value as i128)
    }
}

/// An `i32` held inside a fixed inclusive range `[min, max]`.
#[derive(Debug, Clone, Copy, PartialEq, Eq, Hash)]
pub struct BoundedI32 {
    min: i32,
    max: i32,
    value: i32,
}

impl BoundedI32 {
    /// The lower bound this value was constructed against.
    pub closed spec fn spec_min(self) -> i32 {
        self.min
    }

    /// The upper bound this value was constructed against.
    pub closed spec fn spec_max(self) -> i32 {
        self.max
    }

    /// The wrapped value.
    pub closed spec fn spec_value(self) -> i32 {
        self.value
    }

    /// The invariant: the wrapped value lies inside the range.
    pub open spec fn wf(self) -> bool {
        self.spec_min() <= self.spec_value() <= self.spec_max()
    }

    /// The validation gate, as a specification-level function: the result
    /// of constructing from `num` against `[min, max]`.
    pub closed spec fn spec_new(min: i32, max: i32, num: i32) -> Result<Self, OutOfBoundsError<i32>> {
        if num < min {
            Err(OutOfBoundsError::Low(min, max, num))
        } else if num > max {
            Err(OutOfBoundsError::High(min, max, num))
        } else {
            Ok(BoundedI32 { min, max, value: num })
        }
    }

    /// Range round trip: a value inside the range is accepted and wraps
    /// exactly that value; a value below the range is rejected as `Low`
    /// and a value above it as `High`, each carrying the exact bounds and
    /// offending value.
    pub proof fn lemma_range_round_trip(min: i32, max: i32, num: i32)
        ensures
            min <= num <= max ==> (Self::spec_new(min, max, num) matches Ok(b) && b.spec_min() == min
                && b.spec_max() == max && b.spec_value() == num && b.wf()),
            num < min ==> Self::spec_new(min, max, num) == Err::<Self, _>(
                OutOfBoundsError::Low(min, max, num),
            ),
            num >= min && num > max ==> Self::spec_new(min, max, num) == Err::<Self, _>(
                OutOfBoundsError::High(min, max, num),
            ),
    {
    }

    /// Serialization symmetry, at the value level: a wrapper that holds
    /// its invariant re-enters the validation gate unchanged, so parsing
    /// back a transparently serialized value restores the original.
    pub proof fn lemma_revalidate(b: Self)
        requires
            b.wf(),
        ensures
            Self::spec_new(b.spec_min(), b.spec_max(), b.spec_value()) == Ok::<Self, OutOfBoundsError<i32>>(b),
    {
    }

    /// Creates a new bounded value from `num`, validated against the
    /// inclusive range `[min, max]`.
    pub fn new(min: i32, max: i32, num: i32) -> (r: Result<Self, OutOfBoundsError<i32>>)
        ensures
            r == Self::spec_new(min, max, num),
            num < min ==> r == Err::<Self, _>(OutOfBoundsError::Low(min, max, num)),
            num >= min && num > max ==> r == Err::<Self, _>(OutOfBoundsError::High(min, max, num)),
            min <= num <= max ==> (r matches Ok(b) && b.spec_min() == min && b.spec_max() == max
                && b.spec_value() == num && b.wf()),
    {
        if min > num {
            Err(OutOfBoundsError::Low(min, max, num))
        } else if num > max {
            Err(OutOfBoundsError::High(min, max, num))
        } else {
            Ok(BoundedI32 { min, max, value: num })
        }
    }

    /// Creates a new bounded value without validating it. The caller is
    /// responsible for having established `min <= num <= max`; a value
    /// that violates it is wrapped all the same and the wrapper will not
    /// hold [`Self::wf`]. This is the explicit escape hatch for call
    /// sites that re-derive the bound elsewhere, not a general bypass.
    pub fn new_unchecked(min: i32, max: i32, num: i32) -> (r: Self)
        ensures
            r.spec_min() == min,
            r.spec_max() == max,
            r.spec_value() == num,
    {
        BoundedI32 { min, max, value: num }
    }

    /// Consumes the wrapper and returns the raw value.
    pub fn into_inner(self) -> (r: i32)
        ensures
            r == self.spec_value(),
    {
        self.value
    }

    /// Renders the wrapped value in its natural decimal form, with no
    /// added formatting.
    pub fn to_text(&self) -> (r: String)
        ensures
            r@ == spec_decimal(self.spec_value() as int),
    {
        i128_to_decimal(self.value as i128)
    }
}

/// An `i64` held inside a fixed inclusive range `[min, max]`.
#[derive(Debug, Clone, Copy, PartialEq, Eq, Hash)]
pub struct BoundedI64 {
    min: i64,
    max: i64,
    value: i64,
}

impl BoundedI64 {
    /// The lower bound this value was constructed against.
    pub closed spec fn spec_min(self) -> i64 {
        self.min
    }

    /// The upper bound this value was constructed against.
    pub closed spec fn spec_max(self) -> i64 {
        self.max
    }

    /// The wrapped value.
    pub closed spec fn spec_value(self) -> i64 {
        self.value
    }

    /// The invariant: the wrapped value lies inside the range.
    pub open spec fn wf(self) -> bool {
        self.spec_min() <= self.spec_value() <= self.spec_max()
    }

    /// The validation gate, as a specification-level function: the result
    /// of constructing from `num` against `[min, max]`.
    pub closed spec fn spec_new(min: i64, max: i64, num: i64) -> Result<Self, OutOfBoundsError<i64>> {
        if num < min {
            Err(OutOfBoundsError::Low(min, max, num))
        } else if num > max {
            Err(OutOfBoundsError::High(min, max, num))
        } else {
            Ok(BoundedI64 { min, max, value: num })
        }
    }

    /// Range round trip: a value inside the range is accepted and wraps
    /// exactly that value; a value below the range is rejected as `Low`
    /// and a value above it as `High`, each carrying the exact bounds and
    /// offending value.
    pub proof fn lemma_range_round_trip(min: i64, max: i64, num: i64)
        ensures
            min <= num <= max ==> (Self::spec_new(min, max, num) matches Ok(b) && b.spec_min() == min
                && b.spec_max() == max && b.spec_value() == num && b.wf()),
            num < min ==> Self::spec_new(min, max, num) == Err::<Self, _>(
                OutOfBoundsError::Low(min, max, num),
            ),
            num >= min && num > max ==> Self::spec_new(min, max, num) == Err::<Self, _>(
                OutOfBoundsError::High(min, max, num),
            ),
    {
    }

    /// Serialization symmetry, at the value level: a wrapper that holds
    /// its invariant re-enters the validation gate unchanged, so parsing
    /// back a transparently serialized value restores the original.
    pub proof fn lemma_revalidate(b: Self)
        requires
            b.wf(),
        ensures
            Self::spec_new(b.spec_min(), b.spec_max(), b.spec_value()) == Ok::<Self, OutOfBoundsError<i64>>(b),
    {
    }

    /// Creates a new bounded value from `num`, validated against the
    /// inclusive range `[min, max]`.
    pub fn new(min: i64, max: i64, num: i64) -> (r: Result<Self, OutOfBoundsError<i64>>)
        ensures
            r == Self::spec_new(min, max, num),
            num < min ==> r == Err::<Self, _>(OutOfBoundsError::Low(min, max, num)),
            num >= min && num > max ==> r == Err::<Self, _>(OutOfBoundsError::High(min, max, num)),
            min <= num <= max ==> (r matches Ok(b) && b.spec_min() == min && b.spec_max() == max
                && b.spec_value() == num && b.wf()),
    {
        if min > num {
            Err(OutOfBoundsError::Low(min, max, num))
        } else if num > max {
            Err(OutOfBoundsError::High(min, max, num))
        } else {
            Ok(BoundedI64 { min, max, value: num })
        }
    }

    /// Creates a new bounded value without validating it. The caller is
    /// responsible for having established `min <= num <= max`; a value
    /// that violates it is wrapped all the same and the wrapper will not
    /// hold [`Self::wf`]. This is the explicit escape hatch for call
    /// sites that re-derive the bound elsewhere, not a general bypass.
    pub fn new_unchecked(min: i64, max: i64, num: i64) -> (r: Self)
        ensures
            r.spec_min() == min,
            r.spec_max() == max,
            r.spec_value() == num,
    {
        BoundedI64 { min, max, value: num }
    }

    /// Consumes the wrapper and returns the raw value.
    pub fn into_inner(self) -> (r: i64)
        ensures
            r == self.spec_value(),
    {
        self.value
    }

    /// Renders the wrapped value in its natural decimal form, with no
    /// added formatting.
    pub fn to_text(&self) -> (r: String)
        ensures
            r@ == spec_decimal(self.spec_value() as int),
    {
        i128_to_decimal(self.value as i128)
    }
}

/// An `i128` held inside a fixed inclusive range `[min, max]`.
#[derive(Debug, Clone, Copy, PartialEq, Eq, Hash)]
pub struct BoundedI128 {
    min: i128,
    max: i128,
    value: i128,
}

impl BoundedI128 {
    /// The lower bound this value was constructed against.
    pub closed spec fn spec_min(self) -> i128 {
        self.min
    }

    /// The upper bound this value was constructed against.
    pub closed spec fn spec_max(self) -> i128 {
        self.max
    }

    /// The wrapped value.
    pub closed spec fn spec_value(self) -> i128 {
        self.value
    }

    /// The invariant: the wrapped value lies inside the range.
    pub open spec fn wf(self) -> bool {
        self.spec_min() <= self.spec_value() <= self.spec_max()
    }

    /// The validation gate, as a specification-level function: the result
    /// of constructing from `num` against `[min, max]`.
    pub closed spec fn spec_new(min: i128, max: i128, num: i128) -> Result<Self, OutOfBoundsError<i128>> {
        if num < min {
            Err(OutOfBoundsError::Low(min, max, num))
        } else if num > max {
            Err(OutOfBoundsError::High(min, max, num))
        } else {
            Ok(BoundedI128 { min, max, value: num })
        }
    }

    /// Range round trip: a value inside the range is accepted and wraps
    /// exactly that value; a value below the range is rejected as `Low`
    /// and a value above it as `High`, each carrying the exact bounds and
    /// offending value.
    pub proof fn lemma_range_round_trip(min: i128, max: i128, num: i128)
        ensures
            min <= num <= max ==> (Self::spec_new(min, max, num) matches Ok(b) && b.spec_min() == min
                && b.spec_max() == max && b.spec_value() == num && b.wf()),
            num < min ==> Self::spec_new(min, max, num) == Err::<Self, _>(
                OutOfBoundsError::Low(min, max, num),
            ),
            num >= min && num > max ==> Self::spec_new(min, max, num) == Err::<Self, _>(
                OutOfBoundsError::High(min, max, num),
            ),
    {
    }

    /// Serialization symmetry, at the value level: a wrapper that holds
    /// its invariant re-enters the validation gate unchanged, so parsing
    /// back a transparently serialized value restores the original.
    pub proof fn lemma_revalidate(b: Self)
        requires
            b.wf(),
        ensures
            Self::spec_new(b.spec_min(), b.spec_max(), b.spec_value()) == Ok::<Self, OutOfBoundsError<i128>>(b),
    {
    }

    /// Creates a new bounded value from `num`, validated against the
    /// inclusive range `[min, max]`.
    pub fn new(min: i128, max: i128, num: i128) -> (r: Result<Self, OutOfBoundsError<i128>>)
        ensures
            r == Self::spec_new(min, max, num),
            num < min ==> r == Err::<Self, _>(OutOfBoundsError::Low(min, max, num)),
            num >= min && num > max ==> r == Err::<Self, _>(OutOfBoundsError::High(min, max, num)),
            min <= num <= max ==> (r matches Ok(b) && b.spec_min() == min && b.spec_max() == max
                && b.spec_value() == num && b.wf()),
    {
        if min > num {
            Err(OutOfBoundsError::Low(min, max, num))
        } else if num > max {
            Err(OutOfBoundsError::High(min, max, num))
        } else {
            Ok(BoundedI128 { min, max, value: num })
        }
    }

    /// Creates a new bounded value without validating it. The caller is
    /// responsible for having established `min <= num <= max`; a value
    /// that violates it is wrapped all the same and the wrapper will not
    /// hold [`Self::wf`]. This is the explicit escape hatch for call
    /// sites that re-derive the bound elsewhere, not a general bypass.
    pub fn new_unchecked(min: i128, max: i128, num: i128) -> (r: Self)
        ensures
            r.spec_min() == min,
            r.spec_max() == max,
            r.spec_value() == num,
    {
        BoundedI128 { min, max, value: num }
    }

    /// Consumes the wrapper and returns the raw value.
    pub fn into_inner(self) -> (r: i128)
        ensures
            r == self.spec_value(),
    {
        self.value
    }

    /// Renders the wrapped value in its natural decimal form, with no
    /// added formatting.
    pub fn to_text(&self) -> (r: String)
        ensures
            r@ == spec_decimal(self.spec_value() as int),
    {
        i128_to_decimal(self.value)
    }
}

/// An `isize` held inside a fixed inclusive range `[min, max]`.
#[derive(Debug, Clone, Copy, PartialEq, Eq, Hash)]
pub struct BoundedIsize {
    min: isize,
    max: isize,
    value: isize,
}

impl BoundedIsize {
    /// The lower bound this value was constructed against.
    pub closed spec fn spec_min(self) -> isize {
        self.min
    }

    /// The upper bound this value was constructed against.
    pub closed spec fn spec_max(self) -> isize {
        self.max
    }

    /// The wrapped value.
    pub closed spec fn spec_value(self) -> isize {
        self.value
    }

    /// The invariant: the wrapped value lies inside the range.
    pub open spec fn wf(self) -> bool {
        self.spec_min() <= self.spec_value() <= self.spec_max()
    }

    /// The validation gate, as a specification-level function: the result
    /// of constructing from `num` against `[min, max]`.
    pub closed spec fn spec_new(min: isize, max: isize, num: isize) -> Result<Self, OutOfBoundsError<isize>> {
        if num < min {
            Err(OutOfBoundsError::Low(min, max, num))
        } else if num > max {
            Err(OutOfBoundsError::High(min, max, num))
        } else {
            Ok(BoundedIsize { min, max, value: num })
        }
    }

    /// Range round trip: a value inside the range is accepted and wraps
    /// exactly that value; a value below the range is rejected as `Low`
    /// and a value above it as `High`, each carrying the exact bounds and
    /// offending value.
    pub proof fn lemma_range_round_trip(min: isize, max: isize, num: isize)
        ensures
            min <= num <= max ==> (Self::spec_new(min, max, num) matches Ok(b) && b.spec_min() == min
                && b.spec_max() == max && b.spec_value() == num && b.wf()),
            num < min ==> Self::spec_new(min, max, num) == Err::<Self, _>(
                OutOfBoundsError::Low(min, max, num),
            ),
            num >= min && num > max ==> Self::spec_new(min, max, num) == Err::<Self, _>(
                OutOfBoundsError::High(min, max, num),
            ),
    {
    }

    /// Serialization symmetry, at the value level: a wrapper that holds
    /// its invariant re-enters the validation gate unchanged, so parsing
    /// back a transparently serialized value restores the original.
    pub proof fn lemma_revalidate(b: Self)
        requires
            b.wf(),
        ensures
            Self::spec_new(b.spec_min(), b.spec_max(), b.spec_value()) == Ok::<Self, OutOfBoundsError<isize>>(b),
    {
    }

    /// Creates a new bounded value from `num`, validated against the
    /// inclusive range `[min, max]`.
    pub fn new(min: isize, max: isize, num: isize) -> (r: Result<Self, OutOfBoundsError<isize>>)
        ensures
            r == Self::spec_new(min, max, num),
            num < min ==> r == Err::<Self, _>(OutOfBoundsError::Low(min, max, num)),
            num >= min && num > max ==> r == Err::<Self, _>(OutOfBoundsError::High(min, max, num)),
            min <= num <= max ==> (r matches Ok(b) && b.spec_min() == min && b.spec_max() == max
                && b.spec_value() == num && b.wf()),
    {
        if min > num {
            Err(OutOfBoundsError::Low(min, max, num))
        } else if num > max {
            Err(OutOfBoundsError::High(min, max, num))
        } else {
            Ok(BoundedIsize { min, max, value: num })
        }
    }

    /// Creates a new bounded value without validating it. The caller is
    /// responsible for having established `min <= num <= max`; a value
    /// that violates it is wrapped all the same and the wrapper will not
    /// hold [`Self::wf`]. This is the explicit escape hatch for call
    /// sites that re-derive the bound elsewhere, not a general bypass.
    pub fn new_unchecked(min: isize, max: isize, num: isize) -> (r: Self)
        ensures
            r.spec_min() == min,
            r.spec_max() == max,
            r.spec_value() == num,
    {
        BoundedIsize { min, max, value: num }
    }

    /// Consumes the wrapper and returns the raw value.
    pub fn into_inner(self) -> (r: isize)
        ensures
            r == self.spec_value(),
    {
        self.value
    }

    /// Renders the wrapped value in its natural decimal form, with no
    /// added formatting.
    pub fn to_text(&self) -> (r: String)
        ensures
            r@ == spec_decimal(self.spec_value() as int),
    {
        i128_to_decimal(self.value as i128)
    }
}

/// A `u8` held inside a fixed inclusive range `[min, max]`.
#[derive(Debug, Clone, Copy, PartialEq, Eq, Hash)]
pub struct BoundedU8 {
    min: u8,
    max: u8,
    value: u8,
}

impl BoundedU8 {
    /// The lower bound this value was constructed against.
    pub closed spec fn spec_min(self) -> u8 {
        self.min
    }

    /// The upper bound this value was constructed against.
    pub closed spec fn spec_max(self) -> u8 {
        self.max
    }

    /// The wrapped value.
    pub closed spec fn spec_value(self) -> u8 {
        self.value
    }

    /// The invariant: the wrapped value lies inside the range.
    pub open spec fn wf(self) -> bool {
        self.spec_min() <= self.spec_value() <= self.spec_max()
    }

    /// The validation gate, as a specification-level function: the result
    /// of constructing from `num` against `[min, max]`.
    pub closed spec fn spec_new(min: u8, max: u8, num: u8) -> Result<Self, OutOfBoundsError<u8>> {
        if num < min {
            Err(OutOfBoundsError::Low(min, max, num))
        } else if num > max {
            Err(OutOfBoundsError::High(min, max, num))
        } else {
            Ok(BoundedU8 { min, max, value: num })
        }
    }

    /// Range round trip: a value inside the range is accepted and wraps
    /// exactly that value; a value below the range is rejected as `Low`
    /// and a value above it as `High`, each carrying the exact bounds and
    /// offending value.
    pub proof fn lemma_range_round_trip(min: u8, max: u8, num: u8)
        ensures
            min <= num <= max ==> (Self::spec_new(min, max, num) matches Ok(b) && b.spec_min() == min
                && b.spec_max() == max && b.spec_value() == num && b.wf()),
            num < min ==> Self::spec_new(min, max, num) == Err::<Self, _>(
                OutOfBoundsError::Low(min, max, num),
            ),
            num >= min && num > max ==> Self::spec_new(min, max, num) == Err::<Self, _>(
                OutOfBoundsError::High(min, max, num),
            ),
    {
    }

    /// Serialization symmetry, at the value level: a wrapper that holds
    /// its invariant re-enters the validation gate unchanged, so parsing
    /// back a transparently serialized value restores the original.
    pub proof fn lemma_revalidate(b: Self)
        requires
            b.wf(),
        ensures
            Self::spec_new(b.spec_min(), b.spec_max(), b.spec_value()) == Ok::<Self, OutOfBoundsError<u8>>(b),
    {
    }

    /// Creates a new bounded value from `num`, validated against the
    /// inclusive range `[min, max]`.
    pub fn new(min: u8, max: u8, num: u8) -> (r: Result<Self, OutOfBoundsError<u8>>)
        ensures
            r == Self::spec_new(min, max, num),
            num < min ==> r == Err::<Self, _>(OutOfBoundsError::Low(min, max, num)),
            num >= min && num > max ==> r == Err::<Self, _>(OutOfBoundsError::High(min, max, num)),
            min <= num <= max ==> (r matches Ok(b) && b.spec_min() == min && b.spec_max() == max
                && b.spec_value() == num && b.wf()),
    {
        if min > num {
            Err(OutOfBoundsError::Low(min, max, num))
        } else if num > max {
            Err(OutOfBoundsError::High(min, max, num))
        } else {
            Ok(BoundedU8 { min, max, value: num })
        }
    }

    /// Creates a new bounded value without validating it. The caller is
    /// responsible for having established `min <= num <= max`; a value
    /// that violates it is wrapped all the same and the wrapper will not
    /// hold [`Self::wf`]. This is the explicit escape hatch for call
    /// sites that re-derive the bound elsewhere, not a general bypass.
    pub fn new_unchecked(min: u8, max: u8, num: u8) -> (r: Self)
        ensures
            r.spec_min() == min,
            r.spec_max() == max,
            r.spec_value() == num,
    {
        BoundedU8 { min, max, value: num }
    }

    /// Consumes the wrapper and returns the raw value.
    pub fn into_inner(self) -> (r: u8)
        ensures
            r == self.spec_value(),
    {
        self.value
    }

    /// Renders the wrapped value in its natural decimal form, with no
    /// added formatting.
    pub fn to_text(&self) -> (r: String)
        ensures
            r@ == spec_decimal(self.spec_value() as int),
    {
        u128_to_decimal(self.value as u128)
    }
}

/// A `u16` held inside a fixed inclusive range `[min, max]`.
#[derive(Debug, Clone, Copy, PartialEq, Eq, Hash)]
pub struct BoundedU16 {
    min: u16,
    max: u16,
    value: u16,
}

impl BoundedU16 {
    /// The lower bound this value was constructed against.
    pub closed spec fn spec_min(self) -> u16 {
        self.min
    }

    /// The upper bound this value was constructed against.
    pub closed spec fn spec_max(self) -> u16 {
        self.max
    }

    /// The wrapped value.
    pub closed spec fn spec_value(self) -> u16 {
        self.value
    }

    /// The invariant: the wrapped value lies inside the range.
    pub open spec fn wf(self) -> bool {
        self.spec_min() <= self.spec_value() <= self.spec_max()
    }

    /// The validation gate, as a specification-level function: the result
    /// of constructing from `num` against `[min, max]`.
    pub closed spec fn spec_new(min: u16, max: u16, num: u16) -> Result<Self, OutOfBoundsError<u16>> {
        if num < min {
            Err(OutOfBoundsError::Low(min, max, num))
        } else if num > max {
            Err(OutOfBoundsError::High(min, max, num))
        } else {
            Ok(BoundedU16 { min, max, value: num })
        }
    }

    /// Range round trip: a value inside the range is accepted and wraps
    /// exactly that value; a value below the range is rejected as `Low`
    /// and a value above it as `High`, each carrying the exact bounds and
    /// offending value.
    pub proof fn lemma_range_round_trip(min: u16, max: u16, num: u16)
        ensures
            min <= num <= max ==> (Self::spec_new(min, max, num) matches Ok(b) && b.spec_min() == min
                && b.spec_max() == max && b.spec_value() == num && b.wf()),
            num < min ==> Self::spec_new(min, max, num) == Err::<Self, _>(
                OutOfBoundsError::Low(min, max, num),
            ),
            num >= min && num > max ==> Self::spec_new(min, max, num) == Err::<Self, _>(
                OutOfBoundsError::High(min, max, num),
            ),
    {
    }

    /// Serialization symmetry, at the value level: a wrapper that holds
    /// its invariant re-enters the validation gate unchanged, so parsing
    /// back a transparently serialized value restores the original.
    pub proof fn lemma_revalidate(b: Self)
        requires
            b.wf(),
        ensures
            Self::spec_new(b.spec_min(), b.spec_max(), b.spec_value()) == Ok::<Self, OutOfBoundsError<u16>>(b),
    {
    }

    /// Creates a new bounded value from `num`, validated against the
    /// inclusive range `[min, max]`.
    pub fn new(min: u16, max: u16, num: u16) -> (r: Result<Self, OutOfBoundsError<u16>>)
        ensures
            r == Self::spec_new(min, max, num),
            num < min ==> r == Err::<Self, _>(OutOfBoundsError::Low(min, max, num)),
            num >= min && num > max ==> r == Err::<Self, _>(OutOfBoundsError::High(min, max, num)),
            min <= num <= max ==> (r matches Ok(b) && b.spec_min() == min && b.spec_max() == max
                && b.spec_value() == num && b.wf()),
    {
        if min > num {
            Err(OutOfBoundsError::Low(min, max, num))
        } else if num > max {
            Err(OutOfBoundsError::High(min, max, num))
        } else {
            Ok(BoundedU16 { min, max, value: num })
        }
    }

    /// Creates a new bounded value without validating it. The caller is
    /// responsible for having established `min <= num <= max`; a value
    /// that violates it is wrapped all the same and the wrapper will not
    /// hold [`Self::wf`]. This is the explicit escape hatch for call
    /// sites that re-derive the bound elsewhere, not a general bypass.
    pub fn new_unchecked(min: u16, max: u16, num: u16) -> (r: Self)
        ensures
            r.spec_min() == min,
            r.spec_max() == max,
            r.spec_value() == num,
    {
        BoundedU16 { min, max, value: num }
    }

    /// Consumes the wrapper and returns the raw value.
    pub fn into_inner(self) -> (r: u16)
        ensures
            r == self.spec_value(),
    {
        self.value
    }

    /// Renders the wrapped value in its natural decimal form, with no
    /// added formatting.
    pub fn to_text(&self) -> (r: String)
        ensures
            r@ == spec_decimal(self.spec_value() as int),
    {
        u128_to_decimal(self.value as u128)
    }
}

/// A `u32` held inside a fixed inclusive range `[min, max]`.
#[derive(Debug, Clone, Copy, PartialEq, Eq, Hash)]
pub struct BoundedU32 {
    min: u32,
    max: u32,
    value: u32,
}

impl BoundedU32 {
    /// The lower bound this value was constructed against.
    pub closed spec fn spec_min(self) -> u32 {
        self.min
    }

    /// The upper bound this value was constructed against.
    pub closed spec fn spec_max(self) -> u32 {
        self.max
    }

    /// The wrapped value.
    pub closed spec fn spec_value(self) -> u32 {
        self.value
    }

    /// The invariant: the wrapped value lies inside the range.
    pub open spec fn wf(self) -> bool {
        self.spec_min() <= self.spec_value() <= self.spec_max()
    }

    /// The validation gate, as a specification-level function: the result
    /// of constructing from `num` against `[min, max]`.
    pub closed spec fn spec_new(min: u32, max: u32, num: u32) -> Result<Self, OutOfBoundsError<u32>> {
        if num < min {
            Err(OutOfBoundsError::Low(min, max, num))
        } else if num > max {
            Err(OutOfBoundsError::High(min, max, num))
        } else {
            Ok(BoundedU32 { min, max, value: num })
        }
    }

    /// Range round trip: a value inside the range is accepted and wraps
    /// exactly that value; a value below the range is rejected as `Low`
    /// and a value above it as `High`, each carrying the exact bounds and
    /// offending value.
    pub proof fn lemma_range_round_trip(min: u32, max: u32, num: u32)
        ensures
            min <= num <= max ==> (Self::spec_new(min, max, num) matches Ok(b) && b.spec_min() == min
                && b.spec_max() == max && b.spec_value() == num && b.wf()),
            num < min ==> Self::spec_new(min, max, num) == Err::<Self, _>(
                OutOfBoundsError::Low(min, max, num),
            ),
            num >= min && num > max ==> Self::spec_new(min, max, num) == Err::<Self, _>(
                OutOfBoundsError::High(min, max, num),
            ),
    {
    }

    /// Serialization symmetry, at the value level: a wrapper that holds
    /// its invariant re-enters the validation gate unchanged, so parsing
    /// back a transparently serialized value restores the original.
    pub proof fn lemma_revalidate(b: Self)
        requires
            b.wf(),
        ensures
            Self::spec_new(b.spec_min(), b.spec_max(), b.spec_value()) == Ok::<Self, OutOfBoundsError<u32>>(b),
    {
    }

    /// Creates a new bounded value from `num`, validated against the
    /// inclusive range `[min, max]`.
    pub fn new(min: u32, max: u32, num: u32) -> (r: Result<Self, OutOfBoundsError<u32>>)
        ensures
            r == Self::spec_new(min, max, num),
            num < min ==> r == Err::<Self, _>(OutOfBoundsError::Low(min, max, num)),
            num >= min && num > max ==> r == Err::<Self, _>(OutOfBoundsError::High(min, max, num)),
            min <= num <= max ==> (r matches Ok(b) && b.spec_min() == min && b.spec_max() == max
                && b.spec_value() == num && b.wf()),
    {
        if min > num {
            Err(OutOfBoundsError::Low(min, max, num))
        } else if num > max {
            Err(OutOfBoundsError::High(min, max, num))
        } else {
            Ok(BoundedU32 { min, max, value: num })
        }
    }

    /// Creates a new bounded value without validating it. The caller is
    /// responsible for having established `min <= num <= max`; a value
    /// that violates it is wrapped all the same and the wrapper will not
    /// hold [`Self::wf`]. This is the explicit escape hatch for call
    /// sites that re-derive the bound elsewhere, not a general bypass.
    pub fn new_unchecked(min: u32, max: u32, num: u32) -> (r: Self)
        ensures
            r.spec_min() == min,
            r.spec_max() == max,
            r.spec_value() == num,
    {
        BoundedU32 { min, max, value: num }
    }

    /// Consumes the wrapper and returns the raw value.
    pub fn into_inner(self) -> (r: u32)
        ensures
            r == self.spec_value(),
    {
        self.value
    }

    /// Renders the wrapped value in its natural decimal form, with no
    /// added formatting.
    pub fn to_text(&self) -> (r: String)
        ensures
            r@ == spec_decimal(self.spec_value() as int),
    {
        u128_to_decimal(self.value as u128)
    }
}

/// A `u64` held inside a fixed inclusive range `[min, max]`.
#[derive(Debug, Clone, Copy, PartialEq, Eq, Hash)]
pub struct BoundedU64 {
    min: u64,
    max: u64,
    value: u64,
}

impl BoundedU64 {
    /// The lower bound this value was constructed against.
    pub closed spec fn spec_min(self) -> u64 {
        self.min
    }

    /// The upper bound this value was constructed against.
    pub closed spec fn spec_max(self) -> u64 {
        self.max
    }

    /// The wrapped value.
    pub closed spec fn spec_value(self) -> u64 {
        self.value
    }

    /// The invariant: the wrapped value lies inside the range.
    pub open spec fn wf(self) -> bool {
        self.spec_min() <= self.spec_value() <= self.spec_max()
    }

    /// The validation gate, as a specification-level function: the result
    /// of constructing from `num` against `[min, max]`.
    pub closed spec fn spec_new(min: u64, max: u64, num: u64) -> Result<Self, OutOfBoundsError<u64>> {
        if num < min {
            Err(OutOfBoundsError::Low(min, max, num))
        } else if num > max {
            Err(OutOfBoundsError::High(min, max, num))
        } else {
            Ok(BoundedU64 { min, max, value: num })
        }
    }

    /// Range round trip: a value inside the range is accepted and wraps
    /// exactly that value; a value below the range is rejected as `Low`
    /// and a value above it as `High`, each carrying the exact bounds and
    /// offending value.
    pub proof fn lemma_range_round_trip(min: u64, max: u64, num: u64)
        ensures
            min <= num <= max ==> (Self::spec_new(min, max, num) matches Ok(b) && b.spec_min() == min
                && b.spec_max() == max && b.spec_value() == num && b.wf()),
            num < min ==> Self::spec_new(min, max, num) == Err::<Self, _>(
                OutOfBoundsError::Low(min, max, num),
            ),
            num >= min && num > max ==> Self::spec_new(min, max, num) == Err::<Self, _>(
                OutOfBoundsError::High(min, max, num),
            ),
    {
    }

    /// Serialization symmetry, at the value level: a wrapper that holds
    /// its invariant re-enters the validation gate unchanged, so parsing
    /// back a transparently serialized value restores the original.
    pub proof fn lemma_revalidate(b: Self)
        requires
            b.wf(),
        ensures
            Self::spec_new(b.spec_min(), b.spec_max(), b.spec_value()) == Ok::<Self, OutOfBoundsError<u64>>(b),
    {
    }

    /// Creates a new bounded value from `num`, validated against the
    /// inclusive range `[min, max]`.
    pub fn new(min: u64, max: u64, num: u64) -> (r: Result<Self, OutOfBoundsError<u64>>)
        ensures
            r == Self::spec_new(min, max, num),
            num < min ==> r == Err::<Self, _>(OutOfBoundsError::Low(min, max, num)),
            num >= min && num > max ==> r == Err::<Self, _>(OutOfBoundsError::High(min, max, num)),
            min <= num <= max ==> (r matches Ok(b) && b.spec_min() == min && b.spec_max() == max
                && b.spec_value() == num && b.wf()),
    {
        if min > num {
            Err(OutOfBoundsError::Low(min, max, num))
        } else if num > max {
            Err(OutOfBoundsError::High(min, max, num))
        } else {
            Ok(BoundedU64 { min, max, value: num })
        }
    }

    /// Creates a new bounded value without validating it. The caller is
    /// responsible for having established `min <= num <= max`; a value
    /// that violates it is wrapped all the same and the wrapper will not
    /// hold [`Self::wf`]. This is the explicit escape hatch for call
    /// sites that re-derive the bound elsewhere, not a general bypass.
    pub fn new_unchecked(min: u64, max: u64, num: u64) -> (r: Self)
        ensures
            r.spec_min() == min,
            r.spec_max() == max,
            r.spec_value() == num,
    {
        BoundedU64 { min, max, value: num }
    }

    /// Consumes the wrapper and returns the raw value.
    pub fn into_inner(self) -> (r: u64)
        ensures
            r == self.spec_value(),
    {
        self.value
    }

    /// Renders the wrapped value in its natural decimal form, with no
    /// added formatting.
    pub fn to_text(&self) -> (r: String)
        ensures
            r@ == spec_decimal(self.spec_value() as int),
    {
        u128_to_decimal(self.value as u128)
    }
}

/// A `u128` held inside a fixed inclusive range `[min, max]`.
#[derive(Debug, Clone, Copy, PartialEq, Eq, Hash)]
pub struct BoundedU128 {
    min: u128,
    max: u128,
    value: u128,
}

impl BoundedU128 {
    /// The lower bound this value was constructed against.
    pub closed spec fn spec_min(self) -> u128 {
        self.min
    }

    /// The upper bound this value was constructed against.
    pub closed spec fn spec_max(self) -> u128 {
        self.max
    }

    /// The wrapped value.
    pub closed spec fn spec_value(self) -> u128 {
        self.value
    }

    /// The invariant: the wrapped value lies inside the range.
    pub open spec fn wf(self) -> bool {
        self.spec_min() <= self.spec_value() <= self.spec_max()
    }

    /// The validation gate, as a specification-level function: the result
    /// of constructing from `num` against `[min, max]`.
    pub closed spec fn spec_new(min: u128, max: u128, num: u128) -> Result<Self, OutOfBoundsError<u128>> {
        if num < min {
            Err(OutOfBoundsError::Low(min, max, num))
        } else if num > max {
            Err(OutOfBoundsError::High(min, max, num))
        } else {
            Ok(BoundedU128 { min, max, value: num })
        }
    }

    /// Range round trip: a value inside the range is accepted and wraps
    /// exactly that value; a value below the range is rejected as `Low`
    /// and a value above it as `High`, each carrying the exact bounds and
    /// offending value.
    pub proof fn lemma_range_round_trip(min: u128, max: u128, num: u128)
        ensures
            min <= num <= max ==> (Self::spec_new(min, max, num) matches Ok(b) && b.spec_min() == min
                && b.spec_max() == max && b.spec_value() == num && b.wf()),
            num < min ==> Self::spec_new(min, max, num) == Err::<Self, _>(
                OutOfBoundsError::Low(min, max, num),
            ),
            num >= min && num > max ==> Self::spec_new(min, max, num) == Err::<Self, _>(
                OutOfBoundsError::High(min, max, num),
            ),
    {
    }

    /// Serialization symmetry, at the value level: a wrapper that holds
    /// its invariant re-enters the validation gate unchanged, so parsing
    /// back a transparently serialized value restores the original.
    pub proof fn lemma_revalidate(b: Self)
        requires
            b.wf(),
        ensures
            Self::spec_new(b.spec_min(), b.spec_max(), b.spec_value()) == Ok::<Self, OutOfBoundsError<u128>>(b),
    {
    }

    /// Creates a new bounded value from `num`, validated against the
    /// inclusive range `[min, max]`.
    pub fn new(min: u128, max: u128, num: u128) -> (r: Result<Self, OutOfBoundsError<u128>>)
        ensures
            r == Self::spec_new(min, max, num),
            num < min ==> r == Err::<Self, _>(OutOfBoundsError::Low(min, max, num)),
            num >= min && num > max ==> r == Err::<Self, _>(OutOfBoundsError::High(min, max, num)),
            min <= num <= max ==> (r matches Ok(b) && b.spec_min() == min && b.spec_max() == max
                && b.spec_value() == num && b.wf()),
    {
        if min > num {
            Err(OutOfBoundsError::Low(min, max, num))
        } else if num > max {
            Err(OutOfBoundsError::High(min, max, num))
        } else {
            Ok(BoundedU128 { min, max, value: num })
        }
    }

    /// Creates a new bounded value without validating it. The caller is
    /// responsible for having established `min <= num <= max`; a value
    /// that violates it is wrapped all the same and the wrapper will not
    /// hold [`Self::wf`]. This is the explicit escape hatch for call
    /// sites that re-derive the bound elsewhere, not a general bypass.
    pub fn new_unchecked(min: u128, max: u128, num: u128) -> (r: Self)
        ensures
            r.spec_min() == min,
            r.spec_max() == max,
            r.spec_value() == num,
    {
        BoundedU128 { min, max, value: num }
    }

    /// Consumes the wrapper and returns the raw value.
    pub fn into_inner(self) -> (r: u128)
        ensures
            r == self.spec_value(),
    {
        self.value
    }

    /// Renders the wrapped value in its natural decimal form, with no
    /// added formatting.
    pub fn to_text(&self) -> (r: String)
        ensures
            r@ == spec_decimal(self.spec_value() as int),
    {
        u128_to_decimal(self.value)
    }
}

/// A `usize` held inside a fixed inclusive range `[min, max]`.
#[derive(Debug, Clone, Copy, PartialEq, Eq, Hash)]
pub struct BoundedUsize {
    min: usize,
    max: usize,
    value: usize,
}

impl BoundedUsize {
    /// The lower bound this value was constructed against.
    pub closed spec fn spec_min(self) -> usize {
        self.min
    }

    /// The upper bound this value was constructed against.
    pub closed spec fn spec_max(self) -> usize {
        self.max
    }

    /// The wrapped value.
    pub closed spec fn spec_value(self) -> usize {
        self.value
    }

    /// The invariant: the wrapped value lies inside the range.
    pub open spec fn wf(self) -> bool {
        self.spec_min() <= self.spec_value() <= self.spec_max()
    }

    /// The validation gate, as a specification-level function: the result
    /// of constructing from `num` against `[min, max]`.
    pub closed spec fn spec_new(min: usize, max: usize, num: usize) -> Result<Self, OutOfBoundsError<usize>> {
        if num < min {
            Err(OutOfBoundsError::Low(min, max, num))
        } else if num > max {
            Err(OutOfBoundsError::High(min, max, num))
        } else {
            Ok(BoundedUsize { min, max, value: num })
        }
    }

    /// Range round trip: a value inside the range is accepted and wraps
    /// exactly that value; a value below the range is rejected as `Low`
    /// and a value above it as `High`, each carrying the exact bounds and
    /// offending value.
    pub proof fn lemma_range_round_trip(min: usize, max: usize, num: usize)
        ensures
            min <= num <= max ==> (Self::spec_new(min, max, num) matches Ok(b) && b.spec_min() == min
                && b.spec_max() == max && b.spec_value() == num && b.wf()),
            num < min ==> Self::spec_new(min, max, num) == Err::<Self, _>(
                OutOfBoundsError::Low(min, max, num),
            ),
            num >= min && num > max ==> Self::spec_new(min, max, num) == Err::<Self, _>(
                OutOfBoundsError::High(min, max, num),
            ),
    {
    }

    /// Serialization symmetry, at the value level: a wrapper that holds
    /// its invariant re-enters the validation gate unchanged, so parsing
    /// back a transparently serialized value restores the original.
    pub proof fn lemma_revalidate(b: Self)
        requires
            b.wf(),
        ensures
            Self::spec_new(b.spec_min(), b.spec_max(), b.spec_value()) == Ok::<Self, OutOfBoundsError<usize>>(b),
    {
    }

    /// Creates a new bounded value from `num`, validated against the
    /// inclusive range `[min, max]`.
    pub fn new(min: usize, max: usize, num: usize) -> (r: Result<Self, OutOfBoundsError<usize>>)
        ensures
            r == Self::spec_new(min, max, num),
            num < min ==> r == Err::<Self, _>(OutOfBoundsError::Low(min, max, num)),
            num >= min && num > max ==> r == Err::<Self, _>(OutOfBoundsError::High(min, max, num)),
            min <= num <= max ==> (r matches Ok(b) && b.spec_min() == min && b.spec_max() == max
                && b.spec_value() == num && b.wf()),
    {
        if min > num {
            Err(OutOfBoundsError::Low(min, max, num))
        } else if num > max {
            Err(OutOfBoundsError::High(min, max, num))
        } else {
            Ok(BoundedUsize { min, max, value: num })
        }
    }

    /// Creates a new bounded value without validating it. The caller is
    /// responsible for having established `min <= num <= max`; a value
    /// that violates it is wrapped all the same and the wrapper will not
    /// hold [`Self::wf`]. This is the explicit escape hatch for call
    /// sites that re-derive the bound elsewhere, not a general bypass.
    pub fn new_unchecked(min: usize, max: usize, num: usize) -> (r: Self)
        ensures
            r.spec_min() == min,
            r.spec_max() == max,
            r.spec_value() == num,
    {
        BoundedUsize { min, max, value: num }
    }

    /// Consumes the wrapper and returns the raw value.
    pub fn into_inner(self) -> (r: usize)
        ensures
            r == self.spec_value(),
    {
        self.value
    }

    /// Renders the wrapped value in its natural decimal form, with no
    /// added formatting.
    pub fn to_text(&self) -> (r: String)
        ensures
            r@ == spec_decimal(self.spec_value() as int),
    {
        u128_to_decimal(self.value as u128)
    }
}

} // verus!
