//! What the geometry asks of a scalar type.
//!
//! The vectors, rays and primitives of this crate are generic over their
//! scalar. Arithmetic and comparison come from the operator traits of the
//! standard library; the square root, which the standard library has no
//! trait for, comes from [`Sqrt`].
//!
//! A scalar type may or may not be *exact*: its operations may return
//! precisely what their specifications say (machine integers do), or they
//! may leave their results open (floating point does). Every contract of
//! this crate pins its result down for exact scalars, and asks of the others
//! only that their operations are *total*, defined on all operands.
use std::ops::{Add, Div, Mul, Neg, Sub};
use vstd::prelude::*;
use vstd::std_specs::cmp::PartialOrdSpec;
use vstd::std_specs::convert::FromSpec;
use vstd::std_specs::ops::{AddSpec, DivSpec, MulSpec, NegSpec, SubSpec};

verus! {

/// A scalar that has a square root.
pub trait Sqrt: Sized {
    /// Whether `sqrt` returns what `sqrt_spec` says. An implementation that
    /// does not say so makes no such promise.
    open spec fn obeys_sqrt_spec() -> bool {
        false
    }

    /// The square root, for implementations that obey.
    open spec fn sqrt_spec(self) -> Self {
        self
    }

    /// The square root of `self`. It is defined on every operand.
    fn sqrt(self) -> (r: Self)
        ensures
            Self::obeys_sqrt_spec() ==> r == self.sqrt_spec(),
    ;
}

/// `r` is not negative, its square does not exceed `n`, and its
/// successor's does.
pub open spec fn is_isqrt(n: int, r: int) -> bool {
    0 <= r && r * r <= n < (r + 1) * (r + 1)
}

/// The integer square root: the largest `r` whose square does not exceed
/// `n`, and zero where `n` is negative.
pub open spec fn isqrt(n: int) -> int {
    if n <= 0 {
        0
    } else {
        choose|r: int| is_isqrt(n, r)
    }
}

/// A number whose square does not exceed `n`, while its successor's does,
/// is the integer square root of `n`.
pub proof fn isqrt_is(n: int, r: int)
    requires
        is_isqrt(n, r),
    ensures
        isqrt(n) == r,
{
    if n > 0 {
        let c = choose|c: int| is_isqrt(n, c);
        assert(c == r) by (nonlinear_arith)
            requires
                0 <= c,
                0 <= r,
                c * c <= n < (c + 1) * (c + 1),
                r * r <= n < (r + 1) * (r + 1),
        {
            if c < r {
                assert((c + 1) * (c + 1) <= r * r);
            } else if r < c {
                assert((r + 1) * (r + 1) <= c * c);
            }
        }
    } else {
        assert(r == 0) by (nonlinear_arith)
            requires
                0 <= r,
                r * r <= n <= 0,
        {
        }
    }
}

/// The machine integers have the integer square root. Their arithmetic is
/// exact, so with them every contract of the crate speaks of exact values.
impl Sqrt for i64 {
    open spec fn obeys_sqrt_spec() -> bool {
        true
    }

    open spec fn sqrt_spec(self) -> i64 {
        isqrt(self as int) as i64
    }

    fn sqrt(self) -> (r: i64) {
        if self <= 0 {
            return 0;
        }
        let mut lo: i64 = 0;
        let mut hi: i64 = 3037000500;
        while hi - lo > 1
            invariant
                0 <= lo < hi <= 3037000500,
                lo * lo <= self < hi * hi,
            decreases hi - lo,
        {
            let mid: i64 = lo + (hi - lo) / 2;
            assert(mid * mid <= 3037000499 * 3037000499) by (nonlinear_arith)
                requires
                    0 <= mid <= 3037000499,
            ;
            if mid * mid <= self {
                lo = mid;
            } else {
                hi = mid;
            }
        }
        proof {
            isqrt_is(self as int, lo as int);
        }
        lo
    }
}

/// Everything the intersection routines need of a scalar: copying, the four
/// operations, negation, comparison, the small integers and a square root.
pub trait Scalar: Copy + Add<Output = Self> + Sub<Output = Self> + Mul<Output = Self> + Div<
    Output = Self,
> + Neg<Output = Self> + PartialOrd + From<i32> + Sqrt {

}

impl<
    T: Copy + Add<Output = T> + Sub<Output = T> + Mul<Output = T> + Div<Output = T> + Neg<
        Output = T,
    > + PartialOrd + From<i32> + Sqrt,
> Scalar for T {

}

/// Any two values of `T` may be added.
pub open spec fn add_total<T: Add<Output = T>>() -> bool {
    forall|a: T, b: T| #[trigger] a.add_req(b)
}

/// Any value of `T` may be subtracted from any other.
pub open spec fn sub_total<T: Sub<Output = T>>() -> bool {
    forall|a: T, b: T| #[trigger] a.sub_req(b)
}

/// Any two values of `T` may be multiplied.
pub open spec fn mul_total<T: Mul<Output = T>>() -> bool {
    forall|a: T, b: T| #[trigger] a.mul_req(b)
}

/// Any value of `T` may be divided by any other.
pub open spec fn div_total<T: Div<Output = T>>() -> bool {
    forall|a: T, b: T| #[trigger] a.div_req(b)
}

/// Any value of `T` may be negated.
pub open spec fn neg_total<T: Neg<Output = T>>() -> bool {
    forall|a: T| #[trigger] a.neg_req()
}

/// All arithmetic of `T` is defined on all operands.
pub open spec fn total<T: Scalar>() -> bool {
    &&& add_total::<T>()
    &&& sub_total::<T>()
    &&& mul_total::<T>()
    &&& div_total::<T>()
    &&& neg_total::<T>()
}

/// Comparing two values of `T` returns what its specification says.
pub open spec fn order_exact<T: PartialOrd>() -> bool {
    T::obeys_partial_cmp_spec()
}

/// Converting an integer to `T` returns what its specification says.
pub open spec fn lit_exact<T: From<i32>>() -> bool {
    <T as FromSpec<i32>>::obeys_from_spec()
}

/// The scalar that stands for the integer `n`.
pub open spec fn lit<T: From<i32>>(n: i32) -> T {
    <T as FromSpec<i32>>::from_spec(n)
}

/// Every operation of `T` returns what its specification says.
pub open spec fn exact<T: Scalar>() -> bool {
    &&& T::obeys_add_spec()
    &&& T::obeys_sub_spec()
    &&& T::obeys_mul_spec()
    &&& T::obeys_div_spec()
    &&& T::obeys_neg_spec()
    &&& T::obeys_sqrt_spec()
    &&& order_exact::<T>()
    &&& lit_exact::<T>()
}

} // verus!
