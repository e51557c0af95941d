//! Three-component vectors over any scalar type.
use crate::scalar::{add_total, div_total, sub_total, Sqrt};
use std::ops::{Add, Div, Mul, Neg, Sub};
use vstd::prelude::*;
use vstd::std_specs::ops::{AddSpec, DivSpec, MulSpec, NegSpec, SubSpec};

verus! {

/// A vector of three components of one scalar type. Every operation returns
/// a new vector.
#[derive(Debug, Copy, Clone)]
pub struct Vector3<T> {
    pub x: T,
    pub y: T,
    pub z: T,
}

impl<T> Vector3<T> {
    pub fn new(x: T, y: T, z: T) -> (v: Self)
        ensures
            v == (Vector3 { x, y, z }),
    {
        Vector3 { x, y, z }
    }
}

impl<T: Mul<Output = T> + Add<Output = T>> Vector3<T> {
    /// `x*x' + y*y' + z*z'`, summed from the left.
    pub open spec fn dot_spec(self, other: Self) -> T {
        self.x.mul_spec(other.x).add_spec(self.y.mul_spec(other.y)).add_spec(
            self.z.mul_spec(other.z),
        )
    }

    /// The three products may be formed, and the two sums: either because
    /// any two scalars may be added, or because the operations are exact and
    /// these very sums are permitted.
    pub open spec fn dot_req(self, other: Self) -> bool {
        &&& self.x.mul_req(other.x)
        &&& self.y.mul_req(other.y)
        &&& self.z.mul_req(other.z)
        &&& add_total::<T>() || {
            &&& T::obeys_mul_spec()
            &&& T::obeys_add_spec()
            &&& self.x.mul_spec(other.x).add_req(self.y.mul_spec(other.y))
            &&& self.x.mul_spec(other.x).add_spec(self.y.mul_spec(other.y)).add_req(
                self.z.mul_spec(other.z),
            )
        }
    }

    /// The dot product.
    pub fn dot(self, other: Self) -> (r: T)
        requires
            self.dot_req(other),
        ensures
            T::obeys_mul_spec() && T::obeys_add_spec() ==> r == self.dot_spec(other),
    {
        let result = self * other;
        result.x + result.y + result.z
    }
}

impl<T: Mul<Output = T> + Sub<Output = T> + Copy> Vector3<T> {
    /// The right-handed cross product, component by component.
    pub open spec fn cross_spec(self, other: Self) -> Self {
        Vector3 {
            x: self.y.mul_spec(other.z).sub_spec(self.z.mul_spec(other.y)),
            y: self.z.mul_spec(other.x).sub_spec(self.x.mul_spec(other.z)),
            z: self.x.mul_spec(other.y).sub_spec(self.y.mul_spec(other.x)),
        }
    }

    /// The six products may be formed, and the three differences: either
    /// because any two scalars may be subtracted, or because multiplication
    /// is exact and these very differences are permitted.
    pub open spec fn cross_req(self, other: Self) -> bool {
        &&& self.y.mul_req(other.z)
        &&& self.z.mul_req(other.y)
        &&& self.z.mul_req(other.x)
        &&& self.x.mul_req(other.z)
        &&& self.x.mul_req(other.y)
        &&& self.y.mul_req(other.x)
        &&& sub_total::<T>() || {
            &&& T::obeys_mul_spec()
            &&& self.y.mul_spec(other.z).sub_req(self.z.mul_spec(other.y))
            &&& self.z.mul_spec(other.x).sub_req(self.x.mul_spec(other.z))
            &&& self.x.mul_spec(other.y).sub_req(self.y.mul_spec(other.x))
        }
    }

    /// The cross product.
    pub fn cross_prod(self, other: Self) -> (r: Self)
        requires
            self.cross_req(other),
        ensures
            T::obeys_mul_spec() && T::obeys_sub_spec() ==> r == self.cross_spec(other),
    {
        Vector3 {
            x: self.y * other.z - self.z * other.y,
            y: self.z * other.x - self.x * other.z,
            z: self.x * other.y - self.y * other.x,
        }
    }
}

impl<T: Sqrt + Mul<Output = T> + Add<Output = T> + Copy> Vector3<T> {
    /// The Euclidean length: the square root of the vector's dot product
    /// with itself.
    pub open spec fn len_spec(self) -> T {
        self.dot_spec(self).sqrt_spec()
    }

    /// The length.
    pub fn len(self) -> (r: T)
        requires
            self.dot_req(self),
        ensures
            T::obeys_mul_spec() && T::obeys_add_spec() && T::obeys_sqrt_spec() ==> r
                == self.len_spec(),
    {
        (self.x * self.x + self.y * self.y + self.z * self.z).sqrt()
    }
}

impl<T: Sqrt + Mul<Output = T> + Add<Output = T> + Div<Output = T> + Copy> Vector3<T> {
    /// The vector divided by its length.
    pub open spec fn norm_spec(self) -> Self {
        Vector3 {
            x: self.x.div_spec(self.len_spec()),
            y: self.y.div_spec(self.len_spec()),
            z: self.z.div_spec(self.len_spec()),
        }
    }

    /// The length may be computed and each component divided by it: either
    /// because any scalar may be divided by any other, or because the
    /// operations are exact and the length is a permitted divisor. For
    /// machine integers that leaves out the vectors of length zero.
    pub open spec fn norm_req(self) -> bool {
        &&& self.dot_req(self)
        &&& div_total::<T>() || {
            &&& T::obeys_mul_spec()
            &&& T::obeys_add_spec()
            &&& T::obeys_sqrt_spec()
            &&& self.x.div_req(self.len_spec())
            &&& self.y.div_req(self.len_spec())
            &&& self.z.div_req(self.len_spec())
        }
    }

    /// The vector scaled to unit length. A vector of length zero has no
    /// direction: with exact scalars it is left out by `norm_req`, with
    /// others the result is whatever their division by zero gives.
    pub fn norm(self) -> (r: Self)
        requires
            self.norm_req(),
        ensures
            T::obeys_mul_spec() && T::obeys_add_spec() && T::obeys_sqrt_spec()
                && T::obeys_div_spec() ==> r == self.norm_spec(),
    {
        let len = self.len();
        Vector3 { x: self.x / len, y: self.y / len, z: self.z / len }
    }
}

impl<T: Add<Output = T>> Vector3<T> {
    /// The sum, component by component.
    pub open spec fn plus(self, other: Self) -> Self {
        Vector3 {
            x: self.x.add_spec(other.x),
            y: self.y.add_spec(other.y),
            z: self.z.add_spec(other.z),
        }
    }

    /// The three sums may be formed.
    pub open spec fn plus_req(self, other: Self) -> bool {
        self.x.add_req(other.x) && self.y.add_req(other.y) && self.z.add_req(other.z)
    }
}

impl<T: Sub<Output = T>> Vector3<T> {
    /// The difference, component by component.
    pub open spec fn minus(self, other: Self) -> Self {
        Vector3 {
            x: self.x.sub_spec(other.x),
            y: self.y.sub_spec(other.y),
            z: self.z.sub_spec(other.z),
        }
    }

    /// The three differences may be formed.
    pub open spec fn minus_req(self, other: Self) -> bool {
        self.x.sub_req(other.x) && self.y.sub_req(other.y) && self.z.sub_req(other.z)
    }
}

impl<T: Mul<Output = T> + Copy> Vector3<T> {
    /// Every component multiplied by `k`.
    pub open spec fn scaled(self, k: T) -> Self {
        Vector3 { x: self.x.mul_spec(k), y: self.y.mul_spec(k), z: self.z.mul_spec(k) }
    }

    /// The three products may be formed.
    pub open spec fn scaled_req(self, k: T) -> bool {
        self.x.mul_req(k) && self.y.mul_req(k) && self.z.mul_req(k)
    }
}

impl<T: Add<Output = T>> Add for Vector3<T> {
    type Output = Vector3<T>;

    fn add(self, other: Vector3<T>) -> (r: Vector3<T>) {
        Vector3 { x: self.x + other.x, y: self.y + other.y, z: self.z + other.z }
    }
}

impl<T: Add<Output = T>> vstd::std_specs::ops::AddSpecImpl for Vector3<T> {
    open spec fn obeys_add_spec() -> bool {
        T::obeys_add_spec()
    }

    open spec fn add_req(self, other: Vector3<T>) -> bool {
        self.x.add_req(other.x) && self.y.add_req(other.y) && self.z.add_req(other.z)
    }

    open spec fn add_spec(self, other: Vector3<T>) -> Vector3<T> {
        Vector3 {
            x: self.x.add_spec(other.x),
            y: self.y.add_spec(other.y),
            z: self.z.add_spec(other.z),
        }
    }
}

impl<T: Add<Output = T> + Copy> Add<T> for Vector3<T> {
    type Output = Vector3<T>;

    fn add(self, other: T) -> (r: Vector3<T>) {
        Vector3 { x: self.x + other, y: self.y + other, z: self.z + other }
    }
}

impl<T: Add<Output = T> + Copy> vstd::std_specs::ops::AddSpecImpl<T> for Vector3<T> {
    open spec fn obeys_add_spec() -> bool {
        T::obeys_add_spec()
    }

    open spec fn add_req(self, other: T) -> bool {
        self.x.add_req(other) && self.y.add_req(other) && self.z.add_req(other)
    }

    open spec fn add_spec(self, other: T) -> Vector3<T> {
        Vector3 {
            x: self.x.add_spec(other),
            y: self.y.add_spec(other),
            z: self.z.add_spec(other),
        }
    }
}

impl<T: Sub<Output = T>> Sub for Vector3<T> {
    type Output = Vector3<T>;

    fn sub(self, other: Vector3<T>) -> (r: Vector3<T>) {
        Vector3 { x: self.x - other.x, y: self.y - other.y, z: self.z - other.z }
    }
}

impl<T: Sub<Output = T>> vstd::std_specs::ops::SubSpecImpl for Vector3<T> {
    open spec fn obeys_sub_spec() -> bool {
        T::obeys_sub_spec()
    }

    open spec fn sub_req(self, other: Vector3<T>) -> bool {
        self.x.sub_req(other.x) && self.y.sub_req(other.y) && self.z.sub_req(other.z)
    }

    open spec fn sub_spec(self, other: Vector3<T>) -> Vector3<T> {
        Vector3 {
            x: self.x.sub_spec(other.x),
            y: self.y.sub_spec(other.y),
            z: self.z.sub_spec(other.z),
        }
    }
}

impl<T: Sub<Output = T> + Copy> Sub<T> for Vector3<T> {
    type Output = Vector3<T>;

    fn sub(self, other: T) -> (r: Vector3<T>) {
        Vector3 { x: self.x - other, y: self.y - other, z: self.z - other }
    }
}

impl<T: Sub<Output = T> + Copy> vstd::std_specs::ops::SubSpecImpl<T> for Vector3<T> {
    open spec fn obeys_sub_spec() -> bool {
        T::obeys_sub_spec()
    }

    open spec fn sub_req(self, other: T) -> bool {
        self.x.sub_req(other) && self.y.sub_req(other) && self.z.sub_req(other)
    }

    open spec fn sub_spec(self, other: T) -> Vector3<T> {
        Vector3 {
            x: self.x.sub_spec(other),
            y: self.y.sub_spec(other),
            z: self.z.sub_spec(other),
        }
    }
}

impl<T: Div<Output = T>> Div for Vector3<T> {
    type Output = Vector3<T>;

    fn div(self, other: Vector3<T>) -> (r: Vector3<T>) {
        Vector3 { x: self.x / other.x, y: self.y / other.y, z: self.z / other.z }
    }
}

impl<T: Div<Output = T>> vstd::std_specs::ops::DivSpecImpl for Vector3<T> {
    open spec fn obeys_div_spec() -> bool {
        T::obeys_div_spec()
    }

    open spec fn div_req(self, other: Vector3<T>) -> bool {
        self.x.div_req(other.x) && self.y.div_req(other.y) && self.z.div_req(other.z)
    }

    open spec fn div_spec(self, other: Vector3<T>) -> Vector3<T> {
        Vector3 {
            x: self.x.div_spec(other.x),
            y: self.y.div_spec(other.y),
            z: self.z.div_spec(other.z),
        }
    }
}

impl<T: Div<Output = T> + Copy> Div<T> for Vector3<T> {
    type Output = Vector3<T>;

    fn div(self, other: T) -> (r: Vector3<T>) {
        Vector3 { x: self.x / other, y: self.y / other, z: self.z / other }
    }
}

impl<T: Div<Output = T> + Copy> vstd::std_specs::ops::DivSpecImpl<T> for Vector3<T> {
    open spec fn obeys_div_spec() -> bool {
        T::obeys_div_spec()
    }

    open spec fn div_req(self, other: T) -> bool {
        self.x.div_req(other) && self.y.div_req(other) && self.z.div_req(other)
    }

    open spec fn div_spec(self, other: T) -> Vector3<T> {
        Vector3 {
            x: self.x.div_spec(other),
            y: self.y.div_spec(other),
            z: self.z.div_spec(other),
        }
    }
}

impl<T: Mul<Output = T>> Mul for Vector3<T> {
    type Output = Vector3<T>;

    fn mul(self, other: Vector3<T>) -> (r: Vector3<T>) {
        Vector3 { x: self.x * other.x, y: self.y * other.y, z: self.z * other.z }
    }
}

impl<T: Mul<Output = T>> vstd::std_specs::ops::MulSpecImpl for Vector3<T> {
    open spec fn obeys_mul_spec() -> bool {
        T::obeys_mul_spec()
    }

    open spec fn mul_req(self, other: Vector3<T>) -> bool {
        self.x.mul_req(other.x) && self.y.mul_req(other.y) && self.z.mul_req(other.z)
    }

    open spec fn mul_spec(self, other: Vector3<T>) -> Vector3<T> {
        Vector3 {
            x: self.x.mul_spec(other.x),
            y: self.y.mul_spec(other.y),
            z: self.z.mul_spec(other.z),
        }
    }
}

impl<T: Mul<Output = T> + Copy> Mul<T> for Vector3<T> {
    type Output = Vector3<T>;

    fn mul(self, other: T) -> (r: Vector3<T>) {
        Vector3 { x: self.x * other, y: self.y * other, z: self.z * other }
    }
}

impl<T: Mul<Output = T> + Copy> vstd::std_specs::ops::MulSpecImpl<T> for Vector3<T> {
    open spec fn obeys_mul_spec() -> bool {
        T::obeys_mul_spec()
    }

    open spec fn mul_req(self, other: T) -> bool {
        self.x.mul_req(other) && self.y.mul_req(other) && self.z.mul_req(other)
    }

    open spec fn mul_spec(self, other: T) -> Vector3<T> {
        Vector3 {
            x: self.x.mul_spec(other),
            y: self.y.mul_spec(other),
            z: self.z.mul_spec(other),
        }
    }
}

/// The dot product does not depend on the order of its operands, for
/// every scalar type whose multiplication does not.
pub proof fn dot_commutes<T: Mul<Output = T> + Add<Output = T>>(a: Vector3<T>, b: Vector3<T>)
    requires
        forall|p: T, q: T| #[trigger] p.mul_spec(q) == q.mul_spec(p),
    ensures
        a.dot_spec(b) == b.dot_spec(a),
{
}

/// `-(p - q)`, where that difference and its negation are permitted.
pub open spec fn reversed<T: Sub<Output = T> + Neg<Output = T>>(p: T, q: T) -> T {
    p.sub_spec(q).neg_spec()
}

/// Whether `p - q` may be formed and negated.
pub open spec fn reversible<T: Sub<Output = T> + Neg<Output = T>>(p: T, q: T) -> bool {
    p.sub_req(q) && p.sub_spec(q).neg_req()
}

/// Swapping the operands of the cross product negates it, component by
/// component: for every scalar type whose multiplication does not depend
/// on the order of its operands and whose negation reverses a difference,
/// and for all operands whose swapped product may be negated.
pub proof fn cross_anticommutes<T: Mul<Output = T> + Sub<Output = T> + Neg<Output = T> + Copy>(
    a: Vector3<T>,
    b: Vector3<T>,
)
    requires
        forall|p: T, q: T| #[trigger] p.mul_spec(q) == q.mul_spec(p),
        forall|p: T, q: T| #[trigger] reversible(p, q) ==> reversed(p, q) == q.sub_spec(p),
        reversible(b.y.mul_spec(a.z), b.z.mul_spec(a.y)),
        reversible(b.z.mul_spec(a.x), b.x.mul_spec(a.z)),
        reversible(b.x.mul_spec(a.y), b.y.mul_spec(a.x)),
    ensures
        a.cross_spec(b) == (Vector3 {
            x: b.cross_spec(a).x.neg_spec(),
            y: b.cross_spec(a).y.neg_spec(),
            z: b.cross_spec(a).z.neg_spec(),
        }),
{
    assert(reversed(b.y.mul_spec(a.z), b.z.mul_spec(a.y)) == b.z.mul_spec(a.y).sub_spec(
        b.y.mul_spec(a.z),
    ));
    assert(reversed(b.z.mul_spec(a.x), b.x.mul_spec(a.z)) == b.x.mul_spec(a.z).sub_spec(
        b.z.mul_spec(a.x),
    ));
    assert(reversed(b.x.mul_spec(a.y), b.y.mul_spec(a.x)) == b.y.mul_spec(a.x).sub_spec(
        b.x.mul_spec(a.y),
    ));
}

/// The machine integers are such scalars: their multiplication does not
/// depend on the order of its operands, and their negation reverses every
/// difference that fits.
pub proof fn integers_are_commutative()
    ensures
        forall|p: i64, q: i64| #[trigger] p.mul_spec(q) == q.mul_spec(p),
        forall|p: i64, q: i64| #[trigger] reversible(p, q) ==> reversed(p, q) == q.sub_spec(p),
{
    assert forall|p: i64, q: i64| #[trigger] p.mul_spec(q) == q.mul_spec(p) by {
        assert(p * q == q * p) by (nonlinear_arith);
    }
}

} // verus!
