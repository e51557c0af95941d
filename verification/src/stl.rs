//! Triangles and meshes of triangles.
use crate::intersectable::{Intersectable, Tolerance};
use crate::ray::{Hit, Ray};
use crate::scalar::{exact, lit, total, Scalar};
use crate::vector::Vector3;
use byteorder::{ByteOrder, LittleEndian};
use std::ops::Neg;
use vstd::prelude::*;
use vstd::slice::slice_subrange;
use vstd::std_specs::cmp::PartialOrdIs;
use vstd::std_specs::ops::{AddSpec, DivSpec, MulSpec, NegSpec, SubSpec};

verus! {

/// A triangle as a mesh stores it: three corners and a normal. The normal is
/// taken as given, never recomputed from the corners.
pub struct Triangle<T> {
    pub normal: Vector3<T>,
    pub points: [Vector3<T>; 3],
}

/// What the Moeller-Trumbore test computes for a triangle and a ray.
pub struct Barycentric<T> {
    /// The determinant: zero when the ray is parallel to the triangle.
    pub a: T,
    /// The weight of the second corner.
    pub u: T,
    /// The weight of the third corner.
    pub v: T,
    /// The distance along the ray, in units of its direction.
    pub t: T,
}

impl<T: Scalar> Triangle<T> {
    pub open spec fn edge1(self) -> Vector3<T> {
        self.points[1].minus(self.points[0])
    }

    pub open spec fn edge2(self) -> Vector3<T> {
        self.points[2].minus(self.points[0])
    }

    /// The solution of `origin + t * direction == points[0] + u * edge1 + v * edge2`
    /// by Cramer's rule, with `f = 1 / a`.
    pub open spec fn solve(self, ray: Ray<T>) -> Barycentric<T> {
        let h = ray.direction.cross_spec(self.edge2());
        let a = self.edge1().dot_spec(h);
        let f = lit::<T>(1).div_spec(a);
        let s = ray.origin.minus(self.points[0]);
        let q = s.cross_spec(self.edge1());
        Barycentric {
            a,
            u: f.mul_spec(s.dot_spec(h)),
            v: f.mul_spec(ray.direction.dot_spec(q)),
            t: f.mul_spec(self.edge2().dot_spec(q)),
        }
    }

    /// The ray runs parallel to the triangle's plane.
    pub open spec fn parallel(self, ray: Ray<T>, tol: Tolerance<T>) -> bool {
        let a = self.solve(ray).a;
        a.is_gt(&tol.epsilon.neg_spec()) && a.is_lt(&tol.epsilon)
    }

    /// The ray's line meets the plane inside the triangle.
    pub open spec fn inside(self, ray: Ray<T>) -> bool {
        let b = self.solve(ray);
        &&& !b.u.is_lt(&lit::<T>(0))
        &&& !b.u.is_gt(&lit::<T>(1))
        &&& !b.v.is_lt(&lit::<T>(0))
        &&& !b.u.add_spec(b.v).is_gt(&lit::<T>(1))
    }

    /// The operations of the test are permitted, as far as the test goes.
    pub open spec fn hit_defined(self, ray: Ray<T>, tol: Tolerance<T>) -> bool {
        let h = ray.direction.cross_spec(self.edge2());
        let s = ray.origin.minus(self.points[0]);
        let q = s.cross_spec(self.edge1());
        let f = lit::<T>(1).div_spec(self.solve(ray).a);
        let b = self.solve(ray);
        &&& self.points[1].minus_req(self.points[0])
        &&& self.points[2].minus_req(self.points[0])
        &&& ray.direction.cross_req(self.edge2())
        &&& self.edge1().dot_req(h)
        &&& tol.epsilon.neg_req()
        &&& !self.parallel(ray, tol) ==> {
            &&& lit::<T>(1).div_req(b.a)
            &&& ray.origin.minus_req(self.points[0])
            &&& s.dot_req(h)
            &&& f.mul_req(s.dot_spec(h))
            &&& !b.u.is_lt(&lit::<T>(0)) && !b.u.is_gt(&lit::<T>(1)) ==> {
                &&& s.cross_req(self.edge1())
                &&& ray.direction.dot_req(q)
                &&& f.mul_req(ray.direction.dot_spec(q))
                &&& !b.v.is_lt(&lit::<T>(0)) ==> b.u.add_req(b.v)
                &&& self.inside(ray) ==> {
                    &&& self.edge2().dot_req(q)
                    &&& f.mul_req(self.edge2().dot_spec(q))
                    &&& b.t.is_gt(&tol.epsilon) ==> {
                        &&& ray.direction.scaled_req(b.t)
                        &&& ray.origin.plus_req(ray.direction.scaled(b.t))
                    }
                }
            }
        }
    }
}

impl<T: Scalar> Triangle<T> {
    /// Either all arithmetic of `T` is total, or it is exact and the
    /// operations of this very test are permitted.
    pub open spec fn hit_allowed(self, ray: Ray<T>, tol: Tolerance<T>) -> bool {
        total::<T>() || (exact::<T>() && self.hit_defined(ray, tol))
    }

    /// A hit where the ray is not parallel to the triangle, meets its plane
    /// inside the triangle, and does so farther than `epsilon` along the
    /// ray. The hit's normal is the stored one, and its point is not moved.
    pub open spec fn hit(self, ray: Ray<T>, tol: Tolerance<T>) -> Option<Hit<T>> {
        let t = self.solve(ray).t;
        if !self.parallel(ray, tol) && self.inside(ray) && t.is_gt(&tol.epsilon) {
            Some(Hit { point: ray.origin.plus(ray.direction.scaled(t)), normal: self.normal })
        } else {
            None
        }
    }

    /// The Moeller-Trumbore test of `ray` against this triangle.
    pub fn moller_trumbore(&self, ray: Ray<T>, tol: Tolerance<T>) -> (r: Option<Hit<T>>)
        requires
            self.hit_allowed(ray, tol),
        ensures
            exact::<T>() ==> r == self.hit(ray, tol),
            r matches Some(hit) ==> hit.normal == self.normal,
    {
        let zero = T::from(0i32);
        let one = T::from(1i32);

        let vertex0 = self.points[0];
        let vertex1 = self.points[1];
        let vertex2 = self.points[2];

        let edge1 = vertex1 - vertex0;
        let edge2 = vertex2 - vertex0;

        let h = ray.direction.cross_prod(edge2);
        let a = edge1.dot(h);

        if a > tol.epsilon.neg() && a < tol.epsilon {
            return None;
        }
        let f = one / a;
        let s = ray.origin - vertex0;
        let u = f * s.dot(h);

        if u < zero || u > one {
            return None;
        }
        let q = s.cross_prod(edge1);
        let v = f * ray.direction.dot(q);

        if v < zero || u + v > one {
            return None;
        }
        let t = f * edge2.dot(q);

        if t > tol.epsilon {
            return Some(Hit { point: ray.origin + ray.direction * t, normal: self.normal });
        }
        None
    }
}

/// A triangle is hit exactly where the ray is not parallel to it, meets its
/// plane inside it and does so farther than `epsilon` along the ray: both
/// weights are then not below zero and their sum is not above one. A ray
/// that meets the plane outside the triangle hits nothing.
pub proof fn hit_lies_inside<T: Scalar>(tri: Triangle<T>, ray: Ray<T>, tol: Tolerance<T>)
    ensures
        tri.hit(ray, tol) is Some <==> !tri.parallel(ray, tol) && tri.inside(ray) && tri.solve(
            ray,
        ).t.is_gt(&tol.epsilon),
        tri.hit(ray, tol) is Some ==> {
            let b = tri.solve(ray);
            &&& !b.u.is_lt(&lit::<T>(0))
            &&& !b.v.is_lt(&lit::<T>(0))
            &&& !b.u.add_spec(b.v).is_gt(&lit::<T>(1))
        },
        !tri.inside(ray) ==> tri.hit(ray, tol) is None,
{
}

impl<T: Scalar> Intersectable<T> for Triangle<T> {
    open spec fn hit_req(&self, ray: Ray<T>, tol: Tolerance<T>) -> bool {
        self.hit_allowed(ray, tol)
    }

    open spec fn hit_spec(&self, ray: Ray<T>, tol: Tolerance<T>) -> Option<Hit<T>> {
        self.hit(ray, tol)
    }

    fn ray_intersects(&self, ray: Ray<T>, tol: Tolerance<T>) -> (r: Option<Hit<T>>) {
        self.moller_trumbore(ray, tol)
    }
}

/// How far a hit lies from the ray's origin.
pub open spec fn distance<T: Scalar>(ray: Ray<T>, hit: Hit<T>) -> T {
    hit.point.minus(ray.origin).len_spec()
}

/// That distance may be computed.
pub open spec fn distance_req<T: Scalar>(ray: Ray<T>, hit: Hit<T>) -> bool {
    let d = hit.point.minus(ray.origin);
    hit.point.minus_req(ray.origin) && d.dot_req(d)
}

/// The nearest hit among the first `n` triangles, taken in order: a later
/// hit replaces an earlier one only where it is strictly nearer, so of two
/// hits at one distance the first stays.
pub open spec fn nearest<T: Scalar>(
    mesh: Seq<Triangle<T>>,
    ray: Ray<T>,
    tol: Tolerance<T>,
    n: nat,
) -> Option<Hit<T>>
    decreases n,
{
    if n == 0 {
        None
    } else {
        let best = nearest(mesh, ray, tol, (n - 1) as nat);
        match (mesh[n - 1].hit(ray, tol), best) {
            (None, _) => best,
            (Some(hit), None) => Some(hit),
            (Some(hit), Some(b)) => if distance(ray, hit).is_lt(&distance(ray, b)) {
                Some(hit)
            } else {
                best
            },
        }
    }
}

/// Every triangle may be tested, and the distance of every hit computed.
pub open spec fn mesh_defined<T: Scalar>(
    mesh: Seq<Triangle<T>>,
    ray: Ray<T>,
    tol: Tolerance<T>,
) -> bool {
    forall|i: int|
        0 <= i < mesh.len() ==> {
            &&& (#[trigger] mesh[i]).hit_defined(ray, tol)
            &&& mesh[i].hit(ray, tol) matches Some(hit) ==> distance_req(ray, hit)
        }
}

/// Of two triangles that the ray both hits, the second is returned only
/// where its hit is strictly nearer: at equal distance the first, the one
/// that comes first in the mesh, stays.
pub proof fn nearer_of_two<T: Scalar>(mesh: Seq<Triangle<T>>, ray: Ray<T>, tol: Tolerance<T>)
    requires
        mesh.len() == 2,
        mesh[0].hit(ray, tol) is Some,
        mesh[1].hit(ray, tol) is Some,
    ensures
        nearest(mesh, ray, tol, 2) == if distance(ray, mesh[1].hit(ray, tol).unwrap()).is_lt(
            &distance(ray, mesh[0].hit(ray, tol).unwrap()),
        ) {
            mesh[1].hit(ray, tol)
        } else {
            mesh[0].hit(ray, tol)
        },
{
    reveal_with_fuel(nearest, 3);
}

/// The scan returns none exactly where the ray misses every triangle, and
/// what it returns is the hit of one of the triangles.
pub proof fn nearest_is_a_hit<T: Scalar>(
    mesh: Seq<Triangle<T>>,
    ray: Ray<T>,
    tol: Tolerance<T>,
    n: nat,
)
    requires
        n <= mesh.len(),
    ensures
        nearest(mesh, ray, tol, n) is None <==> forall|i: int|
            0 <= i < n ==> (#[trigger] mesh[i]).hit(ray, tol) is None,
        nearest(mesh, ray, tol, n) is Some ==> exists|i: int|
            0 <= i < n && (#[trigger] mesh[i]).hit(ray, tol) == nearest(mesh, ray, tol, n),
    decreases n,
{
    if n > 0 {
        nearest_is_a_hit(mesh, ray, tol, (n - 1) as nat);
        let best = nearest(mesh, ray, tol, (n - 1) as nat);
        if nearest(mesh, ray, tol, n) is Some {
            if nearest(mesh, ray, tol, n) == mesh[n - 1].hit(ray, tol) {
                assert(mesh[n - 1].hit(ray, tol) == nearest(mesh, ray, tol, n));
            } else {
                let i = choose|i: int|
                    0 <= i < n - 1 && (#[trigger] mesh[i]).hit(ray, tol) == best;
                assert(mesh[i].hit(ray, tol) == nearest(mesh, ray, tol, n));
            }
        }
    }
}

/// `a` is strictly less than `b`.
pub open spec fn less<T: PartialOrd>(a: T, b: T) -> bool {
    a.is_lt(&b)
}

/// No triangle is hit strictly nearer than what the scan returns, for every
/// scalar type whose strict order is one: nothing is less than itself, and
/// what is less than something less than a third is less than the third.
pub proof fn nearest_is_nearest<T: Scalar>(
    mesh: Seq<Triangle<T>>,
    ray: Ray<T>,
    tol: Tolerance<T>,
    n: nat,
    i: int,
)
    requires
        n <= mesh.len(),
        0 <= i < n,
        mesh[i].hit(ray, tol) is Some,
        forall|a: T| !#[trigger] less(a, a),
        forall|a: T, b: T, c: T| #[trigger] less(a, b) && #[trigger] less(b, c) ==> less(a, c),
    ensures
        nearest(mesh, ray, tol, n) is Some,
        !less(
            distance(ray, mesh[i].hit(ray, tol).unwrap()),
            distance(ray, nearest(mesh, ray, tol, n).unwrap()),
        ),
    decreases n,
{
    let own = distance(ray, mesh[i].hit(ray, tol).unwrap());
    if i < n - 1 {
        nearest_is_nearest(mesh, ray, tol, (n - 1) as nat, i);
        let before = distance(ray, nearest(mesh, ray, tol, (n - 1) as nat).unwrap());
        if mesh[n - 1].hit(ray, tol) is Some {
            let last = distance(ray, mesh[n - 1].hit(ray, tol).unwrap());
            if less(last, before) && less(own, last) {
                assert(less(own, before));
            }
        }
    } else {
        assert(!less(own, own));
    }
}

impl<T: Scalar> Intersectable<T> for Vec<Triangle<T>> {
    /// Either all arithmetic of `T` is total, or it is exact and the
    /// operations of this very scan are permitted.
    open spec fn hit_req(&self, ray: Ray<T>, tol: Tolerance<T>) -> bool {
        total::<T>() || (exact::<T>() && mesh_defined(self@, ray, tol))
    }

    /// The nearest hit among all the triangles, or none where the ray
    /// misses every one of them.
    open spec fn hit_spec(&self, ray: Ray<T>, tol: Tolerance<T>) -> Option<Hit<T>> {
        nearest(self@, ray, tol, self@.len())
    }

    fn ray_intersects(&self, ray: Ray<T>, tol: Tolerance<T>) -> (r: Option<Hit<T>>)
        ensures
            r matches Some(hit) ==> exists|k: int|
                0 <= k < self@.len() && hit.normal == (#[trigger] self@[k]).normal,
    {
        let mut best: Option<Hit<T>> = None;
        let mut i: usize = 0;
        while i < self.len()
            invariant
                i <= self.len(),
                self.hit_req(ray, tol),
                exact::<T>() ==> best == nearest(self@, ray, tol, i as nat),
                exact::<T>() ==> (best matches Some(b) ==> distance_req(ray, b)),
                best matches Some(b) ==> exists|k: int|
                    0 <= k < i && b.normal == (#[trigger] self@[k]).normal,
            decreases self.len() - i,
        {
            let triangle = &self[i];
            if let Some(hit) = triangle.moller_trumbore(ray, tol) {
                let nearer = match &best {
                    None => true,
                    Some(b) => (hit.point - ray.origin).len() < (b.point - ray.origin).len(),
                };
                if nearer {
                    best = Some(Hit { point: hit.point, normal: triangle.normal });
                    assert(self@[i as int].normal == triangle.normal);
                }
            }
            i += 1;
        }
        best
    }
}

/// Why a byte stream is not a mesh.
#[derive(Debug, Copy, Clone, PartialEq, Eq, Structural)]
pub enum DecodeError {
    /// The stream ends before the header, the count or a declared record is
    /// complete.
    TruncatedInput,
}

/// The bytes of the header, which is skipped.
pub const HEADER_LEN: usize = 80;

/// The bytes of the header and the count together.
pub const PREAMBLE_LEN: usize = 84;

/// The bytes of one record: a normal, three corners and a two-byte
/// attribute, which is skipped.
pub const RECORD_LEN: usize = 50;

/// The number that the first four bytes of `b` hold, least significant
/// byte first.
pub open spec fn le_u32(b: Seq<u8>) -> u32
    recommends
        b.len() >= 4,
{
    (b[0] as int + b[1] as int * 0x100 + b[2] as int * 0x1_0000 + b[3] as int * 0x100_0000) as u32
}

/// The three numbers stored from offset `at` on. Each is the bit pattern of
/// a 32-bit IEEE-754 number.
pub open spec fn vec3_at(bytes: Seq<u8>, at: int) -> Vector3<u32> {
    Vector3 {
        x: le_u32(bytes.subrange(at, at + 4)),
        y: le_u32(bytes.subrange(at + 4, at + 8)),
        z: le_u32(bytes.subrange(at + 8, at + 12)),
    }
}

/// How many records the stream declares.
pub open spec fn declared_count(bytes: Seq<u8>) -> int
    recommends
        bytes.len() >= PREAMBLE_LEN,
{
    le_u32(bytes.subrange(HEADER_LEN as int, PREAMBLE_LEN as int)) as int
}

/// The stream holds its header, its count and every record it declares.
/// What follows the last record is of no account.
pub open spec fn well_formed(bytes: Seq<u8>) -> bool {
    &&& bytes.len() >= PREAMBLE_LEN
    &&& bytes.len() >= PREAMBLE_LEN + RECORD_LEN * declared_count(bytes)
}

/// `t` is the record of index `i` of the stream.
pub open spec fn is_record(t: Triangle<u32>, bytes: Seq<u8>, i: int) -> bool {
    let at = PREAMBLE_LEN + RECORD_LEN * i;
    &&& t.normal == vec3_at(bytes, at)
    &&& t.points[0] == vec3_at(bytes, at + 12)
    &&& t.points[1] == vec3_at(bytes, at + 24)
    &&& t.points[2] == vec3_at(bytes, at + 36)
}

/// `byteorder::LittleEndian::read_u32`: the first four bytes of `buf` as a
/// little-endian number. It panics on a shorter slice, which `requires`
/// leaves out.
#[verifier::external_body]
fn read_u32_le(buf: &[u8]) -> (r: u32)
    requires
        buf@.len() >= 4,
    ensures
        r == le_u32(buf@),
{
    LittleEndian::read_u32(buf)
}

/// Reads the three numbers stored at offset `at`, as bit patterns, or fails
/// where fewer than twelve bytes are left there.
pub fn read_vec3(bytes: &[u8], at: usize) -> (r: Result<Vector3<u32>, DecodeError>)
    ensures
        at + 12 <= bytes@.len() ==> r == Ok::<Vector3<u32>, DecodeError>(
            vec3_at(bytes@, at as int),
        ),
        at + 12 > bytes@.len() ==> r == Err::<Vector3<u32>, DecodeError>(
            DecodeError::TruncatedInput,
        ),
{
    if bytes.len() < 12 || at > bytes.len() - 12 {
        return Err(DecodeError::TruncatedInput);
    }
    let x = read_u32_le(slice_subrange(bytes, at, at + 4));
    let y = read_u32_le(slice_subrange(bytes, at + 4, at + 8));
    let z = read_u32_le(slice_subrange(bytes, at + 8, at + 12));
    Ok(Vector3::new(x, y, z))
}

/// Decodes a binary STL stream: an 80-byte header, a little-endian count,
/// and that many records, which come out in the order of the stream. The
/// numbers of a record come out as the bit patterns that the stream holds.
/// The count is not believed beforehand: the records are read one by one,
/// and the first that is cut short ends the decoding.
pub fn read_stl(bytes: &[u8]) -> (r: Result<Vec<Triangle<u32>>, DecodeError>)
    ensures
        well_formed(bytes@) ==> {
            &&& r matches Ok(mesh)
            &&& mesh@.len() == declared_count(bytes@)
            &&& forall|i: int| 0 <= i < mesh@.len() ==> is_record(#[trigger] mesh@[i], bytes@, i)
        },
        !well_formed(bytes@) ==> r matches Err(DecodeError::TruncatedInput),
{
    if bytes.len() < PREAMBLE_LEN {
        return Err(DecodeError::TruncatedInput);
    }
    let count = read_u32_le(slice_subrange(bytes, HEADER_LEN, PREAMBLE_LEN));
    let n: usize = count as usize;

    let mut mesh: Vec<Triangle<u32>> = Vec::new();
    let mut at: usize = PREAMBLE_LEN;
    let mut i: usize = 0;
    while i < n
        invariant
            i <= n,
            n == declared_count(bytes@),
            at == PREAMBLE_LEN + RECORD_LEN * i,
            at <= bytes@.len() <= usize::MAX,
            mesh@.len() == i,
            forall|k: int| 0 <= k < i ==> is_record(#[trigger] mesh@[k], bytes@, k),
        decreases n - i,
    {
        let normal = match read_vec3(bytes, at) {
            Ok(v) => v,
            Err(e) => {
                return Err(e);
            },
        };
        let corner0 = match read_vec3(bytes, at + 12) {
            Ok(v) => v,
            Err(e) => {
                return Err(e);
            },
        };
        let corner1 = match read_vec3(bytes, at + 24) {
            Ok(v) => v,
            Err(e) => {
                return Err(e);
            },
        };
        let corner2 = match read_vec3(bytes, at + 36) {
            Ok(v) => v,
            Err(e) => {
                return Err(e);
            },
        };
        if bytes.len() - (at + 48) < 2 {
            return Err(DecodeError::TruncatedInput);
        }
        mesh.push(Triangle { normal: normal, points: [corner0, corner1, corner2] });
        at += RECORD_LEN;
        i += 1;
    }
    Ok(mesh)
}

/// A stream cut short anywhere before the end of its last declared record
/// is no longer well formed, so `read_stl` answers `TruncatedInput`.
pub proof fn truncated_stream_is_rejected(bytes: Seq<u8>, cut: int)
    requires
        well_formed(bytes),
        0 <= cut < PREAMBLE_LEN + RECORD_LEN * declared_count(bytes),
    ensures
        !well_formed(bytes.subrange(0, cut)),
{
    if cut >= PREAMBLE_LEN {
        assert(bytes.subrange(0, cut).subrange(HEADER_LEN as int, PREAMBLE_LEN as int)
            =~= bytes.subrange(HEADER_LEN as int, PREAMBLE_LEN as int));
    }
}

} // verus!
