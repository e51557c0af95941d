//! The capability shared by every primitive: to say where a ray meets it.
use crate::ray::{Hit, Ray};
use crate::scalar::{exact, lit, total, Scalar, Sqrt};
use crate::vector::Vector3;
use vstd::prelude::*;
use vstd::std_specs::cmp::PartialOrdIs;
use vstd::std_specs::ops::{AddSpec, MulSpec, SubSpec};

verus! {

/// The two tolerances of the intersection tests.
#[derive(Copy, Clone)]
pub struct Tolerance<T> {
    /// A ray whose determinant against a triangle lies strictly between
    /// `-epsilon` and `epsilon` counts as parallel to it, and a hit must lie
    /// farther than `epsilon` along the ray.
    pub epsilon: T,
    /// How far a hit on a sphere is moved outward along the normal.
    pub bias: T,
}

/// A primitive that a ray can be tested against.
pub trait Intersectable<T: Scalar> {
    /// Every operation of the test is permitted on these operands.
    spec fn hit_req(&self, ray: Ray<T>, tol: Tolerance<T>) -> bool;

    /// The nearest intersection, or none.
    spec fn hit_spec(&self, ray: Ray<T>, tol: Tolerance<T>) -> Option<Hit<T>>;

    /// Tests `ray` against the primitive. With exact scalars the answer is
    /// `hit_spec`.
    fn ray_intersects(&self, ray: Ray<T>, tol: Tolerance<T>) -> (r: Option<Hit<T>>)
        requires
            self.hit_req(ray, tol),
        ensures
            exact::<T>() ==> r == self.hit_spec(ray, tol),
    ;
}

/// A sphere: its centre and its radius.
#[derive(Copy, Clone)]
pub struct Sphere<T> {
    pub origin: Vector3<T>,
    pub radius: T,
}

impl<T: Scalar> Sphere<T> {
    /// From the ray's origin to the sphere's centre.
    pub open spec fn sray(self, ray: Ray<T>) -> Vector3<T> {
        self.origin.minus(ray.origin)
    }

    /// How far along the ray the centre lies: `direction . sray`.
    pub open spec fn along(self, ray: Ray<T>) -> T {
        ray.direction.dot_spec(self.sray(ray))
    }

    /// `(direction . sray)^2 - |sray|^2 + radius^2`.
    pub open spec fn discriminant(self, ray: Ray<T>) -> T {
        let b = self.along(ray);
        let l = self.sray(ray).len_spec();
        b.mul_spec(b).sub_spec(l.mul_spec(l)).add_spec(self.radius.mul_spec(self.radius))
    }

    /// The nearer root, where the ray enters the sphere.
    pub open spec fn near_root(self, ray: Ray<T>) -> T {
        self.along(ray).sub_spec(self.discriminant(ray).sqrt_spec())
    }

    /// The farther root, where the ray leaves the sphere.
    pub open spec fn far_root(self, ray: Ray<T>) -> T {
        self.along(ray).add_spec(self.discriminant(ray).sqrt_spec())
    }

    /// The nearer root if it is not negative, else the farther one: a ray
    /// that starts inside the sphere hits it where it leaves.
    pub open spec fn root(self, ray: Ray<T>) -> T {
        if self.near_root(ray).is_ge(&lit::<T>(0)) {
            self.near_root(ray)
        } else {
            self.far_root(ray)
        }
    }

    /// The ray meets the sphere in front of its origin.
    pub open spec fn meets(self, ray: Ray<T>) -> bool {
        self.discriminant(ray).is_ge(&lit::<T>(0)) && self.far_root(ray).is_gt(&lit::<T>(0))
    }

    /// Where the ray meets the surface.
    pub open spec fn surface_point(self, ray: Ray<T>) -> Vector3<T> {
        ray.origin.plus(ray.direction.scaled(self.root(ray)))
    }

    /// The outward normal there: from the centre to the surface point, at
    /// unit length.
    pub open spec fn normal_at(self, ray: Ray<T>) -> Vector3<T> {
        self.surface_point(ray).minus(self.origin).norm_spec()
    }

    /// The operations of the test are permitted, as far as the test goes.
    pub open spec fn hit_defined(self, ray: Ray<T>, tol: Tolerance<T>) -> bool {
        let b = self.along(ray);
        let l = self.sray(ray).len_spec();
        let root = self.discriminant(ray).sqrt_spec();
        let p = self.surface_point(ray);
        let n = self.normal_at(ray);
        &&& self.origin.minus_req(ray.origin)
        &&& ray.direction.dot_req(self.sray(ray))
        &&& self.sray(ray).dot_req(self.sray(ray))
        &&& b.mul_req(b)
        &&& l.mul_req(l)
        &&& self.radius.mul_req(self.radius)
        &&& b.mul_spec(b).sub_req(l.mul_spec(l))
        &&& b.mul_spec(b).sub_spec(l.mul_spec(l)).add_req(self.radius.mul_spec(self.radius))
        &&& self.discriminant(ray).is_ge(&lit::<T>(0)) ==> {
            &&& b.sub_req(root)
            &&& b.add_req(root)
            &&& self.far_root(ray).is_gt(&lit::<T>(0)) ==> {
                &&& ray.direction.scaled_req(self.root(ray))
                &&& ray.origin.plus_req(ray.direction.scaled(self.root(ray)))
                &&& p.minus_req(self.origin)
                &&& p.minus(self.origin).norm_req()
                &&& n.scaled_req(tol.bias)
                &&& p.plus_req(n.scaled(tol.bias))
            }
        }
    }
}

impl<T: Scalar> Intersectable<T> for Sphere<T> {
    /// Either all arithmetic of `T` is total, or it is exact and the
    /// operations of this very test are permitted.
    open spec fn hit_req(&self, ray: Ray<T>, tol: Tolerance<T>) -> bool {
        total::<T>() || (exact::<T>() && self.hit_defined(ray, tol))
    }

    /// A hit where the ray meets the sphere in front of its origin. The
    /// normal is taken at the surface point; the hit's point is the surface
    /// point moved outward by `bias` along that normal.
    open spec fn hit_spec(&self, ray: Ray<T>, tol: Tolerance<T>) -> Option<Hit<T>> {
        if self.meets(ray) {
            Some(
                Hit {
                    point: self.surface_point(ray).plus(self.normal_at(ray).scaled(tol.bias)),
                    normal: self.normal_at(ray),
                },
            )
        } else {
            None
        }
    }

    fn ray_intersects(&self, ray: Ray<T>, tol: Tolerance<T>) -> (r: Option<Hit<T>>) {
        let zero = T::from(0i32);
        let sray = self.origin - ray.origin;
        let b = ray.direction.dot(sray);
        let l = sray.len();
        let det = b * b - l * l + self.radius * self.radius;

        if det >= zero {
            let root = det.sqrt();
            let t1 = b - root;
            let t2 = b + root;

            if t2 > zero {
                let t = if t1 >= zero {
                    t1
                } else {
                    t2
                };

                let point = ray.origin + ray.direction * t;
                let normal = (point - self.origin).norm();

                return Some(Hit { point: point + normal * tol.bias, normal: normal });
            }
        }
        None
    }
}

} // verus!
