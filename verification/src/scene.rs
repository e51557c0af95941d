//! A scene: one geometry and the camera that looks at it.
use crate::intersectable::{Intersectable, Tolerance};
use crate::ray::{Hit, Ray};
use crate::scalar::{exact, lit, lit_exact, total, Scalar};
use crate::vector::Vector3;
use vstd::prelude::*;

verus! {

/// A geometry, owned by the scene, and the position of the camera.
pub struct Scene<G, T> {
    pub obj: G,
    pub camera: Vector3<T>,
}

impl<T: Scalar, G: Intersectable<T>> Scene<G, T> {
    /// Where `ray` meets the scene's geometry: the geometry's own answer.
    pub fn hit(&self, ray: Ray<T>, tol: Tolerance<T>) -> (r: Option<Hit<T>>)
        requires
            self.obj.hit_req(ray, tol),
        ensures
            exact::<T>() ==> r == self.obj.hit_spec(ray, tol),
    {
        self.obj.ray_intersects(ray, tol)
    }

    /// The ray from the camera through `target`, its direction at unit
    /// length.
    pub open spec fn shot_spec(&self, target: Vector3<T>) -> Ray<T> {
        Ray { origin: self.camera, direction: target.minus(self.camera).norm_spec() }
    }

    /// Either all arithmetic of `T` is total, or it is exact, `target` may
    /// be reached from the camera and the way there normalised.
    pub open spec fn shot_req(&self, target: Vector3<T>) -> bool {
        total::<T>() || {
            &&& exact::<T>()
            &&& target.minus_req(self.camera)
            &&& target.minus(self.camera).norm_req()
        }
    }

    /// Builds the ray from the camera through `target`.
    pub fn shot(&self, target: Vector3<T>) -> (r: Ray<T>)
        requires
            self.shot_req(target),
        ensures
            r.origin == self.camera,
            exact::<T>() ==> r == self.shot_spec(target),
    {
        Ray { origin: self.camera, direction: (target - self.camera).norm() }
    }

    /// A scene of `o` with the camera at `(0, 0, -50)`.
    pub fn from_obj(o: G) -> (s: Self)
        ensures
            s.obj == o,
            lit_exact::<T>() ==> s.camera == (Vector3 {
                x: lit::<T>(0),
                y: lit::<T>(0),
                z: lit::<T>(-50i32),
            }),
    {
        Self { obj: o, camera: Vector3::new(T::from(0i32), T::from(0i32), T::from(-50i32)) }
    }
}

} // verus!
