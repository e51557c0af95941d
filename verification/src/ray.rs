//! Rays and what they hit.
use crate::vector::Vector3;
use vstd::prelude::*;

verus! {

/// A half-line: where it starts and which way it goes. A ray made by
/// `Scene::shot` has a direction of unit length; one written by hand has the
/// direction its author gave it.
#[derive(Copy, Clone)]
pub struct Ray<T> {
    pub origin: Vector3<T>,
    pub direction: Vector3<T>,
}

/// Where a ray meets a surface, and the surface's normal there.
pub struct Hit<T> {
    pub point: Vector3<T>,
    pub normal: Vector3<T>,
}

} // verus!
