//! From pixels to shades: the grid of an image and what one pixel sees.
use crate::intersectable::{Intersectable, Tolerance};
use crate::ray::Ray;
use crate::scalar::{exact, lit, total, Scalar};
use crate::scene::Scene;
use crate::vector::Vector3;
use vstd::prelude::*;
use vstd::std_specs::ops::MulSpec;

verus! {

/// The window of pixels of an image: the columns `left..right` and the rows
/// `bottom..top`, each without its upper end.
#[derive(Debug, Copy, Clone, PartialEq, Eq, Structural)]
pub struct Viewport {
    pub left: i32,
    pub right: i32,
    pub bottom: i32,
    pub top: i32,
}

impl Viewport {
    /// The number of columns.
    pub open spec fn width(self) -> int {
        if self.left < self.right {
            self.right - self.left
        } else {
            0
        }
    }

    /// The number of rows.
    pub open spec fn height(self) -> int {
        if self.bottom < self.top {
            self.top - self.bottom
        } else {
            0
        }
    }

    /// The pixel at a row and column of the image. The first row is the
    /// topmost, `top - 1`, and the first column the leftmost, `left`.
    pub open spec fn pixel(self, row: int, col: int) -> (i32, i32) {
        ((self.left + col) as i32, (self.top - 1 - row) as i32)
    }

    /// The pixels of the window in the order of the image: row by row from
    /// the top down, and from left to right within a row.
    pub fn pixels(&self) -> (grid: Vec<Vec<(i32, i32)>>)
        ensures
            grid@.len() == self.height(),
            forall|r: int| 0 <= r < grid@.len() ==> (#[trigger] grid@[r])@.len() == self.width(),
            forall|r: int, c: int|
                0 <= r < grid@.len() && 0 <= c < self.width() ==> #[trigger] grid@[r]@[c]
                    == self.pixel(r, c),
    {
        let mut grid: Vec<Vec<(i32, i32)>> = Vec::new();
        let mut y: i32 = self.top;
        while y > self.bottom
            invariant
                self.bottom < self.top ==> self.bottom <= y <= self.top,
                self.bottom >= self.top ==> y == self.top,
                grid@.len() == self.top - y,
                forall|r: int|
                    0 <= r < grid@.len() ==> (#[trigger] grid@[r])@.len() == self.width(),
                forall|r: int, c: int|
                    0 <= r < grid@.len() && 0 <= c < self.width() ==> #[trigger] grid@[r]@[c]
                        == self.pixel(r, c),
            decreases y - self.bottom,
        {
            y -= 1;
            let mut row: Vec<(i32, i32)> = Vec::new();
            let mut x: i32 = self.left;
            while x < self.right
                invariant
                    self.left < self.right ==> self.left <= x <= self.right,
                    self.left >= self.right ==> x == self.left,
                    row@.len() == x - self.left,
                    forall|c: int|
                        0 <= c < row@.len() ==> #[trigger] row@[c] == ((self.left + c) as i32, y),
                decreases self.right - x,
            {
                row.push((x, y));
                x += 1;
            }
            grid.push(row);
        }
        grid
    }
}

/// How a pixel is placed in the world: on the focal plane `z == focal_z`,
/// `scale` world units apart from its neighbours.
#[derive(Copy, Clone)]
pub struct Projection<T> {
    pub scale: T,
    pub focal_z: T,
}

impl<T: Scalar> Projection<T> {
    /// The world point of the pixel `(x, y)`.
    pub open spec fn point(self, x: i32, y: i32) -> Vector3<T> {
        Vector3 {
            x: self.scale.mul_spec(lit::<T>(x)),
            y: self.scale.mul_spec(lit::<T>(y)),
            z: self.focal_z,
        }
    }
}

/// What the pixel `(x, y)` sees, with exact scalars: nothing where its ray
/// misses the geometry, else the normal at the hit times the reversed
/// direction of the ray, times 255.
pub open spec fn shade_spec<T: Scalar, G: Intersectable<T>>(
    scene: &Scene<G, T>,
    x: i32,
    y: i32,
    proj: Projection<T>,
    tol: Tolerance<T>,
) -> Option<T> {
    let ray = scene.shot_spec(proj.point(x, y));
    match scene.obj.hit_spec(ray, tol) {
        Some(hit) => Some(
            hit.normal.dot_spec(ray.direction.scaled(lit::<T>(-1i32))).mul_spec(lit::<T>(255)),
        ),
        None => None,
    }
}

/// Either all arithmetic of `T` is total and the geometry may be tested
/// against any ray, or the arithmetic is exact and the operations of this
/// very pixel are permitted.
pub open spec fn shade_req<T: Scalar, G: Intersectable<T>>(
    scene: &Scene<G, T>,
    x: i32,
    y: i32,
    proj: Projection<T>,
    tol: Tolerance<T>,
) -> bool {
    let ray = scene.shot_spec(proj.point(x, y));
    ||| total::<T>() && forall|any: Ray<T>| #[trigger] scene.obj.hit_req(any, tol)
    ||| {
        &&& exact::<T>()
        &&& proj.scale.mul_req(lit::<T>(x))
        &&& proj.scale.mul_req(lit::<T>(y))
        &&& scene.shot_req(proj.point(x, y))
        &&& scene.obj.hit_req(ray, tol)
        &&& scene.obj.hit_spec(ray, tol) matches Some(hit) ==> {
            let back = ray.direction.scaled(lit::<T>(-1i32));
            &&& ray.direction.scaled_req(lit::<T>(-1i32))
            &&& hit.normal.dot_req(back)
            &&& hit.normal.dot_spec(back).mul_req(lit::<T>(255))
        }
    }
}

/// Casts the ray of the pixel `(x, y)` into the scene and shades what it
/// hits. The shade is a scalar; turning it into a colour channel is left to
/// the caller, as is the colour of a pixel that sees nothing.
pub fn shade<T: Scalar, G: Intersectable<T>>(
    scene: &Scene<G, T>,
    x: i32,
    y: i32,
    proj: Projection<T>,
    tol: Tolerance<T>,
) -> (r: Option<T>)
    requires
        shade_req(scene, x, y, proj, tol),
    ensures
        exact::<T>() ==> r == shade_spec(scene, x, y, proj, tol),
{
    let px = proj.scale * T::from(x);
    let py = proj.scale * T::from(y);
    let point = Vector3::new(px, py, proj.focal_z);

    let ray = scene.shot(point);
    match scene.hit(ray, tol) {
        Some(h) => Some(h.normal.dot(ray.direction * T::from(-1i32)) * T::from(255i32)),
        None => None,
    }
}

} // verus!
