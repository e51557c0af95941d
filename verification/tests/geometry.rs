// The geometry with 64-bit floating point scalars.
use renderstl::intersectable::{Intersectable, Sphere, Tolerance};
use renderstl::ray::Ray;
use renderstl::render::{shade, Projection, Viewport};
use renderstl::scalar::Sqrt;
use renderstl::scene::Scene;
use renderstl::stl::Triangle;
use renderstl::vector::Vector3;
use std::ops::{Add, Div, Mul, Neg, Sub};

#[derive(Debug, Clone, Copy, PartialEq, PartialOrd)]
struct Real(f64);

impl Add for Real {
    type Output = Real;

    fn add(self, other: Real) -> Real {
        Real(self.0 + other.0)
    }
}

impl Sub for Real {
    type Output = Real;

    fn sub(self, other: Real) -> Real {
        Real(self.0 - other.0)
    }
}

impl Mul for Real {
    type Output = Real;

    fn mul(self, other: Real) -> Real {
        Real(self.0 * other.0)
    }
}

impl Div for Real {
    type Output = Real;

    fn div(self, other: Real) -> Real {
        Real(self.0 / other.0)
    }
}

impl Neg for Real {
    type Output = Real;

    fn neg(self) -> Real {
        Real(-self.0)
    }
}

impl From<i32> for Real {
    fn from(n: i32) -> Real {
        Real(f64::from(n))
    }
}

impl Sqrt for Real {
    fn sqrt(self) -> Real {
        Real(self.0.sqrt())
    }
}

fn v(x: f64, y: f64, z: f64) -> Vector3<Real> {
    Vector3::new(Real(x), Real(y), Real(z))
}

fn tol() -> Tolerance<Real> {
    Tolerance { epsilon: Real(0.0000001), bias: Real(0.001) }
}

fn close(a: Real, b: f64) -> bool {
    (a.0 - b).abs() < 1e-9
}

fn close_vec(a: Vector3<Real>, x: f64, y: f64, z: f64) -> bool {
    close(a.x, x) && close(a.y, y) && close(a.z, z)
}

// The triangle (0,0,z), (1,0,z), (0,1,z) with the given normal.
fn flat_triangle(z: f64, normal: Vector3<Real>) -> Triangle<Real> {
    Triangle { normal, points: [v(0.0, 0.0, z), v(1.0, 0.0, z), v(0.0, 1.0, z)] }
}

#[test]
fn len_of_three_four_twelve_is_thirteen() {
    assert_eq!(v(3.0, 4.0, 12.0).len(), Real(13.0));
    assert_eq!(v(0.0, 0.0, 0.0).len(), Real(0.0));
}

#[test]
fn norm_divides_by_the_length() {
    let n = v(3.0, 0.0, 4.0).norm();
    assert_eq!(n.x, Real(3.0 / 5.0));
    assert_eq!(n.y, Real(0.0));
    assert_eq!(n.z, Real(4.0 / 5.0));
}

#[test]
fn norm_has_unit_length() {
    let vectors = [
        v(1.0, 2.0, 3.0),
        v(-7.5, 0.25, 1e-3),
        v(1e6, -1e6, 1e6),
        v(0.0, 0.0, -2.0),
        v(1e-8, 0.0, 0.0),
    ];
    for vector in vectors {
        assert!(vector.len() > Real(0.0));
        assert!((vector.norm().len().0 - 1.0).abs() < 1e-12);
    }
}

#[test]
fn norm_of_the_zero_vector_is_not_a_number() {
    let n = v(0.0, 0.0, 0.0).norm();
    assert!(n.x.0.is_nan() && n.y.0.is_nan() && n.z.0.is_nan());
}

#[test]
fn dot_and_cross_of_reals() {
    let a = v(1.5, -2.0, 0.5);
    let b = v(4.0, 0.25, -8.0);
    assert_eq!(a.dot(b), Real(1.5 * 4.0 + -2.0 * 0.25 + 0.5 * -8.0));
    assert_eq!(a.dot(b), b.dot(a));
    let c = a.cross_prod(b);
    let d = b.cross_prod(a);
    assert_eq!(c.x, Real(-2.0 * -8.0 - 0.5 * 0.25));
    assert_eq!(c.y, Real(0.5 * 4.0 - 1.5 * -8.0));
    assert_eq!(c.z, Real(1.5 * 0.25 - -2.0 * 4.0));
    assert_eq!((c.x, c.y, c.z), (-d.x, -d.y, -d.z));
}

#[test]
fn vector_and_scalar_arithmetic_of_reals() {
    let a = v(1.0, 2.0, 3.0);
    let b = v(0.5, 4.0, -6.0);
    assert!(close_vec(a + b, 1.5, 6.0, -3.0));
    assert!(close_vec(a - b, 0.5, -2.0, 9.0));
    assert!(close_vec(a * b, 0.5, 8.0, -18.0));
    assert!(close_vec(a / b, 2.0, 0.5, -0.5));
    assert!(close_vec(a + Real(1.0), 2.0, 3.0, 4.0));
    assert!(close_vec(a - Real(1.0), 0.0, 1.0, 2.0));
    assert!(close_vec(a * Real(-2.0), -2.0, -4.0, -6.0));
    assert!(close_vec(a / Real(2.0), 0.5, 1.0, 1.5));
}

#[test]
fn ray_at_the_centre_of_a_sphere_hits_its_surface() {
    let sphere = Sphere { origin: v(1.0, 2.0, 3.0), radius: Real(2.0) };
    let origin = v(1.0, 2.0, -7.0);
    let ray = Ray { origin, direction: (sphere.origin - origin).norm() };
    let hit = sphere.ray_intersects(ray, tol()).unwrap();
    // the surface point is (1, 2, 1); the hit lies 0.001 outside it
    assert!(close_vec(hit.normal, 0.0, 0.0, -1.0));
    assert!(close_vec(hit.point, 1.0, 2.0, 1.0 - 0.001));
    let out = hit.point - sphere.origin;
    assert!(close(out.len(), 2.0 + 0.001));
    // the normal is parallel to the way from the centre to the hit
    let across = hit.normal.cross_prod(out);
    assert!(close_vec(across, 0.0, 0.0, 0.0));
    assert!(hit.normal.dot(out) > Real(0.0));
}

#[test]
fn ray_at_the_centre_from_a_slant() {
    let sphere = Sphere { origin: v(0.0, 0.0, 0.0), radius: Real(1.0) };
    let origin = v(3.0, 4.0, 12.0);
    let ray = Ray { origin, direction: (sphere.origin - origin).norm() };
    let hit = sphere.ray_intersects(ray, tol()).unwrap();
    assert!(close(hit.normal.len(), 1.0));
    assert!(close((hit.point - sphere.origin).len(), 1.001));
    assert!(close_vec(hit.normal, 3.0 / 13.0, 4.0 / 13.0, 12.0 / 13.0));
}

#[test]
fn ray_away_from_a_sphere_misses_it() {
    let sphere = Sphere { origin: v(0.0, 0.0, 0.0), radius: Real(1.0) };
    let origin = v(0.0, 0.0, -5.0);
    let ray = Ray { origin, direction: v(0.0, 0.0, -1.0) };
    assert!(sphere.ray_intersects(ray, tol()).is_none());
    let aside = Ray { origin, direction: v(0.0, 1.0, 0.0) };
    assert!(sphere.ray_intersects(aside, tol()).is_none());
}

#[test]
fn ray_from_inside_a_sphere_hits_where_it_leaves() {
    let sphere = Sphere { origin: v(0.0, 0.0, 0.0), radius: Real(2.0) };
    let ray = Ray { origin: v(0.0, 0.0, 1.0), direction: v(0.0, 0.0, 1.0) };
    let hit = sphere.ray_intersects(ray, tol()).unwrap();
    assert!(close_vec(hit.normal, 0.0, 0.0, 1.0));
    assert!(close_vec(hit.point, 0.0, 0.0, 2.001));
}

#[test]
fn ray_past_a_sphere_misses_it() {
    let sphere = Sphere { origin: v(0.0, 0.0, 0.0), radius: Real(1.0) };
    let ray = Ray { origin: v(1.5, 0.0, -5.0), direction: v(0.0, 0.0, 1.0) };
    assert!(sphere.ray_intersects(ray, tol()).is_none());
}

#[test]
fn sphere_bias_is_taken_from_the_tolerance() {
    let sphere = Sphere { origin: v(0.0, 0.0, 0.0), radius: Real(1.0) };
    let ray = Ray { origin: v(0.0, 0.0, -5.0), direction: v(0.0, 0.0, 1.0) };
    let none = Tolerance { epsilon: Real(0.0000001), bias: Real(0.0) };
    let hit = sphere.ray_intersects(ray, none).unwrap();
    assert!(close_vec(hit.point, 0.0, 0.0, -1.0));
    let wide = Tolerance { epsilon: Real(0.0000001), bias: Real(0.5) };
    let hit = sphere.ray_intersects(ray, wide).unwrap();
    assert!(close_vec(hit.point, 0.0, 0.0, -1.5));
}

#[test]
fn ray_through_the_centroid_hits_the_triangle() {
    let normal = v(0.0, 0.0, -1.0);
    let triangle = Triangle {
        normal,
        points: [v(0.0, 0.0, 2.0), v(3.0, 0.0, 2.0), v(0.0, 3.0, 2.0)],
    };
    let ray = Ray { origin: v(1.0, 1.0, -4.0), direction: v(0.0, 0.0, 1.0) };
    let hit = triangle.ray_intersects(ray, tol()).unwrap();
    assert!(close_vec(hit.point, 1.0, 1.0, 2.0));
    assert_eq!((hit.normal.x, hit.normal.y, hit.normal.z), (normal.x, normal.y, normal.z));
    let same = triangle.moller_trumbore(ray, tol()).unwrap();
    assert!(close_vec(same.point, 1.0, 1.0, 2.0));
}

#[test]
fn triangle_hit_keeps_the_stored_normal() {
    // a normal that is neither of unit length nor perpendicular to the triangle
    let normal = v(5.0, -3.0, 0.25);
    let triangle = flat_triangle(1.0, normal);
    let ray = Ray { origin: v(0.25, 0.25, 0.0), direction: v(0.0, 0.0, 1.0) };
    let hit = triangle.ray_intersects(ray, tol()).unwrap();
    assert_eq!((hit.normal.x, hit.normal.y, hit.normal.z), (Real(5.0), Real(-3.0), Real(0.25)));
    assert!(close_vec(hit.point, 0.25, 0.25, 1.0));
}

#[test]
fn ray_beside_the_triangle_misses_it() {
    let triangle = flat_triangle(1.0, v(0.0, 0.0, -1.0));
    // each of these meets the plane z == 1, outside the triangle
    for (x, y) in [(-0.1, 0.5), (0.5, -0.1), (0.6, 0.6), (2.0, 2.0)] {
        let ray = Ray { origin: v(x, y, 0.0), direction: v(0.0, 0.0, 1.0) };
        assert!(triangle.ray_intersects(ray, tol()).is_none());
    }
}

#[test]
fn ray_along_the_plane_misses_the_triangle() {
    let triangle = flat_triangle(1.0, v(0.0, 0.0, -1.0));
    let ray = Ray { origin: v(-1.0, 0.25, 1.0), direction: v(1.0, 0.0, 0.0) };
    assert!(triangle.ray_intersects(ray, tol()).is_none());
}

#[test]
fn triangle_behind_the_ray_is_not_hit() {
    let triangle = flat_triangle(1.0, v(0.0, 0.0, -1.0));
    let behind = Ray { origin: v(0.25, 0.25, 2.0), direction: v(0.0, 0.0, 1.0) };
    assert!(triangle.ray_intersects(behind, tol()).is_none());
    let on_it = Ray { origin: v(0.25, 0.25, 1.0), direction: v(0.0, 0.0, 1.0) };
    assert!(triangle.ray_intersects(on_it, tol()).is_none());
}

#[test]
fn triangle_corner_and_edge_count_as_inside() {
    let triangle = flat_triangle(1.0, v(0.0, 0.0, -1.0));
    for (x, y) in [(0.0, 0.0), (1.0, 0.0), (0.0, 1.0), (0.5, 0.5), (0.5, 0.0)] {
        let ray = Ray { origin: v(x, y, 0.0), direction: v(0.0, 0.0, 1.0) };
        assert!(triangle.ray_intersects(ray, tol()).is_some());
    }
}

#[test]
fn mesh_returns_the_nearer_of_two_triangles() {
    let near = v(0.0, 0.0, -1.0);
    let far = v(0.0, 0.0, -2.0);
    let ray = Ray { origin: v(0.25, 0.25, 0.0), direction: v(0.0, 0.0, 1.0) };

    let mesh = vec![flat_triangle(1.0, near), flat_triangle(2.0, far)];
    let hit = mesh.ray_intersects(ray, tol()).unwrap();
    assert!(close_vec(hit.point, 0.25, 0.25, 1.0));
    assert_eq!(hit.normal.z, near.z);

    let mesh = vec![flat_triangle(2.0, far), flat_triangle(1.0, near)];
    let hit = mesh.ray_intersects(ray, tol()).unwrap();
    assert!(close_vec(hit.point, 0.25, 0.25, 1.0));
    assert_eq!(hit.normal.z, near.z);
}

#[test]
fn mesh_keeps_the_first_of_two_equally_near_triangles() {
    let first = v(0.0, 0.0, -1.0);
    let second = v(0.0, 0.0, -2.0);
    let ray = Ray { origin: v(0.25, 0.25, 0.0), direction: v(0.0, 0.0, 1.0) };

    let mesh = vec![flat_triangle(1.0, first), flat_triangle(1.0, second)];
    assert_eq!(mesh.ray_intersects(ray, tol()).unwrap().normal.z, first.z);

    let mesh = vec![flat_triangle(1.0, second), flat_triangle(1.0, first)];
    assert_eq!(mesh.ray_intersects(ray, tol()).unwrap().normal.z, second.z);
}

#[test]
fn mesh_that_is_missed_gives_no_hit() {
    let ray = Ray { origin: v(5.0, 5.0, 0.0), direction: v(0.0, 0.0, 1.0) };
    let mesh = vec![flat_triangle(1.0, v(0.0, 0.0, -1.0)), flat_triangle(2.0, v(0.0, 0.0, -1.0))];
    assert!(mesh.ray_intersects(ray, tol()).is_none());
    let empty: Vec<Triangle<Real>> = Vec::new();
    assert!(empty.ray_intersects(ray, tol()).is_none());
}

#[test]
fn mesh_skips_missed_triangles() {
    let ray = Ray { origin: v(0.25, 0.25, 0.0), direction: v(0.0, 0.0, 1.0) };
    let aside = Triangle {
        normal: v(1.0, 0.0, 0.0),
        points: [v(5.0, 5.0, 0.5), v(6.0, 5.0, 0.5), v(5.0, 6.0, 0.5)],
    };
    let mesh = vec![aside, flat_triangle(3.0, v(0.0, 0.0, -1.0))];
    let hit = mesh.ray_intersects(ray, tol()).unwrap();
    assert!(close_vec(hit.point, 0.25, 0.25, 3.0));
    assert_eq!(hit.normal.z, Real(-1.0));
}

#[test]
fn mesh_hit_far_away_is_still_a_hit() {
    let ray = Ray { origin: v(0.25, 0.25, 0.0), direction: v(0.0, 0.0, 1.0) };
    let mesh = vec![flat_triangle(50000.0, v(0.0, 0.0, -1.0))];
    let hit = mesh.ray_intersects(ray, tol()).unwrap();
    assert!(close_vec(hit.point, 0.25, 0.25, 50000.0));
}

#[test]
fn scene_from_obj_places_the_camera() {
    let sphere = Sphere { origin: v(0.0, 0.0, 0.0), radius: Real(1.0) };
    let scene: Scene<Sphere<Real>, Real> = Scene::from_obj(sphere);
    assert_eq!(scene.camera.x, Real(0.0));
    assert_eq!(scene.camera.y, Real(0.0));
    assert_eq!(scene.camera.z, Real(-50.0));
    assert_eq!(scene.obj.radius, Real(1.0));
}

#[test]
fn scene_shot_starts_at_the_camera_with_unit_direction() {
    let sphere = Sphere { origin: v(0.0, 0.0, 0.0), radius: Real(1.0) };
    let scene: Scene<Sphere<Real>, Real> = Scene::from_obj(sphere);
    let ray = scene.shot(v(3.0, 4.0, -38.0));
    assert!(close_vec(ray.origin, 0.0, 0.0, -50.0));
    assert!(close_vec(ray.direction, 3.0 / 13.0, 4.0 / 13.0, 12.0 / 13.0));
    assert!(close(ray.direction.len(), 1.0));
}

#[test]
fn scene_hit_is_the_answer_of_its_geometry() {
    let sphere = Sphere { origin: v(0.0, 0.0, 0.0), radius: Real(1.0) };
    let scene: Scene<Sphere<Real>, Real> = Scene::from_obj(sphere);
    let ray = scene.shot(v(0.0, 0.0, -10.0));
    let hit = scene.hit(ray, tol()).unwrap();
    let own = sphere.ray_intersects(ray, tol()).unwrap();
    assert_eq!((hit.point.x, hit.point.y, hit.point.z), (own.point.x, own.point.y, own.point.z));
    assert!(close_vec(hit.point, 0.0, 0.0, -1.001));
    assert!(close_vec(hit.normal, 0.0, 0.0, -1.0));
    let wide = scene.shot(v(10.0, 0.0, -10.0));
    assert!(scene.hit(wide, tol()).is_none());
}

#[test]
fn shade_of_a_sphere_seen_head_on_is_255() {
    let sphere = Sphere { origin: v(0.0, 0.0, 0.0), radius: Real(1.0) };
    let scene: Scene<Sphere<Real>, Real> = Scene::from_obj(sphere);
    let proj = Projection { scale: Real(0.01), focal_z: Real(-10.0) };
    let s = shade(&scene, 0, 0, proj, tol()).unwrap();
    assert!(close(s, 255.0));
}

#[test]
fn shade_of_a_triangle_turned_away_is_scaled_by_the_cosine() {
    // the normal makes an angle with the ray whose cosine is 3/5
    let mesh = vec![Triangle {
        normal: v(0.0, 0.8, -0.6),
        points: [v(-1.0, -1.0, 0.0), v(1.0, -1.0, 0.0), v(0.0, 1.0, 0.0)],
    }];
    let scene: Scene<Vec<Triangle<Real>>, Real> = Scene::from_obj(mesh);
    let proj = Projection { scale: Real(0.01), focal_z: Real(-10.0) };
    let s = shade(&scene, 0, 0, proj, tol()).unwrap();
    assert!(close(s, 0.6 * 255.0));
}

#[test]
fn two_by_two_window_on_a_unit_sphere() {
    let sphere = Sphere { origin: v(0.0, 0.0, 0.0), radius: Real(1.0) };
    let scene: Scene<Sphere<Real>, Real> = Scene::from_obj(sphere);
    let proj = Projection { scale: Real(0.01), focal_z: Real(-10.0) };
    let window = Viewport { left: -1, right: 1, bottom: -1, top: 1 };
    let grid = window.pixels();
    assert_eq!(grid.len(), 2);
    for row in &grid {
        assert_eq!(row.len(), 2);
        for &(x, y) in row {
            let s = shade(&scene, x, y, proj, tol()).unwrap();
            assert!(s.0 > 254.0 && s.0 <= 255.0);
            assert_ne!(s.0 as u8, 0);
        }
    }
    // the silhouette is 80 pixels wide on either side of the centre
    assert!(shade(&scene, 79, 0, proj, tol()).is_some());
    assert!(shade(&scene, 0, -79, proj, tol()).is_some());
    for (x, y) in [(81, 0), (0, 81), (-81, 0), (0, -81), (60, 60), (499, -500)] {
        let colour = match shade(&scene, x, y, proj, tol()) {
            Some(s) => (s.0 as u8, s.0 as u8, s.0 as u8),
            None => (0, 0, 0),
        };
        assert_eq!(colour, (0, 0, 0));
        assert!(shade(&scene, x, y, proj, tol()).is_none());
    }
}
