//! A ray caster for triangle meshes: decoding binary STL streams, testing
//! rays against triangles, spheres and whole meshes, and shading the pixels
//! of an image.
//!
//! The geometry is generic over its scalar type; see [`scalar`].
pub mod intersectable;
pub mod ray;
pub mod render;
pub mod scalar;
pub mod scene;
pub mod stl;
pub mod vector;
