//! A stochastic ray-tracing renderer over a verified fixed-point scalar.
//!
//! The renderer estimates the radiance arriving at each pixel of a virtual
//! camera by recursively sampling light paths through a scene of spheres with
//! diffuse, metallic and dielectric surfaces, and averaging many noisy samples
//! per pixel into a final image buffer.
//!
//! All geometry and color arithmetic is carried out on [`fixed::Fx`], a
//! signed fixed-point scalar with 16 fractional bits, so that every numeric
//! step of the pipeline has an exact, machine-checked contract.

pub mod camera;
pub mod fixed;
pub mod hittable;
pub mod rand;
pub mod ray;
pub mod render;
pub mod scene;
pub mod sphere;
pub mod vec3;

pub use fixed::Fx;
pub use vec3::Color;
pub use vec3::Point;
pub use vec3::Vec3;
