//! The control logic of a physically based renderer: which scattering terms
//! take part at a surface point, which hit is the nearest, when a light path
//! ends, which worker renders which columns. The caller does the radiometric
//! arithmetic, the geometry and the I/O; this library decides.
//!
//! Numbers cross the boundary by their IEEE 754 encoding ([`math::Scalar`]),
//! on which order and sign are decided exactly. From there the modules build
//! up: [`bxdf`] holds the scattering terms and their choice, [`material`] and
//! [`texture`] what a surface is made of, [`light`] and [`scene`] what a ray
//! meets, [`integrator`] and [`renderer`] the steps of light transport,
//! [`dispatch`] the division of an image among workers, and [`parse`] the
//! reading of a scene description.

pub mod math;
pub mod random;
pub mod spectrum;
pub mod bxdf;
pub mod ray;
pub mod texture;
pub mod material;
pub mod mesh;
pub mod montecarlo;
pub mod light;
pub mod scene;
pub mod integrator;
pub mod renderer;
pub mod dispatch;
pub mod json;
pub mod view;
pub mod parse;
