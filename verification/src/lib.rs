//! A CPU-only triangle rasterizer with programmable vertex/fragment shading.
//!
//! Every scalar of the pipeline is a Q16.16 fixed-point number held in an
//! `i64` (see [`fixed`]); each operation's result is pinned down exactly by a
//! specification twin, so the whole pipeline — camera matrices, barycentric
//! scan conversion, perspective-correct interpolation, depth testing and the
//! lighting/texturing math — is a proved, deterministic function of its
//! inputs.

pub mod fixed;
pub mod vecmath;
pub mod texture;
pub mod model;
pub mod camera;
pub mod shader;
pub mod draw;
pub mod laws;
