//! Core logic of a small ray-casting renderer.
//!
//! The scene geometry itself (vectors, intersection distances, light
//! intensities) lives in floating point and is computed by the embedding
//! program; this crate holds the discrete decisions and data movement that
//! surround that arithmetic, each with a proved contract:
//!
//! - folding texture coordinates into image bounds ([`texture`]),
//! - sampling a decoded texture grid ([`texture`]),
//! - selecting the nearest of many candidate hits ([`casting`]),
//! - deciding shadow visibility per light kind ([`shading`]),
//! - assembling the output raster and converting channels to bytes
//!   ([`raster`], [`color`]).
//!
//! Scalar distances cross the boundary as order-preserving integer keys, so
//! every comparison the renderer's decisions rest on is made here.

pub mod casting;
pub mod color;
pub mod raster;
pub mod shading;
pub mod texture;

pub use color::Rgb8;
