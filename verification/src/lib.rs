//! Escape-time fractal rendering: the discrete core.
//!
//! The renderer's numeric kernel (complex-plane iteration, the smooth
//! potential formula, and the periodic color normalization) works on
//! floating-point values and lives outside this library.  What is verified
//! here is everything the renderer decides and accounts for in integers and
//! bytes: the configuration invariant, the per-pixel and per-lane iteration
//! bookkeeping with its bound, the row-major layout of the output field, and
//! the cache decision that lets an unchanged configuration skip a render.

pub mod cache;
pub mod escape;
pub mod field;
pub mod settings;
