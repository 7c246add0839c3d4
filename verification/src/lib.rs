//! The deciding half of a Monte-Carlo path tracer.
//!
//! Every number is an IEEE-754 binary64 value carried by its bit pattern. The
//! host performs the rounding arithmetic (sums, products, quotients, roots) and
//! hands the results in; this crate does everything that can be done exactly on
//! the bit patterns: ordering, negation, root selection, nearest-hit search,
//! surface orientation, the scattering outcome of each material, the bounce
//! budget of a path and the quantisation of a pixel.

pub mod geometry;
pub mod integrator;
pub mod material;
pub mod utils;
