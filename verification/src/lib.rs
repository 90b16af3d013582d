//! The intersection-and-shading core of a brute-force ray tracer.
//!
//! Numbers enter and leave this library as IEEE-754 binary64 bit patterns
//! ([`vectors::Scalar`]). The library does no arithmetic on them: sums,
//! products and roots are computed by the program around it and handed in.
//! What the library owns are the decisions taken on those numbers (which
//! root of the sphere quadratic counts as the hit, which member of a
//! collection is hit first, which side of a surface is struck, whether a
//! material scatters or absorbs, when a light path ends) and the text of the
//! image that is finally written.

pub mod consts;
pub mod engine;
pub mod utils;
pub mod vectors;
