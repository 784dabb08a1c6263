//! Exact modular arithmetic over a fixed non-zero modulus, carried out in
//! 256-bit unsigned integers so that native-width overflow cannot corrupt a
//! result. Every operation reduces its answer into `[0, modulus)` or reports
//! a typed failure.

pub mod error;
pub mod math;
pub mod wide;
