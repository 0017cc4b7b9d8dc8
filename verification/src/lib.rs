//! Verified core of an MLX binding layer.
use vstd::prelude::*;

pub mod error;
pub mod compile;
pub mod dtype;
pub mod random;
pub mod sampler;
pub mod dropout;
pub mod text;
pub mod fast;
