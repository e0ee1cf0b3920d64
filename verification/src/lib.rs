//! Input resolution and buffer-reuse planning for fused tensor kernels.
//!
//! Given the ordered inputs of a fusion group, a registry of non-materializing
//! views (reshape, dimension swap), a target reference shape and the fusion
//! settings, the planner resolves every input to its runtime buffer binding,
//! normalizes rank mismatches by leading-dimension broadcasting, picks at most
//! one shape-reference input, and collects the inputs whose buffer may be
//! reused in place for an output.

pub mod context;
pub mod laws;
pub mod plan;
pub mod planner;
pub mod tensor;
pub mod views;
