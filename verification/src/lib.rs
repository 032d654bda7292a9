//! Host-side planning for the CUDA vector-add and matrix-multiplication
//! benchmarks: how many thread blocks each kernel is launched with, which
//! kernels are run and under which names, the deterministic input matrices,
//! and the floating-point operation count used for throughput figures.
//!
//! The device work itself (copies, kernel launches, timing) and everything
//! computed in floating point stay in the application around this library.

pub mod launch;
pub mod workload;
