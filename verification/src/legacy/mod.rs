//! The earlier Unified Runtime surface, with events, programs and kernels.

pub mod surface;
