//! Verified core of a streaming polarimetry pipeline.
//!
//! The pipeline ingests timestamped Stokes vectors from a UDP datagram
//! stream, reduces each sample to a scalar by an online principal-component
//! projection, removes slow drift with a causal highpass filter, computes a
//! short-time power spectrum on a hop schedule, and re-emits amplitude
//! blocks over UDP.
//!
//! This crate verifies the parts of that pipeline that are exact: the two
//! little-endian wire formats, the filter design validation and the filter's
//! history bookkeeping, the spectral stage's windowing schedule, and the
//! per-stage control decisions (retry vs. fatal, cooperative stop).
//! Floating-point arithmetic itself (the Oja update, the filter's
//! multiply-accumulate, the Fourier transform) is carried out by the
//! unverified process around this library; scalar samples cross the boundary
//! as IEEE-754 bit patterns (`u32` for single, `u64` for double precision),
//! which the library treats as opaque words.

pub mod bytes;
pub mod egress;
pub mod errors;
pub mod filter;
pub mod ingress;
pub mod pipeline;
pub mod spectral;
