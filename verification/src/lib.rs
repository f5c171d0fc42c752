//! Verified core of a general-relativistic ray tracer.
//!
//! Photons are integrated backward in time through a curved spacetime and
//! sampled against an accretion-disk model.  The floating-point integration
//! itself lives outside this crate; what is verified here is everything the
//! tracer decides and accounts for in exact arithmetic: position
//! classification against horizons and the spacetime edge, the compressed
//! symmetric Christoffel storage, the per-photon bookkeeping of disk
//! crossings and Compton scattering, the corona density model, the
//! blackbody colour table, the pixel sampling plan, progress accounting,
//! and the assembly of output images.
pub mod christoffel;
pub mod color;
pub mod engine;
pub mod metrics;
pub mod observer;
pub mod photon;
pub mod render;
pub mod slice;
pub mod source;
