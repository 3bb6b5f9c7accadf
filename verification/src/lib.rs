//! Verified core of a multi-light, shadow-mapped scene renderer.
//!
//! The library owns the data and the rules of the scene: fixed-point vector
//! math, shadow-casting cameras and their per-light update strategies, lights,
//! shared models with per-instance transforms, and the per-frame orchestration
//! that keeps the GPU-visible mirrors of light and shadow state consistent
//! with light motion. Window handling, file reading and the GPU itself are
//! hosts around this core: they hand plain values in and carry command plans
//! out.

use vstd::prelude::*;

pub mod math;
pub mod compose;
pub mod light;
pub mod orchestrator;
pub mod projection;
pub mod scene;
pub mod shadow;

verus! {

/// The error kinds the library reports.
///
/// `InvalidParameter` marks a caller bug caught at a construction or update
/// boundary; `AssetNotFound` and `ParseError` mark bad scene data at startup;
/// `ResourceAllocationError` marks a host that could not create a GPU
/// resource; `UploadFailure` marks a per-frame buffer write that did not
/// complete, after which the frame must be abandoned.
#[derive(Clone, Copy, Debug, PartialEq, Eq, Structural)]
pub enum Error {
    InvalidParameter,
    AssetNotFound,
    ParseError,
    ResourceAllocationError,
    UploadFailure,
}

} // verus!
