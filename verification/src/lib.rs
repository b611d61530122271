//! Core logic of a Monte Carlo path-tracing renderer.
//!
//! The numeric geometry (vectors, intersections, scattering) runs on
//! floating point and lives with the driver; this crate holds the parts
//! whose behaviour can be stated and proved exactly: screen geometry and
//! raster order, the per-sample bounce state machine, render-request
//! validation, job-status bookkeeping, and the text the service emits.

pub mod bounce;
pub mod config;
pub mod interval;
pub mod jobs;
pub mod request;
pub mod screen;
pub mod status;
pub mod text;
pub mod utils;
