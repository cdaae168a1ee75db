//! Core logic of a desktop automation agent that watches a target
//! application window, locates reference images inside captured frames,
//! and decides where to synthesize mouse input.
//!
//! The platform work (native window capture, pixel correlation, input
//! synthesis) is performed by callers; this crate holds the verified
//! decision logic: coordinate-space algebra across crop/resize/capture
//! boundaries, the scale-sweep and tie-break policy of the matcher, the
//! template cache, window filtering heuristics, and the status machine.

pub mod automation;
pub mod banner;
pub mod cache;
pub mod error;
pub mod geometry;
pub mod input;
pub mod matcher;
pub mod plot;
pub mod screenshot;
pub mod text;
pub mod window;
