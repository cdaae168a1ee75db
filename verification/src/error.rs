//! Error kinds surfaced by the automation core.

use vstd::prelude::*;

verus! {

/// A typed outcome for every failure the core can surface.
///
/// `Screenshot` covers capture failures (window vanished, capture denied),
/// `Input` covers input-synthesis failures, `ImageProcessing` covers
/// malformed template bytes and correlation failures, `User` carries a
/// message for conditions the operator must fix, and `Unexcepted` marks a
/// required prior stage's output being absent (programmer error).
#[derive(Debug)]
pub enum SrPlotError {
    Screenshot(String),
    Input(String),
    ImageProcessing(String),
    User(String),
    Unexcepted,
}

pub type SrPlotResult<T> = Result<T, SrPlotError>;

} // verus!
