//! The pointer-reading side of the input-synthesis capability: raw
//! platform readings become unsigned pixel coordinates.

use vstd::prelude::*;

verus! {

pub struct Input;

impl Input {
    /// The pointer position as unsigned pixels: an unreadable position
    /// becomes the origin, and raw signed readings are truncated the
    /// way the rest of the pipeline truncates coordinates.
    pub fn position(raw: Option<(i32, i32)>) -> (r: (u32, u32))
        ensures
            raw is None ==> r == (0u32, 0u32),
            raw matches Some(p) ==> r.0 == p.0 as u32 && r.1 == p.1 as u32,
    {
        match raw {
            Some(p) => (#[verifier::truncate] (p.0 as u32), #[verifier::truncate] (p.1 as u32)),
            None => (0, 0),
        }
    }
}

} // verus!
