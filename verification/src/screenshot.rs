//! Planning the normalization of a captured frame: optional crop in
//! window coordinates, optional downscale to the reference resolution,
//! and the screen-space origin of the result.

use vstd::prelude::*;

use crate::geometry::{CropRatio, Region};

verus! {

/// Captures wider than this are downscaled before correlation, which
/// bounds matching cost; the height that goes with it keeps the 16:9
/// reference aspect.
pub const REFERENCE_WIDTH: u32 = 1920;

pub const REFERENCE_HEIGHT: u32 = 1080;

/// The ratio of normalized frame size to original captured size, kept
/// exact as `num / den`.  Identity (`1/1`) when no resize occurred;
/// `REFERENCE_WIDTH / window_width` (at most one) when a wide capture
/// was shrunk.
#[derive(Clone, Copy, Debug, PartialEq, Eq, Structural)]
pub struct ScaleFactor {
    pub num: u32,
    pub den: u32,
}

impl ScaleFactor {
    pub open spec fn wf(self) -> bool {
        0 < self.num <= self.den
    }

    pub open spec fn is_identity(self) -> bool {
        self.num == self.den
    }

    /// A frame-space length divided by the factor, truncated: the length
    /// it had before normalization shrank it.
    pub open spec fn spec_unscale(self, v: int) -> int {
        v * (self.den as int) / (self.num as int)
    }

    /// A pre-normalization length multiplied by the factor, truncated:
    /// the length it has inside the normalized frame.
    pub open spec fn spec_downscale(self, v: int) -> int {
        v * (self.num as int) / (self.den as int)
    }

    pub fn identity() -> (r: ScaleFactor)
        ensures
            r == (ScaleFactor { num: 1u32, den: 1u32 }),
            r.wf(),
            r.is_identity(),
    {
        ScaleFactor { num: 1, den: 1 }
    }

    /// `floor(v / (num / den))`, exact in 64-bit arithmetic.
    pub fn unscale(self, v: u32) -> (r: u64)
        requires
            self.wf(),
        ensures
            r == self.spec_unscale(v as int),
    {
        proof {
            assert((v as int) * (self.den as int) <= 0xffff_ffff * 0xffff_ffff)
                by (nonlinear_arith)
                requires
                    v <= 0xffff_ffff,
                    self.den <= 0xffff_ffff,
            ;
        }
        (v as u64) * (self.den as u64) / (self.num as u64)
    }
}

/// Everything a capture stage must do to a frame, computed from the
/// window geometry and an optional crop ratio before any pixel moves.
#[derive(Clone, Copy, Debug)]
pub struct ScreenshotPlan {
    /// Crop rectangle in frame-space window coordinates, applied first.
    pub crop_region: Option<Region>,
    /// Target dimensions of the downscale applied second, if the window
    /// is wider than the reference width.
    pub resize_to: Option<(u32, u32)>,
    /// Ratio of normalized size to captured size.
    pub factor: ScaleFactor,
    /// Screen-space region the normalized content was cropped from.
    pub screen_region: Region,
}

/// Resolves a crop ratio against a window size into an absolute
/// frame-space rectangle, truncating to pixel units.
pub fn transform_crop(crop: &CropRatio, w: u32, h: u32) -> (r: Region)
    requires
        crop.wf(),
    ensures
        r.x == crop.x.spec_scale(w),
        r.y == crop.y.spec_scale(h),
        r.width == crop.w.spec_scale(w),
        r.height == crop.h.spec_scale(h),
        r.x <= w && r.width <= w && r.y <= h && r.height <= h,
{
    Region::new(crop.x.scale(w), crop.y.scale(h), crop.w.scale(w), crop.h.scale(h))
}

/// Plans the whole normalization, in order: crop resolved against the
/// window size, then the downscale decision against the reference
/// width, then the screen-space origin of the cropped content.
pub fn plan_screenshot(window_region: Region, crop: Option<&CropRatio>) -> (r: ScreenshotPlan)
    requires
        window_region.fits(),
        crop matches Some(c) ==> c.wf(),
    ensures
        r.factor.wf(),
        window_region.width > REFERENCE_WIDTH ==> r.factor == (ScaleFactor {
            num: REFERENCE_WIDTH,
            den: window_region.width,
        }),
        window_region.width <= REFERENCE_WIDTH ==> r.factor.is_identity(),
        crop is None ==> {
            &&& r.crop_region is None
            &&& r.screen_region == window_region
            &&& window_region.width > REFERENCE_WIDTH ==> r.resize_to == Some(
                (REFERENCE_WIDTH, REFERENCE_HEIGHT),
            )
        },
        crop matches Some(c) ==> {
            &&& r.crop_region matches Some(cr) && cr.x == c.x.spec_scale(window_region.width)
                && cr.y == c.y.spec_scale(window_region.height) && cr.width == c.w.spec_scale(
                window_region.width,
            ) && cr.height == c.h.spec_scale(window_region.height)
            &&& r.screen_region.x == window_region.x + c.x.spec_scale(window_region.width)
            &&& r.screen_region.y == window_region.y + c.y.spec_scale(window_region.height)
            &&& r.screen_region.width == c.w.spec_scale(window_region.width)
            &&& r.screen_region.height == c.h.spec_scale(window_region.height)
            &&& window_region.width > REFERENCE_WIDTH ==> r.resize_to == Some(
                (
                    c.w.spec_scale(REFERENCE_WIDTH) as u32,
                    c.h.spec_scale(REFERENCE_HEIGHT) as u32,
                ),
            )
        },
        window_region.width <= REFERENCE_WIDTH ==> r.resize_to is None,
{
    let crop_region: Option<Region> = match crop {
        Some(c) => Some(transform_crop(c, window_region.width, window_region.height)),
        None => None,
    };
    let screen_region: Region = match crop_region {
        Some(cr) => Region::new(
            window_region.x + cr.x,
            window_region.y + cr.y,
            cr.width,
            cr.height,
        ),
        None => window_region,
    };
    let (factor, resize_to): (ScaleFactor, Option<(u32, u32)>) = if window_region.width
        > REFERENCE_WIDTH {
        let target = match crop {
            Some(c) => (c.w.scale(REFERENCE_WIDTH), c.h.scale(REFERENCE_HEIGHT)),
            None => (REFERENCE_WIDTH, REFERENCE_HEIGHT),
        };
        (ScaleFactor { num: REFERENCE_WIDTH, den: window_region.width }, Some(target))
    } else {
        (ScaleFactor::identity(), None)
    };
    ScreenshotPlan { crop_region, resize_to, factor, screen_region }
}

} // verus!
