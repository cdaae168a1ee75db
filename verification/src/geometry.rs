//! Pixel rectangles and resolution-independent fractions.

use vstd::prelude::*;

verus! {

/// An axis-aligned pixel rectangle in unsigned pixel units.
///
/// Two conventions exist by convention and are never mixed without an
/// explicit conversion: *screen-space* (absolute desktop coordinates) and
/// *frame-space* (relative to a captured buffer's own origin).
#[derive(Clone, Copy, Debug, PartialEq, Eq, Structural)]
pub struct Region {
    pub x: u32,
    pub y: u32,
    pub width: u32,
    pub height: u32,
}

impl Region {
    /// The far corner coordinates stay representable; holds of every
    /// rectangle that lies on a real desktop.
    pub open spec fn fits(self) -> bool {
        self.x + self.width <= u32::MAX && self.y + self.height <= u32::MAX
    }

    pub fn new(x: u32, y: u32, width: u32, height: u32) -> (r: Region)
        ensures
            r == (Region { x, y, width, height }),
    {
        Region { x, y, width, height }
    }
}

/// A fraction `num / den` in `[0, 1]`, kept exact as a pair of integers.
#[derive(Clone, Copy, Debug, PartialEq, Eq, Structural)]
pub struct Ratio {
    pub num: u32,
    pub den: u32,
}

impl Ratio {
    pub open spec fn wf(self) -> bool {
        0 < self.den && self.num <= self.den
    }

    /// The whole scaled by this fraction, truncated to pixel units.
    pub open spec fn spec_scale(self, whole: u32) -> int {
        (self.num * whole) as int / (self.den as int)
    }

    pub fn new(num: u32, den: u32) -> (r: Ratio)
        requires
            0 < den,
            num <= den,
        ensures
            r == (Ratio { num, den }),
            r.wf(),
    {
        Ratio { num, den }
    }

    /// `floor(whole * num / den)`; never exceeds the whole since the
    /// fraction is at most one.
    pub fn scale(self, whole: u32) -> (r: u32)
        requires
            self.wf(),
        ensures
            r == self.spec_scale(whole),
            r <= whole,
    {
        proof {
            assert((self.num as int) * (whole as int) <= 0xffff_ffff * 0xffff_ffff)
                by (nonlinear_arith)
                requires
                    self.num <= 0xffff_ffff,
                    whole <= 0xffff_ffff,
            ;
        }
        let wide: u64 = (self.num as u64) * (whole as u64) / (self.den as u64);
        proof {
            lemma_scale_le_whole(self, whole);
        }
        wide as u32
    }
}

/// Scaling by a fraction that is at most one cannot grow the whole.
proof fn lemma_scale_le_whole(r: Ratio, whole: u32)
    requires
        r.wf(),
    ensures
        0 <= r.spec_scale(whole) <= whole,
{
    let n = r.num as int;
    let d = r.den as int;
    let w = whole as int;
    assert(n * w <= d * w) by (nonlinear_arith)
        requires n <= d && 0 <= w;
    assert(0 <= n * w) by (nonlinear_arith)
        requires 0 <= n && 0 <= w;
    assert(n * w / d <= d * w / d) by (nonlinear_arith)
        requires n * w <= d * w && 0 < d;
    assert(d * w / d == w) by (nonlinear_arith)
        requires 0 < d;
    assert(0 <= n * w / d) by (nonlinear_arith)
        requires 0 <= n * w && 0 < d;
}

/// Truncating a scaled value loses less than one part in the whole:
/// for `q = floor(num * whole / den)`, the recovered fraction `q / whole`
/// sits within `1 / whole` below the original `num / den`.
pub proof fn lemma_ratio_round_trip(r: Ratio, whole: u32)
    requires
        r.wf(),
        0 < whole,
    ensures
        0 <= r.num * whole - r.spec_scale(whole) * r.den < r.den,
{
    let n = r.num as int;
    let d = r.den as int;
    let w = whole as int;
    let q = r.spec_scale(whole);
    assert(n * w == d * (n * w / d) + (n * w) % d) by {
        vstd::arithmetic::div_mod::lemma_fundamental_div_mod(n * w, d);
    }
    assert(0 <= (n * w) % d < d) by {
        vstd::arithmetic::div_mod::lemma_mod_bound(n * w, d);
    }
    assert(d * q == q * d) by (nonlinear_arith);
}

/// Four fractions `(x, y, w, h)` expressed relative to a window's
/// width and height, resolution-independent.  Converted to an absolute
/// `Region` only against a known window size.
#[derive(Clone, Copy, Debug, PartialEq, Eq, Structural)]
pub struct CropRatio {
    pub x: Ratio,
    pub y: Ratio,
    pub w: Ratio,
    pub h: Ratio,
}

impl CropRatio {
    pub open spec fn wf(self) -> bool {
        self.x.wf() && self.y.wf() && self.w.wf() && self.h.wf()
    }

    pub fn new(x: Ratio, y: Ratio, w: Ratio, h: Ratio) -> (r: CropRatio)
        requires
            x.wf(),
            y.wf(),
            w.wf(),
            h.wf(),
        ensures
            r == (CropRatio { x, y, w, h }),
            r.wf(),
    {
        CropRatio { x, y, w, h }
    }
}

} // verus!
