//! Per-cycle automation state: what the last normalized capture was,
//! where it sits on screen, and how match locations inside it map back
//! to absolute screen coordinates for clicking.

use vstd::prelude::*;

use crate::cache::TemplateCache;
use crate::error::SrPlotError;
use crate::geometry::Region;
use crate::matcher::{best_candidate, fold_best, is_match, spec_is_match, Candidate};
use crate::screenshot::ScaleFactor;

verus! {

/// A screen-space bounding box as corner points: (top-left,
/// bottom-right).
pub type Coordinate = ((u32, u32), (u32, u32));

/// The state one polling pipeline carries between its stages.
pub struct Automation {
    pub window_title: String,
    /// Screen-space region the last normalized frame was cropped from.
    pub screenshot_pos: Option<Region>,
    /// Normalization factor of the last frame.
    pub screenshot_factor: ScaleFactor,
    /// Screen-space region of the whole target window.
    pub window_region: Option<Region>,
    /// Pixel dimensions of the last normalized frame.
    pub frame_size: Option<(u32, u32)>,
    pub cache: TemplateCache,
}

impl Automation {
    pub open spec fn wf(self) -> bool {
        self.screenshot_factor.wf() && self.cache.wf()
    }

    pub fn new(window_title: &str) -> (r: Automation)
        ensures
            r.wf(),
            r.window_title@ == window_title@,
            r.screenshot_pos is None,
            r.window_region is None,
            r.frame_size is None,
            r.screenshot_factor.is_identity(),
            r.cache.spec_decode_calls() == 0,
            forall|n: Seq<char>| !r.cache.has_name(n),
    {
        Automation {
            window_title: window_title.to_owned(),
            screenshot_pos: None,
            screenshot_factor: ScaleFactor::identity(),
            window_region: None,
            frame_size: None,
            cache: TemplateCache::new(),
        }
    }

    /// Stores what the capture stage produced: the capture itself runs
    /// outside this crate, and hands back the screen-space origin of
    /// the normalized content, the normalization factor, the whole
    /// window's region, and the normalized frame's pixel dimensions.
    pub fn record_screenshot(
        &mut self,
        pos: Region,
        factor: ScaleFactor,
        window_region: Region,
        frame_size: (u32, u32),
    )
        requires
            old(self).wf(),
            factor.wf(),
        ensures
            final(self).wf(),
            final(self).screenshot_pos == Some(pos),
            final(self).screenshot_factor == factor,
            final(self).window_region == Some(window_region),
            final(self).frame_size == Some(frame_size),
            final(self).cache == old(self).cache,
            final(self).window_title == old(self).window_title,
    {
        self.screenshot_pos = Some(pos);
        self.screenshot_factor = factor;
        self.window_region = Some(window_region);
        self.frame_size = Some(frame_size);
    }

    /// Maps a match location from normalized frame space back to a
    /// screen-space bounding box: divide by the normalization factor
    /// (truncating, like the rest of the pipeline), then translate by
    /// the crop origin; the box extent is the template size divided by
    /// the same factor.  Mapping before any capture is a programmer
    /// error, surfaced as `Unexcepted`.
    pub fn calculate_positions(
        &self,
        template_width: u32,
        template_height: u32,
        loc_x: u32,
        loc_y: u32,
    ) -> (r: Result<Coordinate, SrPlotError>)
        requires
            self.wf(),
            self.screenshot_pos matches Some(p) ==> {
                let f = self.screenshot_factor;
                &&& p.x + f.spec_unscale(loc_x as int) + f.spec_unscale(template_width as int)
                    <= u32::MAX
                &&& p.y + f.spec_unscale(loc_y as int) + f.spec_unscale(template_height as int)
                    <= u32::MAX
            },
        ensures
            self.screenshot_pos is None ==> (r matches Err(e) && e matches SrPlotError::Unexcepted),
            self.screenshot_pos matches Some(p) ==> (r matches Ok(c) && {
                let f = self.screenshot_factor;
                &&& c.0.0 == p.x + f.spec_unscale(loc_x as int)
                &&& c.0.1 == p.y + f.spec_unscale(loc_y as int)
                &&& c.1.0 == c.0.0 + f.spec_unscale(template_width as int)
                &&& c.1.1 == c.0.1 + f.spec_unscale(template_height as int)
            }),
    {
        match self.screenshot_pos {
            None => Err(SrPlotError::Unexcepted),
            Some(p) => {
                let f = self.screenshot_factor;
                let top_left_x: u64 = p.x as u64 + f.unscale(loc_x);
                let top_left_y: u64 = p.y as u64 + f.unscale(loc_y);
                let bottom_right_x: u64 = top_left_x + f.unscale(template_width);
                let bottom_right_y: u64 = top_left_y + f.unscale(template_height);
                Ok(
                    (
                        (top_left_x as u32, top_left_y as u32),
                        (bottom_right_x as u32, bottom_right_y as u32),
                    ),
                )
            },
        }
    }

    /// The decision core of a lookup: given the native-scale
    /// correlation result and the sweep results, keep the best score
    /// (ties keep the earlier, so the native scale is favored), test
    /// it against the threshold, and map a positive match back to a
    /// screen-space bounding box.  A score below the threshold — or a
    /// non-finite one — is the normal no-match outcome, not an error.
    /// Matching before any capture, or with a template larger than the
    /// normalized frame (correlation is undefined there), is a
    /// programmer error, surfaced and not swallowed.
    pub fn resolve_match(
        &self,
        template_width: u32,
        template_height: u32,
        native: Candidate,
        scaled: &Vec<Candidate>,
        threshold_micros: i64,
    ) -> (r: Result<Option<Coordinate>, SrPlotError>)
        requires
            self.wf(),
            self.screenshot_pos matches Some(p) ==> {
                let f = self.screenshot_factor;
                let best = fold_best(seq![native] + scaled@);
                &&& p.x + f.spec_unscale(best.x as int) + f.spec_unscale(template_width as int)
                    <= u32::MAX
                &&& p.y + f.spec_unscale(best.y as int) + f.spec_unscale(template_height as int)
                    <= u32::MAX
            },
        ensures
            ({
                let prior_ok = self.frame_size is Some && self.screenshot_pos is Some;
                let oversized = prior_ok && (template_width > self.frame_size.unwrap().0
                    || template_height > self.frame_size.unwrap().1);
                let best = fold_best(seq![native] + scaled@);
                let hit = spec_is_match(best.score, threshold_micros);
                &&& !prior_ok ==> (r matches Err(e) && e matches SrPlotError::Unexcepted)
                &&& oversized ==> (r matches Err(e) && e matches SrPlotError::Unexcepted)
                &&& (prior_ok && !oversized && !hit) ==> (r matches Ok(o) && o is None)
                &&& (prior_ok && !oversized && hit) ==> ({
                    let p = self.screenshot_pos.unwrap();
                    let f = self.screenshot_factor;
                    let tlx = p.x + f.spec_unscale(best.x as int);
                    let tly = p.y + f.spec_unscale(best.y as int);
                    &&& r matches Ok(o)
                    &&& o matches Some(c)
                    &&& c.0.0 == tlx && c.0.1 == tly
                    &&& c.1.0 == tlx + f.spec_unscale(template_width as int)
                    &&& c.1.1 == tly + f.spec_unscale(template_height as int)
                })
            }),
    {
        let (frame_width, frame_height) = match self.frame_size {
            None => {
                return Err(SrPlotError::Unexcepted);
            },
            Some(d) => d,
        };
        if self.screenshot_pos.is_none() {
            return Err(SrPlotError::Unexcepted);
        }
        if template_width > frame_width || template_height > frame_height {
            return Err(SrPlotError::Unexcepted);
        }
        let best = best_candidate(native, scaled);
        if is_match(&best.score, threshold_micros) {
            match self.calculate_positions(template_width, template_height, best.x, best.y) {
                Ok(c) => Ok(Some(c)),
                Err(e) => Err(e),
            }
        } else {
            Ok(None)
        }
    }

    /// The guard of a click: the pointer must already sit inside the
    /// target window's region, else the click is refused with a
    /// message for the operator.  Clicking before any capture recorded
    /// a window region is a programmer error.
    pub fn check_click_position(&self, mouse_x: u32, mouse_y: u32) -> (r: Result<
        (),
        SrPlotError,
    >)
        ensures
            self.window_region is None ==> (r matches Err(e) && e matches SrPlotError::Unexcepted),
            self.window_region matches Some(reg) ==> {
                let inside = reg.x <= mouse_x && mouse_x <= reg.x + reg.width && reg.y <= mouse_y
                    && mouse_y <= reg.y + reg.height;
                &&& inside ==> r is Ok
                &&& !inside ==> (r matches Err(e) && e matches SrPlotError::User(m) && m@
                    == "The mouse pointer is outside the game window!"@)
            },
    {
        match self.window_region {
            None => Err(SrPlotError::Unexcepted),
            Some(reg) => {
                let inside = reg.x <= mouse_x && (mouse_x as u64) <= reg.x as u64
                    + reg.width as u64 && reg.y <= mouse_y && (mouse_y as u64) <= reg.y as u64
                    + reg.height as u64;
                if inside {
                    Ok(())
                } else {
                    Err(
                        SrPlotError::User(
                            "The mouse pointer is outside the game window!".to_owned(),
                        ),
                    )
                }
            },
        }
    }

    /// The point an input synthesizer should click for a bounding box:
    /// its center, truncated to pixels.
    pub fn click_center(coordinate: Coordinate) -> (r: (u32, u32))
        ensures
            r.0 == (coordinate.0.0 + coordinate.1.0) / 2,
            r.1 == (coordinate.0.1 + coordinate.1.1) / 2,
    {
        let ((left, top), (right, bottom)) = coordinate;
        let x: u64 = (left as u64 + right as u64) / 2;
        let y: u64 = (top as u64 + bottom as u64) / 2;
        (x as u32, y as u32)
    }
}

/// The coordinate mapper inverts the normalization pipeline up to
/// truncation: a screen point at offset `t` inside the cropped region,
/// carried into frame space by the normalization factor `num/den` and
/// mapped back by `calculate_positions`' arithmetic, lands at or
/// before the original point, and the loss stays below one
/// pre-normalization pixel plus one frame pixel:
/// `(screen_x - back) * num < num + den`.  With the identity factor
/// the round trip is exact.
pub proof fn lemma_locate_round_trip(screen_x: int, origin_x: int, f: ScaleFactor)
    requires
        f.wf(),
        0 <= origin_x <= screen_x,
    ensures
        ({
            let p = f.spec_downscale(screen_x - origin_x);
            let back = origin_x + f.spec_unscale(p);
            &&& back <= screen_x
            &&& (screen_x - back) * f.num < f.num + f.den
        }),
{
    let n = f.num as int;
    let d = f.den as int;
    let t = screen_x - origin_x;
    let p = t * n / d;
    let back0 = p * d / n;
    assert(0 <= t * n) by (nonlinear_arith)
        requires
            0 <= t,
            0 < n,
    ;
    vstd::arithmetic::div_mod::lemma_fundamental_div_mod(t * n, d);
    vstd::arithmetic::div_mod::lemma_mod_bound(t * n, d);
    let r1 = (t * n) % d;
    assert(0 <= p) by (nonlinear_arith)
        requires
            t * n == d * p + r1,
            0 <= t * n,
            0 <= r1 < d,
            0 < d,
    ;
    assert(0 <= p * d) by (nonlinear_arith)
        requires
            0 <= p,
            0 < d,
    ;
    vstd::arithmetic::div_mod::lemma_fundamental_div_mod(p * d, n);
    vstd::arithmetic::div_mod::lemma_mod_bound(p * d, n);
    let r2 = (p * d) % n;
    assert(back0 <= t) by (nonlinear_arith)
        requires
            p * d == n * back0 + r2,
            t * n == d * p + r1,
            0 <= r1 < d,
            0 <= r2 < n,
            0 < n,
            0 < d,
    ;
    assert((t - back0) * n < n + d) by (nonlinear_arith)
        requires
            p * d == n * back0 + r2,
            t * n == d * p + r1,
            0 <= r1 < d,
            0 <= r2 < n,
            0 < n,
            0 < d,
    ;
}

} // verus!
