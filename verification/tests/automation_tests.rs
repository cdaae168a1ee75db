use sr_plot_rs::automation::Automation;
use sr_plot_rs::error::SrPlotError;
use sr_plot_rs::geometry::Region;
use sr_plot_rs::matcher::{Candidate, Score};
use sr_plot_rs::screenshot::ScaleFactor;

fn automation_with_frame() -> Automation {
    let mut auto = Automation::new("Honkai: Star Rail");
    auto.record_screenshot(
        Region::new(344, 112, 196, 116),
        ScaleFactor { num: 1920, den: 3840 },
        Region::new(100, 50, 3840, 2160),
        (98, 58),
    );
    auto
}

#[test]
fn calculate_positions_maps_back_to_screen_space() {
    let auto = automation_with_frame();
    // Frame-space location divided by the factor (x2 here), then
    // translated by the crop origin; the box extent is the template
    // size divided by the same factor.
    let c = auto.calculate_positions(98, 58, 10, 20).expect("coordinate");
    assert_eq!(c.0, (344 + 20, 112 + 40));
    assert_eq!(c.1, (344 + 20 + 196, 112 + 40 + 116));
}

#[test]
fn calculate_positions_truncates_like_the_pipeline() {
    let mut auto = Automation::new("t");
    auto.record_screenshot(
        Region::new(0, 0, 10, 10),
        ScaleFactor { num: 1920, den: 2560 },
        Region::new(0, 0, 2560, 1440),
        (1920, 1080),
    );
    // 7 * 2560 / 1920 = 9.33... -> 9.
    let c = auto.calculate_positions(3, 3, 7, 7).expect("coordinate");
    assert_eq!(c.0, (9, 9));
    // 3 * 2560 / 1920 = 4.
    assert_eq!(c.1, (13, 13));
}

#[test]
fn calculate_positions_before_any_capture_is_a_programmer_error() {
    let auto = Automation::new("t");
    let r = auto.calculate_positions(10, 10, 0, 0);
    assert!(matches!(r, Err(SrPlotError::Unexcepted)));
}

#[test]
fn resolve_match_returns_none_below_threshold() {
    let auto = automation_with_frame();
    let native = Candidate { score: Score::Finite(500_000), x: 1, y: 1, scale_mils: 1000 };
    let r = auto.resolve_match(98, 58, native, &Vec::new(), 900_000);
    assert!(matches!(r, Ok(None)));
}

#[test]
fn resolve_match_non_finite_is_a_non_match_not_an_error() {
    // An all-black frame yields a non-finite correlation; the matcher
    // treats it as "no match this cycle" regardless of threshold.
    let auto = automation_with_frame();
    let native = Candidate { score: Score::NonFinite, x: 1, y: 1, scale_mils: 1000 };
    for threshold in [i64::MIN, 0, 900_000] {
        let r = auto.resolve_match(98, 58, native, &Vec::new(), threshold);
        assert!(matches!(r, Ok(None)));
    }
}

#[test]
fn resolve_match_maps_the_best_candidate() {
    let auto = automation_with_frame();
    let native = Candidate { score: Score::Finite(910_000), x: 10, y: 20, scale_mils: 1000 };
    let scaled = vec![
        Candidate { score: Score::Finite(950_000), x: 30, y: 40, scale_mils: 950 },
        Candidate { score: Score::Finite(920_000), x: 50, y: 60, scale_mils: 1050 },
    ];
    let r = auto.resolve_match(98, 58, native, &scaled, 900_000).expect("ok");
    let c = r.expect("match");
    // The sweep's best (x=30, y=40) wins and is unscaled by x2.
    assert_eq!(c.0, (344 + 60, 112 + 80));
    assert_eq!(c.1, (344 + 60 + 196, 112 + 80 + 116));
}

#[test]
fn resolve_match_before_any_capture_is_a_programmer_error() {
    let auto = Automation::new("t");
    let high = Candidate { score: Score::Finite(990_000), x: 0, y: 0, scale_mils: 1000 };
    let low = Candidate { score: Score::Finite(100_000), x: 0, y: 0, scale_mils: 1000 };
    assert!(matches!(
        auto.resolve_match(10, 10, high, &Vec::new(), 900_000),
        Err(SrPlotError::Unexcepted)
    ));
    assert!(matches!(
        auto.resolve_match(10, 10, low, &Vec::new(), 900_000),
        Err(SrPlotError::Unexcepted)
    ));
}

#[test]
fn a_template_larger_than_the_frame_is_a_geometry_error() {
    // Correlation is undefined when the template exceeds the search
    // frame; the mistake is surfaced, not swallowed.
    let auto = automation_with_frame();
    let native = Candidate { score: Score::Finite(990_000), x: 0, y: 0, scale_mils: 1000 };
    let r = auto.resolve_match(99, 58, native, &Vec::new(), 900_000);
    assert!(matches!(r, Err(SrPlotError::Unexcepted)));
    let r = auto.resolve_match(98, 59, native, &Vec::new(), 900_000);
    assert!(matches!(r, Err(SrPlotError::Unexcepted)));
    let r = auto.resolve_match(98, 58, native, &Vec::new(), 900_000);
    assert!(r.is_ok());
}

#[test]
fn locate_inverts_the_normalization_pipeline_within_truncation() {
    // A screen point is carried into frame space by the normalization
    // factor (num/den = 1/2 here) and mapped back through
    // calculate_positions: the result lands at or before the original
    // point, and the loss stays below one pre-normalization pixel,
    // i.e. (s - back) * num < num + den.
    let auto = automation_with_frame();
    let (num, den) = (1920u64, 3840u64);
    let origin = (344u64, 112u64);
    for screen in [(1000u64, 800u64), (1001, 801), (345, 113), (344, 112)] {
        let frame_x = ((screen.0 - origin.0) * num / den) as u32;
        let frame_y = ((screen.1 - origin.1) * num / den) as u32;
        let c = auto.calculate_positions(98, 58, frame_x, frame_y).expect("coordinate");
        let back = (c.0 .0 as u64, c.0 .1 as u64);
        assert!(back.0 <= screen.0 && back.1 <= screen.1);
        assert!((screen.0 - back.0) * num < num + den);
        assert!((screen.1 - back.1) * num < num + den);
    }
}

#[test]
fn click_guard_accepts_the_pointer_inside_the_window() {
    let auto = automation_with_frame();
    assert!(auto.check_click_position(100, 50).is_ok());
    assert!(auto.check_click_position(3940, 2210).is_ok());
    assert!(auto.check_click_position(2000, 1000).is_ok());
}

#[test]
fn click_guard_refuses_the_pointer_outside_the_window() {
    let auto = automation_with_frame();
    let r = auto.check_click_position(99, 50);
    assert!(matches!(r, Err(SrPlotError::User(_))));
    let r = auto.check_click_position(3941, 2210);
    assert!(matches!(r, Err(SrPlotError::User(_))));
}

#[test]
fn click_guard_without_a_window_region_is_a_programmer_error() {
    let auto = Automation::new("t");
    assert!(matches!(auto.check_click_position(0, 0), Err(SrPlotError::Unexcepted)));
}

#[test]
fn click_center_is_the_truncated_box_center() {
    assert_eq!(Automation::click_center(((10, 20), (30, 40))), (20, 30));
    assert_eq!(Automation::click_center(((0, 0), (5, 5))), (2, 2));
}
