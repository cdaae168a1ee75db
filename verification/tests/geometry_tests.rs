use sr_plot_rs::geometry::{CropRatio, Ratio, Region};
use sr_plot_rs::screenshot::transform_crop;

#[test]
fn region_new_keeps_fields() {
    let r = Region::new(3, 4, 100, 200);
    assert_eq!(r.x, 3);
    assert_eq!(r.y, 4);
    assert_eq!(r.width, 100);
    assert_eq!(r.height, 200);
}

#[test]
fn ratio_scale_truncates() {
    assert_eq!(Ratio::new(122, 1920).scale(1920), 122);
    assert_eq!(Ratio::new(122, 1920).scale(960), 61);
    assert_eq!(Ratio::new(1, 3).scale(10), 3);
    assert_eq!(Ratio::new(0, 7).scale(1000), 0);
    assert_eq!(Ratio::new(7, 7).scale(1000), 1000);
}

#[test]
fn ratio_scale_never_exceeds_whole() {
    // floor(3 * 4294967295 / 4) = 3221225471, one more than
    // 3 * floor(4294967295 / 4): the product is taken before the
    // division.
    assert_eq!(Ratio::new(3, 4).scale(u32::MAX), 3221225471);
}

#[test]
fn crop_ratio_round_trip_error_below_one_part_in_whole() {
    // Converting num/den against a whole and reading the fraction back
    // loses less than one part in the whole: 0 <= num*w - q*den < den.
    let cases: [(u32, u32, u32); 4] = [(1, 3, 100), (122, 1920, 960), (31, 1080, 720), (1, 2, 7)];
    for (num, den, whole) in cases {
        let q = Ratio::new(num, den).scale(whole) as u64;
        let lhs = num as u64 * whole as u64;
        let recovered = q * den as u64;
        assert!(lhs >= recovered);
        assert!(lhs - recovered < den as u64);
    }
}

#[test]
fn transform_crop_exact_at_reference_size() {
    let crop = CropRatio::new(
        Ratio::new(122, 1920),
        Ratio::new(31, 1080),
        Ratio::new(98, 1920),
        Ratio::new(58, 1080),
    );
    let r = transform_crop(&crop, 1920, 1080);
    assert_eq!((r.x, r.y, r.width, r.height), (122, 31, 98, 58));
}

#[test]
fn transform_crop_truncates_at_other_sizes() {
    let crop = CropRatio::new(
        Ratio::new(122, 1920),
        Ratio::new(31, 1080),
        Ratio::new(98, 1920),
        Ratio::new(58, 1080),
    );
    let r = transform_crop(&crop, 960, 540);
    // 122*960/1920 = 61, 31*540/1080 = 15.5 -> 15, 98*960/1920 = 49,
    // 58*540/1080 = 29.
    assert_eq!((r.x, r.y, r.width, r.height), (61, 15, 49, 29));
}
