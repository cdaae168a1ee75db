use sr_plot_rs::input::Input;
use sr_plot_rs::matcher::sweep_scales;
use sr_plot_rs::plot::{game_status_of, plan_scale_range, GameStatus};
use sr_plot_rs::window::Window;

fn window(active: bool) -> Window {
    Window {
        title: "Honkai: Star Rail".to_owned(),
        x: 0,
        y: 0,
        width: 1920,
        height: 1080,
        is_active: active,
    }
}

#[test]
fn set_reports_an_edge_exactly_once() {
    let mut status = GameStatus::Uninitialized;
    assert!(status.set(GameStatus::Active));
    assert_eq!(status, GameStatus::Active);
    // Self-transition: no edge, no log.
    assert!(!status.set(GameStatus::Active));
    assert!(status.set(GameStatus::Inactive));
    assert!(status.set(GameStatus::NotFound));
    assert!(!status.set(GameStatus::NotFound));
    assert!(status.set(GameStatus::Active));
}

#[test]
fn log_lines_follow_the_state() {
    assert_eq!(GameStatus::Active.log(), "Game window active, automation running...");
    assert_eq!(GameStatus::Inactive.log(), "Game window is not in the foreground");
    assert_eq!(
        GameStatus::NotFound.log(),
        "Game window not found, waiting for the game to start..."
    );
    assert_eq!(GameStatus::Uninitialized.log(), "Unknown error");
}

#[test]
fn game_status_follows_the_observed_window() {
    assert_eq!(game_status_of(&Some(window(true))), GameStatus::Active);
    assert_eq!(game_status_of(&Some(window(false))), GameStatus::Inactive);
    assert_eq!(game_status_of(&None), GameStatus::NotFound);
}

#[test]
fn no_scale_range_at_or_above_the_reference_width() {
    assert_eq!(plan_scale_range(1920), None);
    assert_eq!(plan_scale_range(2560), None);
}

#[test]
fn scale_range_brackets_the_window_ratio() {
    // 960/1920 = 0.5: rounded to tenths and widened by 0.05 each way,
    // the swept range is (0.5, 0.6).
    assert_eq!(plan_scale_range(960), Some((500, 600)));
    assert_eq!(plan_scale_range(1000), Some((500, 600)));
    // 1728/1920 = 0.9: the half-step lands on (0.9, 1.0).
    assert_eq!(plan_scale_range(1728), Some((900, 1000)));
    assert_eq!(plan_scale_range(1280), Some((600, 700)));
}

#[test]
fn planned_range_sweeps_three_scales() {
    let (lo, hi) = plan_scale_range(960).expect("range");
    assert_eq!(sweep_scales(lo, hi), vec![500, 550, 600]);
}

#[test]
fn pointer_position_defaults_to_the_origin() {
    assert_eq!(Input::position(None), (0, 0));
    assert_eq!(Input::position(Some((100, 200))), (100, 200));
}

#[test]
fn pointer_position_truncates_signed_readings() {
    assert_eq!(Input::position(Some((-5, 7))), ((-5i32) as u32, 7));
}
