use jigen_tensei::camera::{CameraState, LevelInfo, camera_fit_inside_current_level};
use jigen_tensei::player::Player;

fn blank_camera() -> CameraState {
    CameraState {
        x: 123,
        y: 456,
        viewport_width: 0,
        viewport_height: 0,
        origin_top_left: false,
    }
}

#[test]
fn ratio_match_takes_taller_branch_and_centers() {
    // 1600 x 900 is exactly 16:9; the strict comparison takes the taller
    // branch: viewport_width = round(1600/16)*16 = 1600, height = 900.
    // The viewport covers the level and a centered player needs no clamp.
    let player = Player { x: 800_000, y: 450_000 };
    let level = LevelInfo { origin_x: 0, origin_y: 0, px_wid: 1600, px_hei: 900 };
    let mut cam = blank_camera();
    camera_fit_inside_current_level(Some(&player), Some(&level), &mut cam);
    assert_eq!(cam.viewport_width, 1_600_000);
    assert_eq!(cam.viewport_height, 900_000);
    assert_eq!(cam.x, 0);
    assert_eq!(cam.y, 0);
    assert!(cam.origin_top_left);
}

#[test]
fn wide_level_clamps_camera_to_right_edge() {
    // 3200 x 900 is wider than 16:9: viewport_height = round(900/9)*9 = 900,
    // viewport_width = 1600. A player at x = 3100 would center the camera at
    // 3100 - 800 = 2300; the clamp binds at 3200 - 1600 = 1600.
    let player = Player { x: 3_100_000, y: 450_000 };
    let level = LevelInfo { origin_x: 0, origin_y: 0, px_wid: 3200, px_hei: 900 };
    let mut cam = blank_camera();
    camera_fit_inside_current_level(Some(&player), Some(&level), &mut cam);
    assert_eq!(cam.viewport_height, 900_000);
    assert_eq!(cam.viewport_width, 1_600_000);
    assert_eq!(cam.x, 1_600_000);
    assert_eq!(cam.y, 0);
}

#[test]
fn wide_level_unclamped_player_is_centered() {
    let player = Player { x: 1_000_000, y: 450_000 };
    let level = LevelInfo { origin_x: 0, origin_y: 0, px_wid: 3200, px_hei: 900 };
    let mut cam = blank_camera();
    camera_fit_inside_current_level(Some(&player), Some(&level), &mut cam);
    // Camera left edge at player minus half the viewport width.
    assert_eq!(cam.x, 1_000_000 - 800_000);
    assert_eq!(cam.y, 0);
}

#[test]
fn wide_level_clamps_camera_to_left_edge() {
    let player = Player { x: 100_000, y: 450_000 };
    let level = LevelInfo { origin_x: 0, origin_y: 0, px_wid: 3200, px_hei: 900 };
    let mut cam = blank_camera();
    camera_fit_inside_current_level(Some(&player), Some(&level), &mut cam);
    assert_eq!(cam.x, 0);
}

#[test]
fn tall_level_clamps_along_y() {
    // 1600 x 2000 is taller than 16:9: viewport is 1600 x 900; a player near
    // the top clamps the camera to 2000 - 900 = 1100 pixels.
    let player = Player { x: 800_000, y: 1_950_000 };
    let level = LevelInfo { origin_x: 0, origin_y: 0, px_wid: 1600, px_hei: 2000 };
    let mut cam = blank_camera();
    camera_fit_inside_current_level(Some(&player), Some(&level), &mut cam);
    assert_eq!(cam.viewport_width, 1_600_000);
    assert_eq!(cam.viewport_height, 900_000);
    assert_eq!(cam.x, 0);
    assert_eq!(cam.y, 1_100_000);
}

#[test]
fn level_origin_is_added_back() {
    let player = Player { x: 5_000_000, y: 450_000 };
    let level = LevelInfo {
        origin_x: 4_000_000,
        origin_y: -250_000,
        px_wid: 3200,
        px_hei: 900,
    };
    let mut cam = blank_camera();
    camera_fit_inside_current_level(Some(&player), Some(&level), &mut cam);
    // Level-local player x is 1000 px: centered at 1000 - 800 = 200 px,
    // then translated back by the origin.
    assert_eq!(cam.x, 4_000_000 + 200_000);
    assert_eq!(cam.y, -250_000);
}

#[test]
fn rounding_picks_nearest_multiple() {
    // 1595 x 2000: round(1595/16) = round(99.7) = 100, so the viewport is
    // still 1600 x 900 even though the level is 5 pixels narrower.
    let player = Player { x: 800_000, y: 450_000 };
    let level = LevelInfo { origin_x: 0, origin_y: 0, px_wid: 1595, px_hei: 2000 };
    let mut cam = blank_camera();
    camera_fit_inside_current_level(Some(&player), Some(&level), &mut cam);
    assert_eq!(cam.viewport_width, 1_600_000);
    assert_eq!(cam.viewport_height, 900_000);
}

#[test]
fn missing_player_leaves_camera_unmodified() {
    let level = LevelInfo { origin_x: 0, origin_y: 0, px_wid: 1600, px_hei: 900 };
    let mut cam = blank_camera();
    camera_fit_inside_current_level(None, Some(&level), &mut cam);
    assert_eq!(cam.x, 123);
    assert_eq!(cam.y, 456);
    assert!(!cam.origin_top_left);
}

#[test]
fn missing_level_leaves_camera_unmodified() {
    let player = Player { x: 0, y: 0 };
    let mut cam = blank_camera();
    camera_fit_inside_current_level(Some(&player), None, &mut cam);
    assert_eq!(cam.x, 123);
    assert_eq!(cam.y, 456);
}
