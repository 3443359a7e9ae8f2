//! Camera fit: sizes a 16:9 orthographic viewport to the active level and
//! places it so the player stays visible, clamped to the level bounds.

use vstd::prelude::*;

verus! {

/// Width part of the fixed 16:9 target aspect ratio.
pub const ASPECT_RATIO_WIDTH: i64 = 16;

/// Height part of the fixed 16:9 target aspect ratio.
pub const ASPECT_RATIO_HEIGHT: i64 = 9;

/// Pixel dimensions and world-space origin of a level. The origin is in
/// millipixels; the dimensions are in whole pixels, as the tile map gives
/// them.
#[derive(Clone, Copy, Debug)]
pub struct LevelInfo {
    pub origin_x: i64,
    pub origin_y: i64,
    pub px_wid: u32,
    pub px_hei: u32,
}

/// The camera transform and orthographic projection the renderer consumes:
/// a world-space translation (millipixels), a fixed viewport size in world
/// units (millipixels), and the origin convention. `origin_top_left` is set
/// once the fit has run: the viewport is then measured from the level's
/// top-left corner.
#[derive(Clone, Copy, Debug)]
pub struct CameraState {
    pub x: i64,
    pub y: i64,
    pub viewport_width: i64,
    pub viewport_height: i64,
    pub origin_top_left: bool,
}

/// Bound on world coordinates (player position, level origin), in
/// millipixels, so the fit's fixed-point arithmetic stays inside `i64`.
pub const MAX_WORLD_COORD: i64 = 0x1000_0000_0000;

/// The level is strictly wider than the 16:9 viewport.
pub open spec fn level_wider(px_wid: int, px_hei: int) -> bool {
    ASPECT_RATIO_HEIGHT * px_wid > ASPECT_RATIO_WIDTH * px_hei
}

/// `round(v / m) * m` for a non-negative `v` and positive `m`: the nearest
/// multiple of `m`, halves rounded up.
pub open spec fn round_to_multiple(v: int, m: int) -> int {
    ((v + m / 2) / m) * m
}

/// The fitted viewport width, in pixels: for a wide level, 16/9 of the
/// height rounded to a multiple of 9; otherwise the level width rounded to a
/// multiple of 16.
pub open spec fn viewport_width_px(px_wid: int, px_hei: int) -> int {
    if level_wider(px_wid, px_hei) {
        ((px_hei + 4) / 9) * 16
    } else {
        round_to_multiple(px_wid, 16)
    }
}

/// The fitted viewport height, in pixels: for a wide level, the level height
/// rounded to a multiple of 9; otherwise 9/16 of the width rounded to a
/// multiple of 16.
pub open spec fn viewport_height_px(px_wid: int, px_hei: int) -> int {
    if level_wider(px_wid, px_hei) {
        round_to_multiple(px_hei, 9)
    } else {
        ((px_wid + 8) / 16) * 9
    }
}

/// The rounded viewport does not spill over the level on the axis the camera
/// is clamped along. The clamp demands this (its lower bound must
/// not exceed its upper bound); rounding up can break it only for levels a
/// few pixels away from the aspect ratio boundary.
pub open spec fn viewport_fits(px_wid: int, px_hei: int) -> bool {
    if level_wider(px_wid, px_hei) {
        viewport_width_px(px_wid, px_hei) <= px_wid
    } else {
        viewport_height_px(px_wid, px_hei) <= px_hei
    }
}

/// `v` clamped into `[lo, hi]`.
pub open spec fn clamp_spec(v: int, lo: int, hi: int) -> int
    recommends
        lo <= hi,
{
    if v < lo {
        lo
    } else if v > hi {
        hi
    } else {
        v
    }
}

/// The fitted camera translation along the clamped axis, level-local, in
/// millipixels: the player centered in the viewport, clamped to the level
/// bounds.
pub open spec fn camera_axis_spec(player: int, origin: int, level_px: int, viewport_px: int) -> int {
    clamp_spec(player - origin - 500 * viewport_px, 0, 1000 * level_px - 1000 * viewport_px)
}

/// World-space X of the fitted camera, in millipixels.
pub open spec fn camera_x_spec(player_x: int, level: LevelInfo) -> int {
    if level_wider(level.px_wid as int, level.px_hei as int) {
        level.origin_x + camera_axis_spec(
            player_x,
            level.origin_x as int,
            level.px_wid as int,
            viewport_width_px(level.px_wid as int, level.px_hei as int),
        )
    } else {
        level.origin_x as int
    }
}

/// World-space Y of the fitted camera, in millipixels.
pub open spec fn camera_y_spec(player_y: int, level: LevelInfo) -> int {
    if level_wider(level.px_wid as int, level.px_hei as int) {
        level.origin_y as int
    } else {
        level.origin_y + camera_axis_spec(
            player_y,
            level.origin_y as int,
            level.px_hei as int,
            viewport_height_px(level.px_wid as int, level.px_hei as int),
        )
    }
}

/// `v` clamped into `[lo, hi]`.
fn clamp_i64(v: i64, lo: i64, hi: i64) -> (r: i64)
    requires
        lo <= hi,
    ensures
        r == clamp_spec(v as int, lo as int, hi as int),
{
    if v < lo {
        lo
    } else if v > hi {
        hi
    } else {
        v
    }
}

/// Fits the camera to the currently selected level, once per tick.
///
/// Picks the branch by the level's aspect ratio (strictly wider than 16:9,
/// or not), derives the fixed viewport from the level dimensions, centers
/// the camera on the player along the clamped axis within the level bounds,
/// pins the other axis to the level edge, and translates the result back
/// into world space by the level origin. When no player exists or no level
/// is loaded, the camera is left unmodified: a no-op, not an error.
pub fn camera_fit_inside_current_level(
    player: Option<&crate::player::Player>,
    level: Option<&LevelInfo>,
    camera: &mut CameraState,
)
    requires
        player matches Some(p) ==> (level matches Some(l) ==> {
            &&& -MAX_WORLD_COORD <= p.x <= MAX_WORLD_COORD
            &&& -MAX_WORLD_COORD <= p.y <= MAX_WORLD_COORD
            &&& -MAX_WORLD_COORD <= l.origin_x <= MAX_WORLD_COORD
            &&& -MAX_WORLD_COORD <= l.origin_y <= MAX_WORLD_COORD
            &&& viewport_fits(l.px_wid as int, l.px_hei as int)
        }),
    ensures
        player is None || level is None ==> *final(camera) == *old(camera),
        player matches Some(p) ==> (level matches Some(l) ==> {
            &&& final(camera).origin_top_left
            &&& final(camera).viewport_width == 1000 * viewport_width_px(
                l.px_wid as int,
                l.px_hei as int,
            )
            &&& final(camera).viewport_height == 1000 * viewport_height_px(
                l.px_wid as int,
                l.px_hei as int,
            )
            &&& final(camera).x == camera_x_spec(p.x as int, *l)
            &&& final(camera).y == camera_y_spec(p.y as int, *l)
        }),
{
    let p = match player {
        Some(p) => p,
        None => {
            return ;
        },
    };
    let l = match level {
        Some(l) => l,
        None => {
            return ;
        },
    };
    camera.origin_top_left = true;
    let wid_mpx: i64 = (l.px_wid as i64) * 1000;
    let hei_mpx: i64 = (l.px_hei as i64) * 1000;
    if ASPECT_RATIO_HEIGHT * (l.px_wid as i64) > ASPECT_RATIO_WIDTH * (l.px_hei as i64) {
        // The level is wider than the screen: fit the height, clamp along X.
        let q: i64 = (((l.px_hei as u64) + 4) / 9) as i64;
        let vh_px: i64 = q * 9;
        let vw_px: i64 = q * 16;
        camera.viewport_width = vw_px * 1000;
        camera.viewport_height = vh_px * 1000;
        let local_x = clamp_i64(p.x - l.origin_x - vw_px * 500, 0, wid_mpx - vw_px * 1000);
        camera.x = l.origin_x + local_x;
        camera.y = l.origin_y;
    } else {
        // The level is taller than the screen: fit the width, clamp along Y.
        let q: i64 = (((l.px_wid as u64) + 8) / 16) as i64;
        let vw_px: i64 = q * 16;
        let vh_px: i64 = q * 9;
        camera.viewport_width = vw_px * 1000;
        camera.viewport_height = vh_px * 1000;
        let local_y = clamp_i64(p.y - l.origin_y - vh_px * 500, 0, hei_mpx - vh_px * 1000);
        camera.x = l.origin_x;
        camera.y = l.origin_y + local_y;
    }
}

/// The fit never shows area outside the level along the clamped axis, and
/// the player sits exactly in the middle of the viewport whenever the clamp
/// is not binding.
pub proof fn lemma_camera_fit_in_bounds(player: int, origin: int, level_px: int, viewport_px: int)
    requires
        0 <= viewport_px <= level_px,
    ensures
        0 <= camera_axis_spec(player, origin, level_px, viewport_px),
        camera_axis_spec(player, origin, level_px, viewport_px) + 1000 * viewport_px <= 1000
            * level_px,
        0 <= player - origin - 500 * viewport_px <= 1000 * level_px - 1000 * viewport_px
            ==> camera_axis_spec(player, origin, level_px, viewport_px) + 500 * viewport_px
            == player - origin,
{
}

} // verus!
