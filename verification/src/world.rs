//! World-space rules: clamping the camera to the loaded level, and
//! the draw-depth rule that puts the player behind or in front of
//! scenery. Coordinates are integer world units; draw depth is in
//! half-units.

use vstd::prelude::*;

verus! {

/// Where the camera centre ends up for a player at `player`: the
/// player's coordinate, pulled up to `level_origin + window_half` and
/// then capped at `level_origin + level_size - window_half` (the cap
/// wins when the window is wider than the level).
pub open spec fn spec_clamped_camera(
    player: int,
    level_origin: int,
    level_size: int,
    window_half: int,
) -> int {
    let lo = level_origin + window_half;
    let hi = level_origin + level_size - window_half;
    let raised = if player >= lo {
        player
    } else {
        lo
    };
    if raised <= hi {
        raised
    } else {
        hi
    }
}

/// Clamps one axis of the camera centre to the level, executable
/// form. When the level is at least as wide as the window, the result
/// lies within the playable band.
pub fn clamp_camera(player: i64, level_origin: i64, level_size: i64, window_half: i64) -> (c: i64)
    requires
        0 <= level_size <= 0x4000_0000,
        0 <= window_half <= 0x4000_0000,
        -0x4000_0000 <= level_origin <= 0x4000_0000,
        -0x4000_0000_0000_0000 <= player <= 0x4000_0000_0000_0000,
    ensures
        c == spec_clamped_camera(
            player as int,
            level_origin as int,
            level_size as int,
            window_half as int,
        ),
        2 * window_half <= level_size ==> level_origin + window_half <= c <= level_origin
            + level_size - window_half,
{
    let lo = level_origin + window_half;
    let hi = level_origin + level_size - window_half;
    let raised = if player >= lo {
        player
    } else {
        lo
    };
    if raised <= hi {
        raised
    } else {
        hi
    }
}

/// Draw depth, in half-units, of a piece of scenery the player
/// overlaps: just behind the player when the scenery stands higher on
/// the screen, just in front of the player otherwise.
pub fn scenery_depth(player_y: i64, scenery_y: i64, player_depth: i64) -> (z: i64)
    requires
        -0x4000_0000_0000_0000 <= player_depth <= 0x4000_0000_0000_0000,
    ensures
        z == if scenery_y > player_y {
            player_depth - 1
        } else {
            player_depth + 1
        },
{
    if scenery_y > player_y {
        player_depth - 1
    } else {
        player_depth + 1
    }
}

} // verus!
