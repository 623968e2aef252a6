//! Where the camera looks.

use vstd::prelude::*;

use crate::geometry::{Point, Rect};

verus! {

/// `value` held between `low` and `high`.
pub open spec fn clamped(value: int, low: int, high: int) -> int {
    if value < low {
        low
    } else if value > high {
        high
    } else {
        value
    }
}

/// Where the camera looks along one axis of a room that reaches from `low`
/// to `high`, when the player stands at `player` and the camera sees
/// `view_half` to either side: at the player, but no closer to the walls
/// than it sees; at the origin where the room is narrower than the view.
pub open spec fn camera_axis(low: int, high: int, view_half: int, player: int) -> int {
    if low + view_half > high - view_half {
        0
    } else {
        clamped(player, low + view_half, high - view_half)
    }
}

/// Where the camera looks: at the origin without a player, at the player
/// without a room, and else as close to the player as the room allows.
pub open spec fn camera_target(
    room_rect: Option<Rect>,
    view_half_size: Point,
    player_pos: Option<Point>,
) -> Point {
    match player_pos {
        None => Point { x: 0, y: 0 },
        Some(player) => match room_rect {
            None => player,
            Some(rect) => Point {
                x: camera_axis(
                    rect.min.x as int,
                    rect.max.x as int,
                    view_half_size.x as int,
                    player.x as int,
                ) as i32,
                y: camera_axis(
                    rect.min.y as int,
                    rect.max.y as int,
                    view_half_size.y as int,
                    player.y as int,
                ) as i32,
            },
        },
    }
}

/// Where the camera looks along one axis.
fn follow_axis(low: i32, high: i32, view_half: i32, player: i32) -> (target: i32)
    ensures
        target == camera_axis(low as int, high as int, view_half as int, player as int),
{
    let lowest: i64 = low as i64 + view_half as i64;
    let highest: i64 = high as i64 - view_half as i64;
    if lowest > highest {
        0
    } else if (player as i64) < lowest {
        lowest as i32
    } else if (player as i64) > highest {
        highest as i32
    } else {
        player
    }
}

/// Moves the camera after the player: it looks at the player, but stays
/// within the room as far as the room is wide enough for what it sees.
pub fn follow_player(room_rect: Option<&Rect>, view_half_size: Point, player_pos: Option<Point>) -> (target:
    Point)
    ensures
        target == camera_target(
            match room_rect {
                Some(rect) => Some(*rect),
                None => None,
            },
            view_half_size,
            player_pos,
        ),
{
    match player_pos {
        None => Point { x: 0, y: 0 },
        Some(player) => match room_rect {
            None => player,
            Some(rect) => Point {
                x: follow_axis(rect.min.x, rect.max.x, view_half_size.x, player.x),
                y: follow_axis(rect.min.y, rect.max.y, view_half_size.y, player.y),
            },
        },
    }
}

} // verus!
