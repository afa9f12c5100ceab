//! Immutable per-match parameters, received once at handshake, and the
//! geometric queries derived from them.

use vstd::prelude::*;

use crate::util::Vec2;

verus! {

/// Players per team. Player identifiers run over `[0, 2 * NUM_PLAYERS)`:
/// the low half is one team, the high half the other.
pub const NUM_PLAYERS: u32 = 4;

/// Ball physics parameters.
#[derive(Clone, Copy, PartialEq, Eq, Structural, Debug)]
pub struct BallConfig {
    pub friction: i64,
    pub radius: i64,
    pub capture_ticks: u32,
    pub stagnation_radius: i64,
    pub stagnation_ticks: u32,
}

/// Player physics parameters.
#[derive(Clone, Copy, PartialEq, Eq, Structural, Debug)]
pub struct PlayerConfig {
    pub radius: i64,
    pub pickup_radius: i64,
    pub speed: i64,
    pub pass_speed: i64,
    pub pass_error: i64,
    pub possession_slowdown: i64,
}

/// Field size in absolute coordinates.
#[derive(Clone, Copy, PartialEq, Eq, Structural, Debug)]
pub struct FieldConfig {
    pub width: u32,
    pub height: u32,
}

/// Goal geometry.
#[derive(Clone, Copy, PartialEq, Eq, Structural, Debug)]
pub struct GoalConfig {
    pub normal_height: u32,
    pub thickness: u32,
    pub penalty_box_width: u32,
    pub penalty_box_height: u32,
    pub penalty_box_radius: u32,
}

/// The full per-match configuration.
#[derive(Clone, Copy, PartialEq, Eq, Structural, Debug)]
pub struct GameConfig {
    pub max_ticks: u32,
    pub endgame_ticks: u32,
    pub spawn_ball_dist: i64,
    pub ball: BallConfig,
    pub player: PlayerConfig,
    pub field: FieldConfig,
    pub goal: GoalConfig,
}

impl GoalConfig {
    /// The goal opening at a given tick: the normal opening during regular
    /// play, the penalty-box opening once the match has passed `max_ticks`.
    pub fn current_height(&self, conf: &GameConfig, tick: u32) -> (h: u32)
        ensures
            h == (if tick <= conf.max_ticks {
                self.normal_height
            } else {
                self.penalty_box_height
            }),
    {
        if tick <= conf.max_ticks {
            self.normal_height
        } else {
            self.penalty_box_height
        }
    }
}

impl FieldConfig {
    /// The field's center point, rounded down on odd extents.
    pub fn center(&self) -> (c: Vec2)
        ensures
            c.x == self.width / 2,
            c.y == self.height / 2,
    {
        Vec2 { x: (self.width / 2) as i64, y: (self.height / 2) as i64 }
    }

    /// The corner opposite the origin.
    pub fn bottom_right(&self) -> (c: Vec2)
        ensures
            c.x == self.width,
            c.y == self.height,
    {
        Vec2 { x: self.width as i64, y: self.height as i64 }
    }

    /// The midpoint of the goal the bot defends, on the canonical side.
    pub fn goal_self(&self) -> (c: Vec2)
        ensures
            c.x == 0,
            c.y == self.height / 2,
    {
        Vec2 { x: 0, y: (self.height / 2) as i64 }
    }

    /// The midpoint of the goal the bot attacks.
    pub fn goal_other(&self) -> (c: Vec2)
        ensures
            c.x == self.width,
            c.y == self.height / 2,
    {
        Vec2 { x: self.width as i64, y: (self.height / 2) as i64 }
    }
}

} // verus!
