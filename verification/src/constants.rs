use vstd::prelude::*;

verus! {

/// Points for a collected coin.
pub const SCORE_COIN: u32 = 200;

/// Points for stomping an ordinary enemy (a boss gives ten times as much).
pub const SCORE_STOMP: u32 = 100;

/// Points for a collected mushroom.
pub const SCORE_MUSHROOM: u32 = 1000;

/// Points for touching the level exit.
pub const SCORE_BOMB: u32 = 5000;

/// Lives at the start of a game.
pub const START_LIVES: i32 = 3;

/// Number of distinct levels; completing the last one wraps to the first.
pub const LEVEL_COUNT: u32 = 4;

/// Hit points of the boss.
pub const BOSS_HP: i32 = 5;

} // verus!
