use vstd::prelude::*;
use crate::components::{GameData, Player};
use crate::constants::{SCORE_BOMB, SCORE_COIN, SCORE_MUSHROOM};
use crate::states::GameState;

verus! {

/// Progress with `points` more on the score.
pub open spec fn scored(d: GameData, points: int) -> GameData {
    GameData { score: (d.score + points) as u32, ..d }
}

/// A coin is collected, from the level or out of a question block.
pub fn collect_coin(data: &mut GameData)
    requires
        old(data).score + SCORE_COIN <= u32::MAX,
    ensures
        *final(data) == scored(*old(data), SCORE_COIN as int),
{
    data.score = data.score + SCORE_COIN;
}

/// A mushroom is collected: it scores, makes a small player big, and gives
/// a big player an extra life instead.
pub fn collect_mushroom(player: &mut Player, data: &mut GameData)
    requires
        old(data).score + SCORE_MUSHROOM <= u32::MAX,
        old(player).is_big() ==> old(data).lives < i32::MAX,
    ensures
        old(player).is_big() ==> {
            &&& *final(player) == *old(player)
            &&& *final(data) == (GameData {
                lives: (old(data).lives + 1) as i32,
                ..scored(*old(data), SCORE_MUSHROOM as int)
            })
        },
        !old(player).is_big() ==> {
            &&& *final(player) == (Player { hp: 2, ..*old(player) })
            &&& *final(data) == scored(*old(data), SCORE_MUSHROOM as int)
        },
        final(player).is_big(),
{
    data.score = data.score + SCORE_MUSHROOM;
    if player.hp >= 2 {
        data.lives = data.lives + 1;
    } else {
        player.hp = 2;
    }
}

/// The player reaches the level exit: it scores and the level is complete.
pub fn touch_level_exit(data: &mut GameData) -> (next: GameState)
    requires
        old(data).score + SCORE_BOMB <= u32::MAX,
    ensures
        *final(data) == scored(*old(data), SCORE_BOMB as int),
        next == GameState::LevelComplete,
{
    data.score = data.score + SCORE_BOMB;
    GameState::LevelComplete
}

/// The player is at or past the right edge of the level. A level without an
/// exit is then complete, and the level number moves on; a level with an
/// exit must be left through it.
pub fn check_right_edge(data: &mut GameData, at_edge: bool, has_exit: bool) -> (next: Option<
    GameState,
>)
    requires
        at_edge && !has_exit ==> old(data).level < u32::MAX,
    ensures
        at_edge && !has_exit ==> {
            &&& next == Some(GameState::LevelComplete)
            &&& *final(data) == (GameData { level: (old(data).level + 1) as u32, ..*old(data) })
        },
        !(at_edge && !has_exit) ==> next is None && *final(data) == *old(data),
{
    if at_edge && !has_exit {
        data.level = data.level + 1;
        Some(GameState::LevelComplete)
    } else {
        None
    }
}

/// The player bumps a question block from below. An unused block turns used
/// and pops out a coin; a used one does nothing.
pub fn bump_question_block(used: &mut bool) -> (pops_coin: bool)
    ensures
        pops_coin == !*old(used),
        *final(used),
{
    if *used {
        false
    } else {
        *used = true;
        true
    }
}

/// Sprite of a question block: the spent sprite once used, else one of
/// three glowing sprites in turn.
pub fn question_block_sprite(used: bool, tick: usize) -> (res: usize)
    ensures
        res == (if used {
            2
        } else {
            tick % 3
        }),
{
    if used {
        2
    } else {
        tick % 3
    }
}

/// Frame `tick` of a looping animation of `frames` sprites.
pub fn looped_frame(tick: usize, frames: usize) -> (res: usize)
    requires
        frames > 0,
    ensures
        res == tick % frames,
        res < frames,
{
    tick % frames
}

/// A one-shot effect moves to its next sprite; `None` once it has shown
/// all of its `frames` sprites and is removed.
pub fn effect_advance(current: usize, frames: usize) -> (res: Option<usize>)
    requires
        current < usize::MAX,
    ensures
        res == (if current + 1 >= frames {
            None
        } else {
            Some((current + 1) as usize)
        }),
{
    let next = current + 1;
    if next >= frames {
        None
    } else {
        Some(next)
    }
}


/// Scoring adds exactly the points and changes nothing else.
pub proof fn lemma_scoring_adds_points(d: GameData, points: int)
    requires
        0 <= d.score + points <= u32::MAX,
    ensures
        scored(d, points).score == d.score + points,
        scored(d, points).lives == d.lives,
        scored(d, points).level == d.level,
        scored(d, points).highscore == d.highscore,
{
}

} // verus!
