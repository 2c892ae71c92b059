use vstd::prelude::*;
use crate::components::Player;

verus! {

/// What the controls say in one frame.
#[derive(Clone, Copy, PartialEq, Eq, Structural, Debug)]
pub struct Controls {
    /// The player is free to move (not frozen after a hit).
    pub can_move: bool,
    pub left: bool,
    pub right: bool,
    pub jump_held: bool,
    /// A jump press within the last tenth of a second is waiting.
    pub jump_buffered: bool,
    /// The player stands on something after this frame's physics.
    pub grounded: bool,
    /// The player is falling faster than one frame of gravity.
    pub falling: bool,
}

/// What the player's body does in response.
#[derive(Clone, Copy, PartialEq, Eq, Structural, Debug)]
pub struct Motion {
    /// Horizontal direction: -1 left, 1 right, 0 standing.
    pub dir: i8,
    /// A jump starts (and the buffered press is used up).
    pub jump: bool,
}

/// Horizontal direction from the controls: right wins over left.
pub open spec fn input_dir(c: Controls) -> i8 {
    if !c.can_move {
        0
    } else if c.right {
        1
    } else if c.left {
        -1i8
    } else {
        0
    }
}

/// A jump starts when a press is waiting and the player stands and may move.
pub open spec fn input_jump(c: Controls) -> bool {
    c.jump_buffered && c.grounded && c.can_move
}

/// Reads the controls for one frame.
pub fn player_input(player: &mut Player, c: Controls) -> (m: Motion)
    ensures
        m == (Motion { dir: input_dir(c), jump: input_jump(c) }),
        m.jump ==> c.jump_buffered && c.grounded && c.can_move,
        c.jump_buffered && c.grounded && c.can_move ==> m.jump,
        final(player).hp == old(player).hp,
        final(player).holding_jump == c.jump_held,
        final(player).facing_left == (if input_dir(c) == 1 {
            false
        } else if input_dir(c) == -1 {
            true
        } else {
            old(player).facing_left
        }),
        final(player).jumping == (input_jump(c) || c.falling || (!c.grounded
            && old(player).jumping)),
        final(player).springing == (!input_jump(c) && !c.grounded && old(player).springing),
{
    player.holding_jump = c.jump_held;
    let mut dir: i8 = 0;
    if c.can_move {
        if c.left {
            dir = -1;
            player.facing_left = true;
        }
        if c.right {
            dir = 1;
            player.facing_left = false;
        }
    }
    if c.grounded {
        player.jumping = false;
        player.springing = false;
    }
    let jump = c.jump_buffered && c.grounded && c.can_move;
    if jump {
        player.jumping = true;
        player.springing = false;
    }
    if !jump && c.falling {
        player.jumping = true;
    }
    Motion { dir, jump }
}

/// How the player is drawn.
#[derive(Clone, Copy, PartialEq, Eq, Structural, Debug)]
pub struct Look {
    /// Index of the sprite: 0 standing, 0 to 4 walking, 5 jumping, 2 while
    /// blinking after a hit.
    pub sprite: usize,
    /// Drawn and collided at the big size.
    pub big: bool,
    /// Tinted gold (big and not blinking).
    pub golden: bool,
    /// Mirrored to face left.
    pub flip: bool,
}

/// Chooses how to draw the player.
///
/// `moving`: noticeable horizontal speed; `hit_active`: the invincibility
/// after a hit is running; `frame`: the animation clock in whole frames;
/// `walk_tick`: the animation clock in steps of the walk cycle. The player
/// blinks in the first two of every four frames (a negative clock has a
/// non-positive remainder, so it counts as blinking).
pub fn player_animation(
    player: &Player,
    moving: bool,
    hit_active: bool,
    frame: i32,
    walk_tick: usize,
) -> (res: Look)
    ensures
        ({
            let blink = hit_active && (frame < 0 || frame % 4 < 2);
            res == Look {
                sprite: if blink {
                    2
                } else if player.jumping {
                    5
                } else if moving {
                    (walk_tick % 5) as usize
                } else {
                    0
                },
                big: player.hp >= 2,
                golden: !blink && player.hp >= 2,
                flip: player.facing_left,
            }
        }),
{
    let big = player.hp >= 2;
    let blink = hit_active && frame % 4 < 2;
    let sprite = if blink {
        2
    } else if player.jumping {
        5
    } else if moving {
        walk_tick % 5
    } else {
        0
    };
    Look { sprite, big, golden: !blink && big, flip: player.facing_left }
}


/// A jump needs a fresh press: it starts exactly when a press is waiting in
/// the buffer while the player stands and may move. Holding the jump key
/// plays no part, so keeping it held after landing does not jump again,
/// and a waiting press still jumps after the key is let go.
pub proof fn lemma_jump_needs_fresh_press(c: Controls)
    ensures
        input_jump(c) ==> c.jump_buffered,
        input_jump(c) ==> c.grounded && c.can_move,
        c.jump_buffered && c.grounded && c.can_move ==> input_jump(c),
        input_jump(c) == input_jump(Controls { jump_held: !c.jump_held, ..c }),
{
}

/// Walking: a frozen player stands still; otherwise right wins, then left,
/// and with neither the player stands. The jump controls play no part.
pub proof fn lemma_walk_direction(c: Controls)
    ensures
        !c.can_move ==> input_dir(c) == 0,
        c.can_move && c.right ==> input_dir(c) == 1,
        c.can_move && c.left && !c.right ==> input_dir(c) == -1,
        !c.left && !c.right ==> input_dir(c) == 0,
        input_dir(c) == input_dir(
            Controls {
                jump_held: !c.jump_held,
                jump_buffered: !c.jump_buffered,
                grounded: !c.grounded,
                falling: !c.falling,
                ..c
            },
        ),
{
}

} // verus!
