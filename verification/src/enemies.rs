use vstd::prelude::*;
use crate::components::{Enemy, EnemyKind, GameData, PipeDwellerState, Player};
use crate::constants::SCORE_STOMP;
use crate::states::GameState;

verus! {

// ── Losing a life ────────────────────────────────────────────────────

/// The player dies: one life is lost, the score is cleared, and the game
/// pauses before the level restarts or the game ends.
pub fn do_player_death(data: &mut GameData) -> (next: GameState)
    requires
        old(data).lives > i32::MIN,
    ensures
        *final(data) == old(data).after_death(),
        next == GameState::DeathPause,
{
    data.lives = data.lives - 1;
    data.score = 0;
    GameState::DeathPause
}

/// The player touches something harmful while not invincible: a big player
/// shrinks, a small one dies.
///
/// Returns the next screen when the player died, `None` when it survived.
pub fn player_hit(player: &mut Player, data: &mut GameData) -> (next: Option<GameState>)
    requires
        old(player).hp > i32::MIN,
        old(player).hp - 1 <= 0 ==> old(data).lives > i32::MIN,
    ensures
        *final(player) == (Player { hp: (old(player).hp - 1) as i32, ..*old(player) }),
        next is Some <==> old(player).hp - 1 <= 0,
        next is Some ==> next == Some(GameState::DeathPause) && *final(data)
            == old(data).after_death(),
        next is None ==> *final(data) == *old(data),
{
    player.hp = player.hp - 1;
    if player.hp <= 0 {
        Some(do_player_death(data))
    } else {
        None
    }
}

// ── Stomping ─────────────────────────────────────────────────────────

/// Points for stomping an enemy of kind `k`: a boss is worth ten stomps.
pub open spec fn stomp_points(k: EnemyKind) -> int {
    if k == EnemyKind::Boss {
        10 * SCORE_STOMP
    } else {
        SCORE_STOMP as int
    }
}

/// An enemy after being stomped: a boss loses a hit point and dies when none
/// are left; anything else dies at once.
pub open spec fn stomped(e: Enemy) -> Enemy {
    if e.kind == EnemyKind::Boss {
        Enemy { hp: (e.hp - 1) as i32, dead: e.dead || e.hp - 1 <= 0, ..e }
    } else {
        Enemy { dead: true, ..e }
    }
}

/// An enemy after `n` stomps.
pub open spec fn stomped_times(e: Enemy, n: nat) -> Enemy
    decreases n,
{
    if n == 0 {
        e
    } else {
        stomped(stomped_times(e, (n - 1) as nat))
    }
}

/// What a stomp did.
#[derive(Clone, Copy, PartialEq, Eq, Structural, Debug)]
pub enum StompResult {
    /// An ordinary enemy was squashed.
    Squashed,
    /// The boss lost a hit point and lives on.
    BossHurt,
    /// The boss lost its last hit point.
    BossDefeated,
}

/// Enemies the player can land on: living ones that are not cannons.
pub fn stompable(e: &Enemy) -> (res: bool)
    ensures
        res == (!e.dead && !e.kind.spec_is_cannon()),
{
    !e.dead && !e.kind.is_cannon()
}

/// The player lands on an enemy: points are scored and the enemy is hurt.
pub fn stomp_enemy(enemy: &mut Enemy, data: &mut GameData) -> (res: StompResult)
    requires
        old(data).score + stomp_points(old(enemy).kind) <= u32::MAX,
        old(enemy).kind == EnemyKind::Boss ==> old(enemy).hp > i32::MIN,
    ensures
        *final(enemy) == stomped(*old(enemy)),
        *final(data) == (GameData {
            score: (old(data).score + stomp_points(old(enemy).kind)) as u32,
            ..*old(data)
        }),
        res == (if old(enemy).kind != EnemyKind::Boss {
            StompResult::Squashed
        } else if old(enemy).hp - 1 <= 0 {
            StompResult::BossDefeated
        } else {
            StompResult::BossHurt
        }),
{
    if enemy.kind == EnemyKind::Boss {
        data.score = data.score + SCORE_STOMP * 10;
        enemy.hp = enemy.hp - 1;
        if enemy.hp <= 0 {
            enemy.dead = true;
            StompResult::BossDefeated
        } else {
            StompResult::BossHurt
        }
    } else {
        data.score = data.score + SCORE_STOMP;
        enemy.dead = true;
        StompResult::Squashed
    }
}

/// A boss goes down on exactly the fifth stomp: after fewer it is alive,
/// after five it is dead.
pub proof fn lemma_boss_falls_on_fifth_stomp(n: nat)
    requires
        n <= 5,
    ensures
        stomped_times(Enemy::spec_new(EnemyKind::Boss), n).hp == 5 - n,
        stomped_times(Enemy::spec_new(EnemyKind::Boss), n).dead <==> n == 5,
    decreases n,
{
    if n > 0 {
        lemma_boss_falls_on_fifth_stomp((n - 1) as nat);
    }
}

/// Any other enemy goes down on the first stomp.
pub proof fn lemma_others_fall_on_first_stomp(e: Enemy)
    requires
        e.kind != EnemyKind::Boss,
    ensures
        stomped(e).dead,
{
}

// ── Enemy behaviour ──────────────────────────────────────────────────

/// What an enemy does in one frame.
#[derive(Clone, Copy, PartialEq, Eq, Structural, Debug)]
pub enum EnemyAction {
    /// Off screen: nothing changes.
    Idle,
    /// A walker keeps walking, turning round first where `reverse`.
    Walk { reverse: bool },
    /// A shooter stands still.
    Hold,
    /// A squidge stands still and fires a shot aimed at the player.
    FireAimed,
    /// A cannon stands still and fires a bullet horizontally towards the player.
    FireStraight,
    /// The boss walks on.
    BossMarch,
    /// The defeated boss stands still while its dying time runs out.
    BossDying,
}

/// Decides what an enemy does in one frame.
///
/// `visible`: the enemy is within a screen width of the camera; `stalled`:
/// it barely moved; `ground_ahead`: there is ground just beyond its leading
/// foot; `reloaded`: its shooting cooldown has run out; `pipe`: the phase of
/// the pipe it lives in, if any.
pub fn enemy_action(
    e: &Enemy,
    visible: bool,
    stalled: bool,
    ground_ahead: bool,
    reloaded: bool,
    pipe: Option<PipeDwellerState>,
) -> (res: EnemyAction)
    ensures
        res == (match e.kind {
            EnemyKind::Boss => if e.dead {
                EnemyAction::BossDying
            } else {
                EnemyAction::BossMarch
            },
            _ => if !visible {
                EnemyAction::Idle
            } else {
                match e.kind {
                    EnemyKind::Squidge => if reloaded {
                        EnemyAction::FireAimed
                    } else {
                        EnemyAction::Hold
                    },
                    EnemyKind::Cannon | EnemyKind::CannonBig | EnemyKind::SmallCannon => if reloaded
                        && (pipe is None || pipe == Some(PipeDwellerState::Out)) {
                        EnemyAction::FireStraight
                    } else {
                        EnemyAction::Hold
                    },
                    _ => EnemyAction::Walk { reverse: stalled || !ground_ahead },
                }
            },
        }),
{
    match e.kind {
        EnemyKind::Boss => {
            if e.dead {
                EnemyAction::BossDying
            } else {
                EnemyAction::BossMarch
            }
        },
        EnemyKind::Squidge => {
            if !visible {
                EnemyAction::Idle
            } else if reloaded {
                EnemyAction::FireAimed
            } else {
                EnemyAction::Hold
            }
        },
        EnemyKind::Cannon | EnemyKind::CannonBig | EnemyKind::SmallCannon => {
            let fully_out = match pipe {
                None => true,
                Some(p) => p == PipeDwellerState::Out,
            };
            if !visible {
                EnemyAction::Idle
            } else if reloaded && fully_out {
                EnemyAction::FireStraight
            } else {
                EnemyAction::Hold
            }
        },
        _ => {
            if !visible {
                EnemyAction::Idle
            } else {
                EnemyAction::Walk { reverse: stalled || !ground_ahead }
            }
        },
    }
}

/// Which sprite of its animation an enemy shows, given its animation clock
/// in frames. A boss that was just hit flashes between its two hurt sprites.
pub fn enemy_sprite(kind: EnemyKind, hurt: bool, frame: usize) -> (res: usize)
    ensures
        res as int == (match kind {
            EnemyKind::Boss => if hurt {
                (frame as int / 4) % 2 + 1
            } else {
                (frame as int / 8) % 2
            },
            EnemyKind::Squidge | EnemyKind::Cannon | EnemyKind::CannonBig
            | EnemyKind::SmallCannon => (frame as int / 12) % 2,
            _ => (frame as int / 8) % 2,
        }),
        res < 3,
{
    match kind {
        EnemyKind::Boss => {
            if hurt {
                (frame / 4) % 2 + 1
            } else {
                (frame / 8) % 2
            }
        },
        EnemyKind::Squidge | EnemyKind::Cannon | EnemyKind::CannonBig | EnemyKind::SmallCannon => {
            (frame / 12) % 2
        },
        _ => (frame / 8) % 2,
    }
}

// ── Pipe dwellers ────────────────────────────────────────────────────

/// The phase that follows `s` in the pipe cycle.
pub open spec fn pipe_successor(s: PipeDwellerState) -> PipeDwellerState {
    match s {
        PipeDwellerState::Hidden => PipeDwellerState::Emerging,
        PipeDwellerState::Emerging => PipeDwellerState::Out,
        PipeDwellerState::Out => PipeDwellerState::Retreating,
        PipeDwellerState::Retreating => PipeDwellerState::Hidden,
    }
}

/// The phase after one frame.
///
/// `timer_expired`: the hidden or out time has run out; `reached_top` and
/// `reached_bottom`: after this frame's movement the dweller is at or past
/// its emerged or hidden height.
pub fn pipe_next(
    s: PipeDwellerState,
    timer_expired: bool,
    reached_top: bool,
    reached_bottom: bool,
) -> (res: PipeDwellerState)
    ensures
        res == (match s {
            PipeDwellerState::Hidden => if timer_expired {
                PipeDwellerState::Emerging
            } else {
                s
            },
            PipeDwellerState::Emerging => if reached_top {
                PipeDwellerState::Out
            } else {
                s
            },
            PipeDwellerState::Out => if timer_expired {
                PipeDwellerState::Retreating
            } else {
                s
            },
            PipeDwellerState::Retreating => if reached_bottom {
                PipeDwellerState::Hidden
            } else {
                s
            },
        }),
        res == s || res == pipe_successor(s),
{
    match s {
        PipeDwellerState::Hidden => if timer_expired {
            PipeDwellerState::Emerging
        } else {
            s
        },
        PipeDwellerState::Emerging => if reached_top {
            PipeDwellerState::Out
        } else {
            s
        },
        PipeDwellerState::Out => if timer_expired {
            PipeDwellerState::Retreating
        } else {
            s
        },
        PipeDwellerState::Retreating => if reached_bottom {
            PipeDwellerState::Hidden
        } else {
            s
        },
    }
}

/// The pipe cycle has period four: four advances bring a dweller back to the
/// phase it started in, and no fewer do.
pub proof fn lemma_pipe_cycle(s: PipeDwellerState)
    ensures
        pipe_successor(pipe_successor(pipe_successor(pipe_successor(s)))) == s,
        pipe_successor(s) != s,
        pipe_successor(pipe_successor(s)) != s,
        pipe_successor(pipe_successor(pipe_successor(s))) != s,
{
}

/// Whether a cannon in a pipe is drawn: never when hidden, always when out,
/// and while moving once it is above its showing height.
pub fn cannon_visible(s: PipeDwellerState, above_show_height: bool) -> (res: bool)
    ensures
        res == (match s {
            PipeDwellerState::Hidden => false,
            PipeDwellerState::Out => true,
            _ => above_show_height,
        }),
{
    match s {
        PipeDwellerState::Hidden => false,
        PipeDwellerState::Out => true,
        _ => above_show_height,
    }
}

/// Whether a plant in a pipe is drawn: whenever it is not hidden.
pub fn plant_visible(s: PipeDwellerState) -> (res: bool)
    ensures
        res == (s != PipeDwellerState::Hidden),
{
    s != PipeDwellerState::Hidden
}


/// A stomp on an ordinary enemy is worth `SCORE_STOMP`, on the boss ten
/// times as much.
pub proof fn lemma_stomp_points(k: EnemyKind)
    ensures
        k != EnemyKind::Boss ==> stomp_points(k) == SCORE_STOMP,
        stomp_points(EnemyKind::Boss) == 10 * stomp_points(EnemyKind::Monster),
        stomp_points(k) > 0,
{
}

/// A stomp never brings a dead enemy back, keeps its kind, costs the boss
/// exactly one hit point (killing it when none are left), and kills any
/// other enemy without touching its hit points.
pub proof fn lemma_stomp_effect(e: Enemy)
    requires
        e.hp > i32::MIN,
    ensures
        stomped(e).kind == e.kind,
        e.dead ==> stomped(e).dead,
        e.kind == EnemyKind::Boss ==> stomped(e).hp == e.hp - 1 && (stomped(e).dead <==> (e.dead
            || e.hp - 1 <= 0)),
        e.kind != EnemyKind::Boss ==> stomped(e).hp == e.hp && stomped(e).dead,
{
}

/// The phases come in the order hidden, emerging, out, retreating, and
/// then hidden again.
pub proof fn lemma_pipe_order()
    ensures
        pipe_successor(PipeDwellerState::Hidden) == PipeDwellerState::Emerging,
        pipe_successor(PipeDwellerState::Emerging) == PipeDwellerState::Out,
        pipe_successor(PipeDwellerState::Out) == PipeDwellerState::Retreating,
        pipe_successor(PipeDwellerState::Retreating) == PipeDwellerState::Hidden,
{
}

} // verus!
