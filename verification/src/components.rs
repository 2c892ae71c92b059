use vstd::prelude::*;
use crate::constants::{BOSS_HP, START_LIVES};

verus! {

/// The kinds of enemies a level can hold.
#[derive(Clone, Copy, PartialEq, Eq, Structural, Debug)]
pub enum EnemyKind {
    Monster,
    Slub,
    Squidge,
    MonsterRed,
    Cannon,
    CannonBig,
    SmallCannon,
    Boss,
}

impl EnemyKind {
    pub open spec fn spec_is_cannon(self) -> bool {
        self == EnemyKind::Cannon || self == EnemyKind::CannonBig || self == EnemyKind::SmallCannon
    }

    /// Cannons sit in pipes: they can be neither stomped nor touched harmfully.
    pub fn is_cannon(&self) -> (res: bool)
        ensures
            res == self.spec_is_cannon(),
    {
        match self {
            EnemyKind::Cannon | EnemyKind::CannonBig | EnemyKind::SmallCannon => true,
            _ => false,
        }
    }
}


/// A living enemy: what kind it is, its hit points and whether it is dead.
#[derive(Clone, Copy, PartialEq, Eq, Structural, Debug)]
pub struct Enemy {
    pub kind: EnemyKind,
    pub hp: i32,
    pub dead: bool,
}

impl Enemy {
    /// A fresh enemy: the boss has `BOSS_HP` hit points, everything else one.
    pub open spec fn spec_new(kind: EnemyKind) -> Enemy {
        Enemy { kind, hp: if kind == EnemyKind::Boss { BOSS_HP } else { 1 }, dead: false }
    }

    /// A fresh enemy of the given kind.
    pub fn new(kind: EnemyKind) -> (res: Enemy)
        ensures
            res == Enemy::spec_new(kind),
    {
        let hp = if kind == EnemyKind::Boss {
            BOSS_HP
        } else {
            1
        };
        Enemy { kind, hp, dead: false }
    }
}

/// The player's state beyond position, speed and timers.
#[derive(Clone, Copy, PartialEq, Eq, Structural, Debug)]
pub struct Player {
    /// Facing left (else right).
    pub facing_left: bool,
    /// In the air after a jump or a fall.
    pub jumping: bool,
    /// Hit points: 1 is small, 2 is big.
    pub hp: i32,
    /// The jump button is held down.
    pub holding_jump: bool,
    /// Launched by a spring.
    pub springing: bool,
}

impl Player {
    /// A small player facing right, on the ground.
    pub open spec fn spec_default() -> Player {
        Player { facing_left: false, jumping: false, hp: 1, holding_jump: false, springing: false }
    }

    /// A big player: one hit only shrinks it.
    pub open spec fn is_big(self) -> bool {
        self.hp >= 2
    }
}

impl Default for Player {
    fn default() -> (res: Player)
        ensures
            res == Player::spec_default(),
    {
        Player { facing_left: false, jumping: false, hp: 1, holding_jump: false, springing: false }
    }
}

/// Phases of an enemy or plant that lives in a pipe.
#[derive(Clone, Copy, PartialEq, Eq, Structural, Debug)]
pub enum PipeDwellerState {
    Hidden,
    Emerging,
    Out,
    Retreating,
}

/// Sounds the game plays.
#[derive(Clone, Copy, PartialEq, Eq, Structural, Debug)]
pub enum SoundEvent {
    Jump,
    Coin,
    Stomp,
    Death,
    Up,
}

/// Input from the on-screen buttons.
#[derive(Clone, Copy, PartialEq, Eq, Structural, Debug)]
pub struct VirtualInput {
    pub left: bool,
    pub right: bool,
    pub jump: bool,
    /// The jump button went down in this frame.
    pub jump_just: bool,
}

impl Default for VirtualInput {
    fn default() -> (res: VirtualInput)
        ensures
            res == (VirtualInput { left: false, right: false, jump: false, jump_just: false }),
    {
        VirtualInput { left: false, right: false, jump: false, jump_just: false }
    }
}

/// Progress through a game. The level clock, a real-time quantity, is kept
/// beside it by the application.
#[derive(Clone, Copy, PartialEq, Eq, Structural, Debug)]
pub struct GameData {
    pub score: u32,
    pub highscore: u32,
    pub lives: i32,
    pub level: u32,
}

impl GameData {
    /// Progress at the start of a game: no points, three lives, level one.
    pub open spec fn spec_new_game() -> GameData {
        GameData { score: 0, highscore: 0, lives: START_LIVES, level: 1 }
    }

    /// Progress after the player dies: one life less and the score gone.
    pub open spec fn after_death(self) -> GameData {
        GameData { lives: (self.lives - 1) as i32, score: 0, ..self }
    }

    /// Progress at the start of a game.
    pub fn new_game() -> (res: GameData)
        ensures
            res == GameData::spec_new_game(),
    {
        GameData { score: 0, highscore: 0, lives: START_LIVES, level: 1 }
    }
}


/// A death costs exactly one life and the whole score, and nothing else:
/// the level and the high score stay.
pub proof fn lemma_death_costs_one_life(d: GameData)
    requires
        d.lives > i32::MIN,
    ensures
        d.after_death().lives == d.lives - 1,
        d.after_death().score == 0,
        d.after_death().level == d.level,
        d.after_death().highscore == d.highscore,
{
}

/// A game starts on the first level with no points and `START_LIVES`
/// lives.
pub proof fn lemma_new_game()
    ensures
        GameData::spec_new_game().score == 0,
        GameData::spec_new_game().highscore == 0,
        GameData::spec_new_game().lives == START_LIVES,
        GameData::spec_new_game().level == 1,
{
}

/// A fresh enemy is alive; the boss has `BOSS_HP` hit points and every
/// other kind one, so only the boss survives a first hit.
pub proof fn lemma_fresh_enemy(kind: EnemyKind)
    ensures
        !Enemy::spec_new(kind).dead,
        Enemy::spec_new(kind).kind == kind,
        kind == EnemyKind::Boss ==> Enemy::spec_new(kind).hp == BOSS_HP,
        kind != EnemyKind::Boss ==> Enemy::spec_new(kind).hp == 1,
{
}

/// A new player is small (one hit point), faces right and stands on the
/// ground without holding jump.
pub proof fn lemma_fresh_player()
    ensures
        Player::spec_default().hp == 1,
        !Player::spec_default().is_big(),
        !Player::spec_default().facing_left,
        !Player::spec_default().jumping,
        !Player::spec_default().springing,
        !Player::spec_default().holding_jump,
{
}

} // verus!
