use rusty_mario::components::{Enemy, EnemyKind, GameData, PipeDwellerState, Player};
use rusty_mario::enemies::{
    cannon_visible, do_player_death, enemy_action, enemy_sprite, pipe_next, plant_visible,
    player_hit, stomp_enemy, stompable, EnemyAction, StompResult,
};
use rusty_mario::items::{
    bump_question_block, check_right_edge, collect_coin, collect_mushroom, effect_advance,
    looped_frame, question_block_sprite, touch_level_exit,
};
use rusty_mario::states::GameState;
use rusty_mario::ui::{advance_level, death_pause_over, game_over_restart, main_menu_start};

fn data(score: u32, lives: i32, level: u32) -> GameData {
    GameData { score, highscore: 7, lives, level }
}

#[test]
fn death_costs_a_life_and_the_score() {
    let mut d = data(1500, 3, 2);
    assert_eq!(do_player_death(&mut d), GameState::DeathPause);
    assert_eq!(d, GameData { score: 0, highscore: 7, lives: 2, level: 2 });
}

#[test]
fn three_lives_then_game_over() {
    let mut d = GameData::new_game();
    assert_eq!(d, GameData { score: 0, highscore: 0, lives: 3, level: 1 });
    do_player_death(&mut d);
    assert_eq!(death_pause_over(&d), GameState::Playing);
    do_player_death(&mut d);
    assert_eq!(death_pause_over(&d), GameState::Playing);
    do_player_death(&mut d);
    assert_eq!(death_pause_over(&d), GameState::GameOver);
}

#[test]
fn big_player_shrinks_small_player_dies() {
    let mut d = data(300, 2, 1);
    let mut p = Player { hp: 2, ..Player::default() };
    assert_eq!(player_hit(&mut p, &mut d), None);
    assert_eq!(p.hp, 1);
    assert_eq!(d, data(300, 2, 1));
    assert_eq!(player_hit(&mut p, &mut d), Some(GameState::DeathPause));
    assert_eq!(p.hp, 0);
    assert_eq!(d, data(0, 1, 1));
}

#[test]
fn boss_falls_on_fifth_stomp() {
    let mut boss = Enemy::new(EnemyKind::Boss);
    assert_eq!(boss.hp, 5);
    let mut d = data(0, 3, 4);
    for i in 0..4 {
        assert_eq!(stomp_enemy(&mut boss, &mut d), StompResult::BossHurt);
        assert_eq!(boss.hp, 4 - i);
        assert!(!boss.dead);
    }
    assert_eq!(stomp_enemy(&mut boss, &mut d), StompResult::BossDefeated);
    assert!(boss.dead);
    assert_eq!(d.score, 5000);
}

#[test]
fn ordinary_enemy_is_squashed_at_once() {
    let mut e = Enemy::new(EnemyKind::Slub);
    assert_eq!(e.hp, 1);
    let mut d = data(50, 3, 1);
    assert!(stompable(&e));
    assert_eq!(stomp_enemy(&mut e, &mut d), StompResult::Squashed);
    assert!(e.dead);
    assert_eq!(d.score, 150);
    assert!(!stompable(&e));
    assert!(!stompable(&Enemy::new(EnemyKind::SmallCannon)));
}

#[test]
fn enemy_decisions() {
    let walker = Enemy::new(EnemyKind::Monster);
    assert_eq!(enemy_action(&walker, false, true, false, true, None), EnemyAction::Idle);
    assert_eq!(enemy_action(&walker, true, false, true, true, None), EnemyAction::Walk { reverse: false });
    assert_eq!(enemy_action(&walker, true, false, false, true, None), EnemyAction::Walk { reverse: true });
    assert_eq!(enemy_action(&walker, true, true, true, true, None), EnemyAction::Walk { reverse: true });

    let squidge = Enemy::new(EnemyKind::Squidge);
    assert_eq!(enemy_action(&squidge, true, false, false, true, None), EnemyAction::FireAimed);
    assert_eq!(enemy_action(&squidge, true, false, false, false, None), EnemyAction::Hold);

    let cannon = Enemy::new(EnemyKind::Cannon);
    assert_eq!(
        enemy_action(&cannon, true, false, false, true, Some(PipeDwellerState::Emerging)),
        EnemyAction::Hold
    );
    assert_eq!(
        enemy_action(&cannon, true, false, false, true, Some(PipeDwellerState::Out)),
        EnemyAction::FireStraight
    );
    assert_eq!(enemy_action(&cannon, true, false, false, true, None), EnemyAction::FireStraight);

    let mut boss = Enemy::new(EnemyKind::Boss);
    assert_eq!(enemy_action(&boss, false, false, false, false, None), EnemyAction::BossMarch);
    boss.dead = true;
    assert_eq!(enemy_action(&boss, true, false, false, false, None), EnemyAction::BossDying);
}

#[test]
fn enemy_sprites() {
    assert_eq!(enemy_sprite(EnemyKind::Monster, false, 15), 1);
    assert_eq!(enemy_sprite(EnemyKind::Monster, false, 16), 0);
    assert_eq!(enemy_sprite(EnemyKind::Cannon, false, 12), 1);
    assert_eq!(enemy_sprite(EnemyKind::Boss, true, 4), 2);
    assert_eq!(enemy_sprite(EnemyKind::Boss, true, 8), 1);
}

#[test]
fn pipe_cycle() {
    let mut s = PipeDwellerState::Hidden;
    s = pipe_next(s, false, true, true);
    assert_eq!(s, PipeDwellerState::Hidden);
    s = pipe_next(s, true, false, false);
    assert_eq!(s, PipeDwellerState::Emerging);
    s = pipe_next(s, true, false, false);
    assert_eq!(s, PipeDwellerState::Emerging);
    s = pipe_next(s, false, true, false);
    assert_eq!(s, PipeDwellerState::Out);
    s = pipe_next(s, true, false, false);
    assert_eq!(s, PipeDwellerState::Retreating);
    s = pipe_next(s, false, false, true);
    assert_eq!(s, PipeDwellerState::Hidden);
    assert!(!cannon_visible(PipeDwellerState::Hidden, true));
    assert!(cannon_visible(PipeDwellerState::Out, false));
    assert!(!cannon_visible(PipeDwellerState::Emerging, false));
    assert!(plant_visible(PipeDwellerState::Retreating));
    assert!(!plant_visible(PipeDwellerState::Hidden));
}

#[test]
fn collecting_items() {
    let mut d = data(0, 3, 1);
    collect_coin(&mut d);
    assert_eq!(d.score, 200);

    let mut small = Player::default();
    collect_mushroom(&mut small, &mut d);
    assert_eq!(small.hp, 2);
    assert_eq!((d.score, d.lives), (1200, 3));
    collect_mushroom(&mut small, &mut d);
    assert_eq!(small.hp, 2);
    assert_eq!((d.score, d.lives), (2200, 4));

    assert_eq!(touch_level_exit(&mut d), GameState::LevelComplete);
    assert_eq!(d.score, 7200);
}

#[test]
fn right_edge_completes_only_levels_without_exit() {
    let mut d = data(10, 3, 2);
    assert_eq!(check_right_edge(&mut d, true, true), None);
    assert_eq!(check_right_edge(&mut d, false, false), None);
    assert_eq!(d.level, 2);
    assert_eq!(check_right_edge(&mut d, true, false), Some(GameState::LevelComplete));
    assert_eq!(d.level, 3);
}

#[test]
fn question_blocks_and_effects() {
    let mut used = false;
    assert!(bump_question_block(&mut used));
    assert!(used);
    assert!(!bump_question_block(&mut used));
    assert_eq!(question_block_sprite(true, 7), 2);
    assert_eq!(question_block_sprite(false, 7), 1);
    assert_eq!(looped_frame(9, 4), 1);
    assert_eq!(effect_advance(0, 3), Some(1));
    assert_eq!(effect_advance(2, 3), None);
}

#[test]
fn screens_and_levels() {
    let mut d = data(900, 0, 3);
    assert_eq!(main_menu_start(&mut d), GameState::Playing);
    assert_eq!(d, GameData::new_game());

    let mut d = data(900, -1, 3);
    assert_eq!(game_over_restart(&mut d), GameState::Playing);
    assert_eq!(d, GameData { score: 0, highscore: 7, lives: 3, level: 1 });

    let mut d = data(0, 3, 1);
    let mut seen = Vec::new();
    for _ in 0..5 {
        advance_level(&mut d);
        seen.push(d.level);
    }
    assert_eq!(seen, vec![2, 3, 4, 1, 2]);
    let mut d = data(0, 3, 9);
    advance_level(&mut d);
    assert_eq!(d.level, 1);
}
