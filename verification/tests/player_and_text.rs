use rusty_mario::audio::{music_for_level, LevelMusic};
use rusty_mario::components::{Player, VirtualInput};
use rusty_mario::fullscreen::{toggle_screen_mode, ScreenMode};
use rusty_mario::player::{player_animation, player_input, Controls, Motion};
use rusty_mario::touch_controls::{rising_edge, update_virtual_input, TouchButton};
use rusty_mario::ui::{
    death_lives_label, death_title, lives_label, next_world_label, score_label, time_label,
    world_label,
};

fn controls() -> Controls {
    Controls {
        can_move: true,
        left: false,
        right: false,
        jump_held: false,
        jump_buffered: false,
        grounded: true,
        falling: false,
    }
}

#[test]
fn right_wins_over_left() {
    let mut p = Player::default();
    let m = player_input(&mut p, Controls { left: true, right: true, ..controls() });
    assert_eq!(m, Motion { dir: 1, jump: false });
    assert!(!p.facing_left);
    let m = player_input(&mut p, Controls { left: true, ..controls() });
    assert_eq!(m.dir, -1);
    assert!(p.facing_left);
    let m = player_input(&mut p, Controls { can_move: false, right: true, ..controls() });
    assert_eq!(m.dir, 0);
    assert!(p.facing_left);
}

#[test]
fn buffered_jump_fires_on_the_ground() {
    let mut p = Player::default();
    let m = player_input(&mut p, Controls { jump_buffered: true, jump_held: true, ..controls() });
    assert!(m.jump);
    assert!(p.jumping && p.holding_jump);
    let m = player_input(&mut p, Controls { jump_buffered: true, grounded: false, ..controls() });
    assert!(!m.jump);
    assert!(p.jumping);
    let m = player_input(&mut p, controls());
    assert!(!m.jump);
    assert!(!p.jumping);
    player_input(&mut p, Controls { grounded: false, falling: true, ..controls() });
    assert!(p.jumping);
}

#[test]
fn player_looks() {
    let small = Player::default();
    let look = player_animation(&small, false, false, 0, 0);
    assert_eq!((look.sprite, look.big, look.golden, look.flip), (0, false, false, false));
    assert_eq!(player_animation(&small, true, false, 3, 7).sprite, 2);
    let big = Player { hp: 2, jumping: true, facing_left: true, ..Player::default() };
    let look = player_animation(&big, true, false, 0, 0);
    assert_eq!((look.sprite, look.big, look.golden, look.flip), (5, true, true, true));
    let look = player_animation(&big, true, true, 1, 0);
    assert_eq!((look.sprite, look.golden), (2, false));
    let look = player_animation(&big, true, true, 2, 0);
    assert_eq!(look.sprite, 5);
}

#[test]
fn touch_buttons() {
    let mut vi = VirtualInput::default();
    let buttons = vec![(TouchButton::Left, true), (TouchButton::Jump, true), (TouchButton::Right, false)];
    let held = update_virtual_input(&mut vi, &buttons, false);
    assert!(held);
    assert_eq!(vi, VirtualInput { left: true, right: false, jump: true, jump_just: true });
    let held = update_virtual_input(&mut vi, &buttons, held);
    assert!(held);
    assert!(!vi.jump_just);
    let twice = vec![(TouchButton::Jump, true), (TouchButton::Jump, false)];
    update_virtual_input(&mut vi, &twice, false);
    assert!(!vi.jump && !vi.jump_just && !vi.left);
    assert!(rising_edge(true, false));
    assert!(!rising_edge(true, true));
}

#[test]
fn hud_text() {
    assert_eq!(score_label(42), "Score: 00042");
    assert_eq!(score_label(0), "Score: 00000");
    assert_eq!(score_label(1234567), "Score: 1234567");
    assert_eq!(score_label(u32::MAX), "Score: 4294967295");
    assert_eq!(lives_label(3), "x3");
    assert_eq!(lives_label(-2), "x0");
    assert_eq!(world_label(4), "World 1-4");
    assert_eq!(next_world_label(12), "Next: World 1-12");
    assert_eq!(time_label(400), "Time: 400");
    assert_eq!(time_label(-5), "Time: -5");
    assert_eq!(time_label(i32::MIN), "Time: -2147483648");
    assert_eq!(death_lives_label(0), "Lives: 0");
    assert_eq!(death_title(1), "YOU DIED");
    assert_eq!(death_title(0), "GAME OVER");
}

#[test]
fn music_and_screen_mode() {
    assert_eq!(music_for_level(4), LevelMusic::Main);
    assert_eq!(music_for_level(5), LevelMusic::Castle);
    assert_eq!(toggle_screen_mode(ScreenMode::Windowed), ScreenMode::BorderlessFullscreen);
    assert_eq!(toggle_screen_mode(ScreenMode::Fullscreen), ScreenMode::Windowed);
}
