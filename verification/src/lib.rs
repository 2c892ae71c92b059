//! Game rules of a side-scrolling platformer: level layout from a colour-coded
//! map image, score and lives bookkeeping, enemy and player decisions, and the
//! text of the heads-up display. Rendering, timing and physics live in the
//! application around this library.

pub mod constants;
pub mod components;
pub mod level;
pub mod states;
pub mod enemies;
pub mod items;
pub mod player;
pub mod touch_controls;
pub mod audio;
pub mod fullscreen;
pub mod ui;
