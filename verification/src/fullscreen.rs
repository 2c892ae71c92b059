use vstd::prelude::*;

verus! {

/// How the game window is shown.
#[derive(Clone, Copy, PartialEq, Eq, Structural, Debug)]
pub enum ScreenMode {
    Windowed,
    BorderlessFullscreen,
    SizedFullscreen,
    Fullscreen,
}

/// The fullscreen toggle: a window goes borderless fullscreen, any
/// fullscreen mode goes back to a window.
pub fn toggle_screen_mode(mode: ScreenMode) -> (res: ScreenMode)
    ensures
        res == (if mode == ScreenMode::Windowed {
            ScreenMode::BorderlessFullscreen
        } else {
            ScreenMode::Windowed
        }),
{
    match mode {
        ScreenMode::Windowed => ScreenMode::BorderlessFullscreen,
        _ => ScreenMode::Windowed,
    }
}

} // verus!
