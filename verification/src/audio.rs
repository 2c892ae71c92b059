use vstd::prelude::*;

verus! {

/// The background tunes of a level.
#[derive(Clone, Copy, PartialEq, Eq, Structural, Debug)]
pub enum LevelMusic {
    /// The castle tune, for levels from the fifth on.
    Castle,
    /// The main theme.
    Main,
}

/// The tune that plays during a level.
pub fn music_for_level(level: u32) -> (res: LevelMusic)
    ensures
        res == (if level >= 5 {
            LevelMusic::Castle
        } else {
            LevelMusic::Main
        }),
{
    if level >= 5 {
        LevelMusic::Castle
    } else {
        LevelMusic::Main
    }
}

} // verus!
