use vstd::prelude::*;

verus! {

/// Fewest living neighbours a living cell needs to survive, by default.
pub const DEFAULT_SURVIVE_MIN: u32 = 2;

/// Most living neighbours a living cell may have and survive, by default.
pub const DEFAULT_SURVIVE_MAX: u32 = 3;

/// Fewest living neighbours that bring a dead cell to life, by default.
pub const DEFAULT_RESURRECT_MIN: u32 = 3;

/// Most living neighbours that bring a dead cell to life, by default.
pub const DEFAULT_RESURRECT_MAX: u32 = 3;

/// The survive and resurrect bounds of the game, in living neighbours.
#[derive(Clone, Copy, Debug, PartialEq, Eq, Structural)]
pub struct GameParams {
    pub survive_min: u32,
    pub survive_max: u32,
    pub resurrect_min: u32,
    pub resurrect_max: u32,
}

impl Default for GameParams {
    /// The bounds of Conway's game: a living cell survives with two or three
    /// living neighbours, a dead one comes to life with exactly three.
    fn default() -> (p: GameParams)
        ensures
            p == (GameParams {
                survive_min: 2,
                survive_max: 3,
                resurrect_min: 3,
                resurrect_max: 3,
            }),
    {
        GameParams {
            survive_min: DEFAULT_SURVIVE_MIN,
            survive_max: DEFAULT_SURVIVE_MAX,
            resurrect_min: DEFAULT_RESURRECT_MIN,
            resurrect_max: DEFAULT_RESURRECT_MAX,
        }
    }
}

} // verus!
