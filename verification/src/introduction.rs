//! Difficulty presets. Each level fixes the speed coefficient, the snake's
//! capacity, and the size of the playing field (a board twice as wide as it
//! is tall, reflecting character-cell aspect ratio).

use vstd::prelude::*;

verus! {

/// A difficulty profile, chosen once before the game starts. The board the
/// snake plays on is `width` cells across and `height` cells down.
pub struct LevelConfig {
    pub speed_coeff: i32,
    pub snake_limit_len: i32,
    pub width: i32,
    pub height: i32,
}

impl LevelConfig {
    /// A usable profile: the board has room for the starting cell, the
    /// capacity admits a snake, and the speed coefficient never slows the
    /// game down as the snake grows.
    pub open spec fn wf(&self) -> bool {
        &&& 2 <= self.width
        &&& 2 <= self.height
        &&& 1 <= self.snake_limit_len
        &&& 0 <= self.speed_coeff
    }

    pub fn easy() -> (c: LevelConfig)
        ensures
            c == (LevelConfig { speed_coeff: 15, snake_limit_len: 10, width: 20, height: 10 }),
            c.wf(),
    {
        LevelConfig { speed_coeff: 15, snake_limit_len: 10, width: 20, height: 10 }
    }

    pub fn medium() -> (c: LevelConfig)
        ensures
            c == (LevelConfig { speed_coeff: 10, snake_limit_len: 30, width: 40, height: 20 }),
            c.wf(),
    {
        LevelConfig { speed_coeff: 10, snake_limit_len: 30, width: 40, height: 20 }
    }

    pub fn hard() -> (c: LevelConfig)
        ensures
            c == (LevelConfig { speed_coeff: 5, snake_limit_len: 50, width: 60, height: 30 }),
            c.wf(),
    {
        LevelConfig { speed_coeff: 5, snake_limit_len: 50, width: 60, height: 30 }
    }

    /// The profile picked by the menu's cursor position: the three presets in
    /// order of rising difficulty.
    pub fn select_level(index: usize) -> (c: LevelConfig)
        requires
            index < 3,
        ensures
            index == 0 ==> c == (LevelConfig {
                speed_coeff: 15,
                snake_limit_len: 10,
                width: 20,
                height: 10,
            }),
            index == 1 ==> c == (LevelConfig {
                speed_coeff: 10,
                snake_limit_len: 30,
                width: 40,
                height: 20,
            }),
            index == 2 ==> c == (LevelConfig {
                speed_coeff: 5,
                snake_limit_len: 50,
                width: 60,
                height: 30,
            }),
            c.wf(),
    {
        if index == 0 {
            LevelConfig::easy()
        } else if index == 1 {
            LevelConfig::medium()
        } else {
            LevelConfig::hard()
        }
    }
}

} // verus!
