//! The timing and rule settings of a game.

use vstd::prelude::*;

verus! {

/// The settings of a game. Times are in ticks.
#[derive(Copy, Clone, Debug, Hash, Eq, PartialEq, Structural)]
pub struct GameConfig {
    pub spawn_delay: u32,
    pub line_clear_delay: u32,
    pub delayed_auto_shift: u32,
    pub auto_repeat_rate: u32,
    pub soft_drop_speed: u32,
    pub lock_delay: u32,
    /// In hundredths of a tick.
    pub gravity: i32,
    pub next_queue_size: u32,
    pub max_garbage_add: u32,
    pub move_lock_rule: u32,
    pub garbage_blocking: bool,
}

impl GameConfig {
    /// The settings of an ordinary game.
    pub open spec fn standard() -> GameConfig {
        GameConfig {
            spawn_delay: 7,
            line_clear_delay: 35,
            delayed_auto_shift: 9,
            auto_repeat_rate: 2,
            soft_drop_speed: 2,
            lock_delay: 30,
            gravity: 4500,
            next_queue_size: 5,
            max_garbage_add: 10,
            move_lock_rule: 15,
            garbage_blocking: false,
        }
    }

    /// The settings of a game without waiting times: no delay when a piece
    /// enters or a line clears, no delay between repeated shifts and soft
    /// drops, twice the garbage per turn, and garbage that can be blocked.
    pub open spec fn fast() -> GameConfig {
        GameConfig {
            spawn_delay: 0,
            line_clear_delay: 0,
            delayed_auto_shift: 8,
            auto_repeat_rate: 0,
            soft_drop_speed: 0,
            max_garbage_add: 20,
            garbage_blocking: true,
            ..GameConfig::standard()
        }
    }

    /// The settings of a game without waiting times.
    pub fn fast_config() -> (config: GameConfig)
        ensures
            config == GameConfig::fast(),
    {
        GameConfig {
            spawn_delay: 0,
            line_clear_delay: 0,
            delayed_auto_shift: 8,
            auto_repeat_rate: 0,
            soft_drop_speed: 0,
            lock_delay: 30,
            gravity: 4500,
            next_queue_size: 5,
            max_garbage_add: 20,
            move_lock_rule: 15,
            garbage_blocking: true,
        }
    }
}

impl Default for GameConfig {
    fn default() -> (config: GameConfig)
        ensures
            config == GameConfig::standard(),
    {
        GameConfig {
            spawn_delay: 7,
            line_clear_delay: 35,
            delayed_auto_shift: 9,
            auto_repeat_rate: 2,
            soft_drop_speed: 2,
            lock_delay: 30,
            gravity: 4500,
            next_queue_size: 5,
            max_garbage_add: 10,
            move_lock_rule: 15,
            garbage_blocking: false,
        }
    }
}

} // verus!
