//! Counters of a session.

use vstd::prelude::*;

verus! {

/// What happened to the villagers, and how many entities were spawned.
#[derive(Clone, Copy, Debug, PartialEq, Eq, Structural)]
pub struct GameStats {
    pub villagers_saved: i32,
    pub villagers_lost: i32,
    pub entites_spawned: i32,
}

impl Default for GameStats {
    fn default() -> (s: GameStats)
        ensures
            s == (GameStats { villagers_saved: 0, villagers_lost: 0, entites_spawned: 0 }),
    {
        GameStats { villagers_saved: 0, villagers_lost: 0, entites_spawned: 0 }
    }
}

/// Whether the flags of a collision that started mark an attack: the lowest
/// bit is set.
pub open spec fn attack_flags(flags: u32) -> bool {
    flags & 1 == 1
}

pub fn is_attack(flags: u32) -> (b: bool)
    ensures
        b == attack_flags(flags),
{
    flags & 1 == 1
}

} // verus!
