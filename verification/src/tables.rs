//! The rows of the server's tables, as the reducers read and write them.

use vstd::prelude::*;
use crate::identity::{Identity, Timestamp};

verus! {

/// Health of a newly created hero, and its maximum.
pub const STARTING_HEALTH: i32 = 100;

/// A connected player session.
#[derive(Debug, PartialEq, Eq)]
pub struct Player {
    pub identity: Identity,
    pub username: String,
    pub online: bool,
    pub last_seen: Timestamp,
}

/// A hero controlled by a player, the main playable character.
///
/// The position is held as the IEEE-754 bit patterns of its two `f32`
/// coordinates: the reducers only store a position, they never compute with it.
#[derive(Debug, PartialEq, Eq)]
pub struct Hero {
    pub id: u64,
    pub player_identity: Identity,
    pub name: String,
    pub x_bits: u32,
    pub y_bits: u32,
    pub health: i32,
    pub max_health: i32,
    pub fame_local: u32,
    pub fame_city: u32,
    pub fame_realm: u32,
    pub fame_godly: u32,
    pub is_alive: bool,
}

impl Clone for Player {
    fn clone(&self) -> (copy: Player)
        ensures
            copy == *self,
    {
        Player {
            identity: self.identity,
            username: self.username.clone(),
            online: self.online,
            last_seen: self.last_seen,
        }
    }
}

impl Clone for Hero {
    fn clone(&self) -> (copy: Hero)
        ensures
            copy == *self,
    {
        Hero {
            id: self.id,
            player_identity: self.player_identity,
            name: self.name.clone(),
            x_bits: self.x_bits,
            y_bits: self.y_bits,
            health: self.health,
            max_health: self.max_health,
            fame_local: self.fame_local,
            fame_city: self.fame_city,
            fame_realm: self.fame_realm,
            fame_godly: self.fame_godly,
            is_alive: self.is_alive,
        }
    }
}

/// Does `who` own a hero in `heroes` that is still alive?
pub open spec fn owns_living_hero(heroes: Seq<Hero>, who: Identity) -> bool {
    exists|i: int| 0 <= i < heroes.len() && #[trigger] heroes[i].player_identity == who && heroes[i].is_alive
}

/// No player owns two living heroes (permadeath: one hero at a time).
pub open spec fn one_living_hero_each(heroes: Seq<Hero>) -> bool {
    forall|i: int, j: int|
        0 <= i < heroes.len() && 0 <= j < heroes.len() && i != j && heroes[i].is_alive
            && heroes[j].is_alive ==> #[trigger] heroes[i].player_identity != #[trigger] heroes[j].player_identity
}

/// Scans `heroes` for a living hero owned by `who`.
pub fn has_living_hero(heroes: &Vec<Hero>, who: &Identity) -> (found: bool)
    ensures
        found == owns_living_hero(heroes@, *who),
{
    let mut i: usize = 0;
    while i < heroes.len()
        invariant
            i <= heroes@.len(),
            forall|j: int|
                0 <= j < i ==> !(#[trigger] heroes@[j].player_identity == *who && heroes@[j].is_alive),
        decreases heroes@.len() - i,
    {
        if heroes[i].player_identity == *who && heroes[i].is_alive {
            return true;
        }
        i = i + 1;
    }
    false
}

} // verus!
