//! The server's reducers. Each takes what the reducer read from the tables
//! and returns the row to write, or the error that the caller is answered with.

use vstd::prelude::*;
use crate::identity::{identity_hex, Identity, Timestamp};
use crate::tables::{has_living_hero, one_living_hero_each, owns_living_hero, Hero, Player, STARTING_HEALTH};

verus! {

/// Why a reducer refused a request.
#[derive(Clone, Copy, Debug, PartialEq, Eq, Structural)]
pub enum ReducerError {
    /// `create_hero` was called by a client that has no player row.
    PlayerNotFound,
    /// `create_hero` was called by a player whose hero is still alive.
    LivingHeroExists,
    /// `move_hero` named a hero id that is not in the table.
    HeroNotFound,
    /// `move_hero` named a hero that belongs to another player.
    NotHeroOwner,
    /// `move_hero` named a hero that is dead.
    HeroIsDead,
}

impl ReducerError {
    /// The text that the client is answered with.
    pub open spec fn text(self) -> Seq<char> {
        match self {
            ReducerError::PlayerNotFound => "Player not found. Connect first."@,
            ReducerError::LivingHeroExists => "You already have a living hero. Permadeath rules apply."@,
            ReducerError::HeroNotFound => "Hero not found"@,
            ReducerError::NotHeroOwner => "You do not own this hero"@,
            ReducerError::HeroIsDead => "Cannot move a dead hero"@,
        }
    }

    /// The text that the client is answered with.
    pub fn message(&self) -> (msg: String)
        ensures
            msg@ == self.text(),
    {
        match self {
            ReducerError::PlayerNotFound => String::from_str("Player not found. Connect first."),
            ReducerError::LivingHeroExists => String::from_str(
                "You already have a living hero. Permadeath rules apply.",
            ),
            ReducerError::HeroNotFound => String::from_str("Hero not found"),
            ReducerError::NotHeroOwner => String::from_str("You do not own this hero"),
            ReducerError::HeroIsDead => String::from_str("Cannot move a dead hero"),
        }
    }
}

/// The write that `on_connect` makes to the player table.
#[derive(Debug, PartialEq, Eq)]
pub enum PlayerWrite {
    /// A new row for a client seen for the first time.
    Insert(Player),
    /// The updated row of a returning player.
    Update(Player),
}

/// The name given to a new player: `Player_` and the first eight hexadecimal
/// digits of its identity.
pub open spec fn default_username(identity: Identity) -> Seq<char> {
    seq!['P', 'l', 'a', 'y', 'e', 'r', '_'] + identity.hex().take(8)
}

/// A player row marked online at `now`.
pub open spec fn connected(player: Player, now: Timestamp) -> Player {
    Player { online: true, last_seen: now, ..player }
}

/// A player row marked offline at `now`.
pub open spec fn disconnected(player: Player, now: Timestamp) -> Player {
    Player { online: false, last_seen: now, ..player }
}

/// The hero that `create_hero` writes; its id is left at zero for the table
/// to assign.
pub open spec fn fresh_hero(owner: Identity, name: String) -> Hero {
    Hero {
        id: 0,
        player_identity: owner,
        name: name,
        x_bits: 0,
        y_bits: 0,
        health: STARTING_HEALTH,
        max_health: STARTING_HEALTH,
        fame_local: 0,
        fame_city: 0,
        fame_realm: 0,
        fame_godly: 0,
        is_alive: true,
    }
}

/// What `create_hero` answers.
pub open spec fn create_hero_outcome(
    sender: Identity,
    player_found: bool,
    heroes: Seq<Hero>,
    name: String,
) -> Result<Hero, ReducerError> {
    if !player_found {
        Err(ReducerError::PlayerNotFound)
    } else if owns_living_hero(heroes, sender) {
        Err(ReducerError::LivingHeroExists)
    } else {
        Ok(fresh_hero(sender, name))
    }
}

/// A hero standing at a new position, all else unchanged.
pub open spec fn moved(hero: Hero, x_bits: u32, y_bits: u32) -> Hero {
    Hero { x_bits: x_bits, y_bits: y_bits, ..hero }
}

/// What `move_hero` answers.
pub open spec fn move_hero_outcome(
    sender: Identity,
    found: Option<Hero>,
    x_bits: u32,
    y_bits: u32,
) -> Result<Hero, ReducerError> {
    match found {
        None => Err(ReducerError::HeroNotFound),
        Some(hero) => if hero.player_identity != sender {
            Err(ReducerError::NotHeroOwner)
        } else if !hero.is_alive {
            Err(ReducerError::HeroIsDead)
        } else {
            Ok(moved(hero, x_bits, y_bits))
        },
    }
}

/// A client connected: a returning player is marked online at `now`; a new
/// client gets a player row named after its identity.
pub fn on_connect(sender: Identity, now: Timestamp, existing: Option<Player>) -> (write: PlayerWrite)
    ensures
        match existing {
            Some(player) => write == PlayerWrite::Update(connected(player, now)),
            None => write matches PlayerWrite::Insert(row) && row.identity == sender
                && row.username@ == default_username(sender) && row.online && row.last_seen == now,
        },
{
    match existing {
        Some(player) => {
            let mut player = player;
            player.online = true;
            player.last_seen = now;
            PlayerWrite::Update(player)
        },
        None => {
            let hex = identity_hex(&sender);
            let prefix = hex.as_str().substring_char(0, 8);
            let mut username = String::from_str("Player_");
            proof {
                reveal_strlit("Player_");
            }
            username.append(prefix);
            PlayerWrite::Insert(Player { identity: sender, username, online: true, last_seen: now })
        },
    }
}

/// A client disconnected: its player row, if any, is marked offline at `now`.
pub fn on_disconnect(now: Timestamp, existing: Option<Player>) -> (update: Option<Player>)
    ensures
        match existing {
            Some(player) => update == Some(disconnected(player, now)),
            None => update.is_none(),
        },
{
    match existing {
        Some(player) => {
            let mut player = player;
            player.online = false;
            player.last_seen = now;
            Some(player)
        },
        None => None,
    }
}

/// Creates a hero for the calling player, unless it has no player row or
/// still has a living hero.
pub fn create_hero(sender: Identity, player: &Option<Player>, heroes: &Vec<Hero>, name: String) -> (created: Result<Hero, ReducerError>)
    ensures
        created == create_hero_outcome(sender, player.is_some(), heroes@, name),
{
    if player.is_none() {
        return Err(ReducerError::PlayerNotFound);
    }
    if has_living_hero(heroes, &sender) {
        return Err(ReducerError::LivingHeroExists);
    }
    Ok(Hero {
        id: 0,
        player_identity: sender,
        name,
        x_bits: 0,
        y_bits: 0,
        health: STARTING_HEALTH,
        max_health: STARTING_HEALTH,
        fame_local: 0,
        fame_city: 0,
        fame_realm: 0,
        fame_godly: 0,
        is_alive: true,
    })
}

/// Moves the calling player's hero, if it found it, owns it and it lives.
pub fn move_hero(sender: Identity, found: Option<Hero>, x_bits: u32, y_bits: u32) -> (result: Result<Hero, ReducerError>)
    ensures
        result == move_hero_outcome(sender, found, x_bits, y_bits),
{
    match found {
        None => Err(ReducerError::HeroNotFound),
        Some(hero) => {
            if hero.player_identity != sender {
                return Err(ReducerError::NotHeroOwner);
            }
            if !hero.is_alive {
                return Err(ReducerError::HeroIsDead);
            }
            let mut hero = hero;
            hero.x_bits = x_bits;
            hero.y_bits = y_bits;
            Ok(hero)
        },
    }
}

/// Permadeath: while a player's hero lives, `create_hero` refuses to make it
/// another, whatever name it asks for.
pub proof fn lemma_no_second_living_hero(sender: Identity, player_found: bool, heroes: Seq<Hero>, name: String)
    requires
        owns_living_hero(heroes, sender),
    ensures
        create_hero_outcome(sender, player_found, heroes, name) is Err,
{
}

/// Inserting the hero that `create_hero` made, under whatever id the table
/// assigns, keeps every player at one living hero at most.
pub proof fn lemma_create_hero_keeps_one_living_hero_each(
    sender: Identity,
    player_found: bool,
    heroes: Seq<Hero>,
    name: String,
    created: Hero,
    id: u64,
)
    requires
        one_living_hero_each(heroes),
        create_hero_outcome(sender, player_found, heroes, name) == Ok::<Hero, ReducerError>(created),
    ensures
        one_living_hero_each(heroes.push(Hero { id: id, ..created })),
{
    let after = heroes.push(Hero { id: id, ..created });
    assert forall|i: int, j: int|
        0 <= i < after.len() && 0 <= j < after.len() && i != j && after[i].is_alive
            && after[j].is_alive implies #[trigger] after[i].player_identity
        != #[trigger] after[j].player_identity by {
        if i == heroes.len() {
            assert(!(heroes[j].player_identity == sender && heroes[j].is_alive));
        } else if j == heroes.len() {
            assert(!(heroes[i].player_identity == sender && heroes[i].is_alive));
        }
    }
}

/// Writing back the hero that `move_hero` moved keeps every player at one
/// living hero at most.
pub proof fn lemma_move_hero_keeps_one_living_hero_each(
    sender: Identity,
    heroes: Seq<Hero>,
    k: int,
    x_bits: u32,
    y_bits: u32,
    hero: Hero,
)
    requires
        one_living_hero_each(heroes),
        0 <= k < heroes.len(),
        move_hero_outcome(sender, Some(heroes[k]), x_bits, y_bits) == Ok::<Hero, ReducerError>(hero),
    ensures
        one_living_hero_each(heroes.update(k, hero)),
        hero.id == heroes[k].id,
        hero.player_identity == heroes[k].player_identity,
        hero.is_alive == heroes[k].is_alive,
{
    let after = heroes.update(k, hero);
    assert forall|i: int, j: int|
        0 <= i < after.len() && 0 <= j < after.len() && i != j && after[i].is_alive
            && after[j].is_alive implies #[trigger] after[i].player_identity
        != #[trigger] after[j].player_identity by {
        assert(heroes[i].player_identity == after[i].player_identity);
        assert(heroes[j].player_identity == after[j].player_identity);
    }
}

/// A session that drops and comes back: disconnecting and then connecting
/// again leaves the row as connecting alone would, so the username survives.
pub proof fn lemma_reconnect_restores_session(player: Player, left: Timestamp, back: Timestamp)
    ensures
        connected(disconnected(player, left), back) == connected(player, back),
        disconnected(connected(player, back), left) == disconnected(player, left),
        connected(player, back).username == player.username,
        disconnected(player, left).username == player.username,
{
}

/// A new player's name is `Player_` and eight hexadecimal digits: fifteen
/// characters in all.
pub proof fn lemma_default_username_shape(identity: Identity)
    ensures
        default_username(identity).len() == 15,
        default_username(identity).take(7) == seq!['P', 'l', 'a', 'y', 'e', 'r', '_'],
{
    assert(default_username(identity).take(7) =~= seq!['P', 'l', 'a', 'y', 'e', 'r', '_']);
}

/// The owner of a newly created hero can move it, whatever id the table gave
/// it, and the move changes nothing but its position.
pub proof fn lemma_created_hero_moves_for_its_owner(
    sender: Identity,
    player_found: bool,
    heroes: Seq<Hero>,
    name: String,
    created: Hero,
    id: u64,
    x_bits: u32,
    y_bits: u32,
)
    requires
        create_hero_outcome(sender, player_found, heroes, name) == Ok::<Hero, ReducerError>(created),
    ensures
        move_hero_outcome(sender, Some(Hero { id: id, ..created }), x_bits, y_bits) == Ok::<
            Hero,
            ReducerError,
        >(Hero { id: id, x_bits: x_bits, y_bits: y_bits, ..created }),
{
}

/// What `create_hero` answers, in terms of the rows it read: without a player
/// row it refuses; with one, only a living hero owned by the sender itself
/// refuses it (no other hero, and no name, matters); otherwise the new hero is
/// the sender's, carries the asked name, stands at the origin with full
/// health of 100, has no fame in any tier, and lives.
pub proof fn lemma_create_hero_answers(sender: Identity, player_found: bool, heroes: Seq<Hero>, name: String)
    ensures
        !player_found ==> create_hero_outcome(sender, player_found, heroes, name) == Err::<
            Hero,
            ReducerError,
        >(ReducerError::PlayerNotFound),
        player_found && (exists|i: int|
            0 <= i < heroes.len() && (#[trigger] heroes[i]).player_identity == sender
                && heroes[i].is_alive) ==> create_hero_outcome(sender, player_found, heroes, name)
            == Err::<Hero, ReducerError>(ReducerError::LivingHeroExists),
        player_found && (forall|i: int|
            0 <= i < heroes.len() && (#[trigger] heroes[i]).player_identity == sender
                ==> !heroes[i].is_alive) ==> match create_hero_outcome(sender, player_found, heroes, name) {
            Ok(h) => h.id == 0 && h.player_identity == sender && h.name == name && h.x_bits == 0
                && h.y_bits == 0 && h.health == 100 && h.max_health == 100 && h.fame_local == 0
                && h.fame_city == 0 && h.fame_realm == 0 && h.fame_godly == 0 && h.is_alive,
            Err(_) => false,
        },
{
}

/// What `move_hero` answers, in terms of the hero it found: a missing hero,
/// another player's hero and a dead hero are refused, in that order; the
/// owner's living hero is moved, and the move sets its position and changes
/// nothing else (id, owner, name, health, every tier of fame, life).
pub proof fn lemma_move_hero_answers(sender: Identity, found: Option<Hero>, x_bits: u32, y_bits: u32)
    ensures
        match found {
            None => move_hero_outcome(sender, found, x_bits, y_bits) == Err::<Hero, ReducerError>(
                ReducerError::HeroNotFound,
            ),
            Some(h) => if h.player_identity != sender {
                move_hero_outcome(sender, found, x_bits, y_bits) == Err::<Hero, ReducerError>(
                    ReducerError::NotHeroOwner,
                )
            } else if !h.is_alive {
                move_hero_outcome(sender, found, x_bits, y_bits) == Err::<Hero, ReducerError>(
                    ReducerError::HeroIsDead,
                )
            } else {
                match move_hero_outcome(sender, found, x_bits, y_bits) {
                    Ok(r) => r.x_bits == x_bits && r.y_bits == y_bits && r.id == h.id
                        && r.player_identity == h.player_identity && r.name == h.name && r.health
                        == h.health && r.max_health == h.max_health && r.fame_local == h.fame_local
                        && r.fame_city == h.fame_city && r.fame_realm == h.fame_realm && r.fame_godly
                        == h.fame_godly && r.is_alive == h.is_alive,
                    Err(_) => false,
                }
            },
        },
{
}

/// Connecting and disconnecting touch only the online flag and the time last
/// seen: the identity and the username of the row are kept.
pub proof fn lemma_session_changes_keep_the_row(player: Player, now: Timestamp)
    ensures
        connected(player, now).identity == player.identity,
        connected(player, now).username == player.username,
        connected(player, now).online,
        connected(player, now).last_seen == now,
        disconnected(player, now).identity == player.identity,
        disconnected(player, now).username == player.username,
        !disconnected(player, now).online,
        disconnected(player, now).last_seen == now,
{
}

/// A new player's name spells the identity's four most significant bytes in
/// lowercase hexadecimal after `Player_`, high digit first.
pub proof fn lemma_default_username_digits(identity: Identity, k: int)
    requires
        0 <= k < 4,
    ensures
        default_username(identity)[7 + 2 * k] == crate::identity::hex_digit(identity.bytes@[k] as int / 16),
        default_username(identity)[8 + 2 * k] == crate::identity::hex_digit(identity.bytes@[k] as int % 16),
{
    assert((7 + 2 * k - 7) / 2 == k);
    assert((8 + 2 * k - 7) / 2 == k);
}

} // verus!
