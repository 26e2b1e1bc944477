//! The client's session: which hero is the player's own, which heroes of
//! others to show, how the keys steer, and what the status lines say.

use vstd::prelude::*;
use crate::identity::Identity;
use crate::tables::Hero;

verus! {

/// The name asked for when a hero is created for a player that has none.
pub open spec fn new_hero_name() -> Seq<char> {
    "Hero"@
}

/// The player's own hero, once it is known.
#[derive(Debug)]
pub struct LocalHero {
    pub id: Option<u64>,
    pub name: String,
}

impl LocalHero {
    /// No hero known yet.
    pub fn new() -> (local: LocalHero)
        ensures
            local.id.is_none(),
            local.name@ == Seq::<char>::empty(),
    {
        LocalHero { id: None, name: String::new() }
    }
}

impl Default for LocalHero {
    fn default() -> (local: LocalHero)
        ensures
            local.id.is_none(),
            local.name@ == Seq::<char>::empty(),
    {
        LocalHero::new()
    }
}

/// Whether the client is connected, and as whom.
#[derive(Debug)]
pub struct ConnectionStatus {
    pub connected: bool,
    pub identity: Option<Identity>,
}

impl ConnectionStatus {
    /// Not connected, no identity.
    pub fn new() -> (status: ConnectionStatus)
        ensures
            !status.connected,
            status.identity.is_none(),
    {
        ConnectionStatus { connected: false, identity: None }
    }

    /// The connection reported itself established, under `identity` (the
    /// connection may not know it yet).
    pub fn record_connected(&mut self, identity: Option<Identity>)
        ensures
            final(self).connected,
            final(self).identity == identity,
    {
        self.connected = true;
        self.identity = identity;
    }
}

impl Default for ConnectionStatus {
    fn default() -> (status: ConnectionStatus)
        ensures
            !status.connected,
            status.identity.is_none(),
    {
        ConnectionStatus::new()
    }
}

/// Is `hero` a living hero of the player known as `me`?
pub open spec fn is_mine(hero: Hero, me: Option<Identity>) -> bool {
    me == Some(hero.player_identity) && hero.is_alive
}

/// Is `heroes[i]` the first living hero of `me` in `heroes`?
pub open spec fn is_first_mine(heroes: Seq<Hero>, me: Option<Identity>, i: int) -> bool {
    &&& 0 <= i < heroes.len()
    &&& is_mine(heroes[i], me)
    &&& forall|j: int| 0 <= j < i ==> !is_mine(#[trigger] heroes[j], me)
}

/// Does `heroes` hold a living hero of `me`?
pub open spec fn has_mine(heroes: Seq<Hero>, me: Option<Identity>) -> bool {
    exists|i: int| 0 <= i < heroes.len() && is_mine(#[trigger] heroes[i], me)
}

/// What the client does next while it looks for the player's hero.
#[derive(Debug, PartialEq, Eq)]
pub enum ConnectStep {
    /// This hero is the player's own: show it and start playing.
    Adopt(Hero),
    /// The player has no living hero: ask the server to create one with this name.
    RequestCreate(String),
    /// A hero is already known; nothing to do.
    Wait,
}

/// Finds the first living hero of `me` in `heroes`.
fn first_mine(heroes: &Vec<Hero>, me: Option<Identity>) -> (found: Option<usize>)
    ensures
        match found {
            Some(i) => is_first_mine(heroes@, me, i as int),
            None => !has_mine(heroes@, me),
        },
{
    let mut i: usize = 0;
    while i < heroes.len()
        invariant
            i <= heroes@.len(),
            forall|j: int| 0 <= j < i ==> !is_mine(#[trigger] heroes@[j], me),
        decreases heroes@.len() - i,
    {
        let owned = match me {
            Some(id) => heroes[i].player_identity == id,
            None => false,
        };
        if owned && heroes[i].is_alive {
            return Some(i);
        }
        i = i + 1;
    }
    None
}

/// Once connected, the client looks for the player's hero: first among the
/// heroes that were just inserted, then, while none is known, among those
/// already in its copy of the table. Without one, it asks for a hero named
/// `Hero`. Before the connection is established it does nothing.
pub fn find_local_hero(
    status: &ConnectionStatus,
    local: &mut LocalHero,
    inserted: &Vec<Hero>,
    cached: &Vec<Hero>,
) -> (step: ConnectStep)
    ensures
        !status.connected ==> step == ConnectStep::Wait && *final(local) == *old(local),
        status.connected && has_mine(inserted@, status.identity) ==> exists|i: int|
            is_first_mine(inserted@, status.identity, i) && step == ConnectStep::Adopt(inserted@[i])
                && final(local).id == Some(inserted@[i].id) && final(local).name == inserted@[i].name,
        status.connected && !has_mine(inserted@, status.identity) && old(local).id.is_none() && has_mine(
            cached@,
            status.identity,
        ) ==> exists|i: int|
            is_first_mine(cached@, status.identity, i) && step == ConnectStep::Adopt(cached@[i])
                && final(local).id == Some(cached@[i].id) && final(local).name == cached@[i].name,
        status.connected && !has_mine(inserted@, status.identity) && old(local).id.is_none() && !has_mine(
            cached@,
            status.identity,
        ) ==> (step matches ConnectStep::RequestCreate(name) && name@ == new_hero_name())
            && *final(local) == *old(local),
        status.connected && !has_mine(inserted@, status.identity) && old(local).id.is_some() ==> step
            == ConnectStep::Wait && *final(local) == *old(local),
{
    if !status.connected {
        return ConnectStep::Wait;
    }
    if let Some(i) = first_mine(inserted, status.identity) {
        local.id = Some(inserted[i].id);
        local.name = inserted[i].name.clone();
        return ConnectStep::Adopt(inserted[i].clone());
    }
    if local.id.is_none() {
        if let Some(i) = first_mine(cached, status.identity) {
            local.id = Some(cached[i].id);
            local.name = cached[i].name.clone();
            ConnectStep::Adopt(cached[i].clone())
        } else {
            ConnectStep::RequestCreate(String::from_str("Hero"))
        }
    } else {
        ConnectStep::Wait
    }
}

/// Should an inserted hero be shown as another player's? Not if it is the
/// player's own, is already shown, or is dead.
pub open spec fn shows_as_remote(local_id: Option<u64>, shown: Seq<u64>, hero: Hero) -> bool {
    local_id != Some(hero.id) && !shown.contains(hero.id) && hero.is_alive
}

/// The inserted heroes that are shown as other players', in order.
pub open spec fn heroes_to_show(local_id: Option<u64>, shown: Seq<u64>, inserted: Seq<Hero>) -> Seq<Hero> {
    inserted.filter(|h: Hero| shows_as_remote(local_id, shown, h))
}

/// Is `id` among `ids`?
fn contains_id(ids: &Vec<u64>, id: u64) -> (found: bool)
    ensures
        found == ids@.contains(id),
{
    let mut i: usize = 0;
    while i < ids.len()
        invariant
            i <= ids@.len(),
            forall|j: int| 0 <= j < i ==> ids@[j] != id,
        decreases ids@.len() - i,
    {
        if ids[i] == id {
            return true;
        }
        i = i + 1;
    }
    false
}

/// The inserted heroes to show as other players', in the order they came:
/// not the player's own, not one already shown (as of before this batch),
/// not a dead one.
pub fn remote_heroes_to_spawn(local_id: Option<u64>, shown: &Vec<u64>, inserted: &Vec<Hero>) -> (spawn: Vec<Hero>)
    ensures
        spawn@ == heroes_to_show(local_id, shown@, inserted@),
{
    let ghost pred = |h: Hero| shows_as_remote(local_id, shown@, h);
    let mut spawn: Vec<Hero> = Vec::new();
    let mut i: usize = 0;
    while i < inserted.len()
        invariant
            i <= inserted@.len(),
            pred == (|h: Hero| shows_as_remote(local_id, shown@, h)),
            spawn@ == inserted@.take(i as int).filter(pred),
        decreases inserted@.len() - i,
    {
        let hero = &inserted[i];
        let keep = local_id != Some(hero.id) && !contains_id(shown, hero.id) && hero.is_alive;
        proof {
            reveal_with_fuel(Seq::<_>::filter, 1);
            assert(inserted@.take(i + 1).drop_last() =~= inserted@.take(i as int));
        }
        if keep {
            spawn.push(hero.clone());
        }
        i = i + 1;
    }
    proof {
        assert(inserted@.take(inserted@.len() as int) =~= inserted@);
    }
    spawn
}

/// The shown heroes of other players whose row was deleted: the positions in
/// `shown` that hold `deleted_id`, in increasing order.
pub fn remote_heroes_to_despawn(shown: &Vec<u64>, deleted_id: u64) -> (positions: Vec<usize>)
    ensures
        forall|k: int| 0 <= k < positions@.len() ==> #[trigger] positions@[k] < shown@.len()
            && shown@[positions@[k] as int] == deleted_id,
        forall|k: int, l: int| 0 <= k < l < positions@.len() ==> #[trigger] positions@[k] < #[trigger] positions@[l],
        forall|p: int| 0 <= p < shown@.len() && shown@[p] == deleted_id ==> #[trigger] positions@.contains(
            p as usize,
        ),
{
    let mut positions: Vec<usize> = Vec::new();
    let mut i: usize = 0;
    while i < shown.len()
        invariant
            i <= shown@.len(),
            forall|k: int| 0 <= k < positions@.len() ==> #[trigger] positions@[k] < i
                && shown@[positions@[k] as int] == deleted_id,
            forall|k: int, l: int| 0 <= k < l < positions@.len() ==> #[trigger] positions@[k] < #[trigger] positions@[l],
            forall|p: int| 0 <= p < i && shown@[p] == deleted_id ==> #[trigger] positions@.contains(p as usize),
        decreases shown@.len() - i,
    {
        let ghost before = positions@;
        if shown[i] == deleted_id {
            positions.push(i);
            proof {
                assert(positions@[positions@.len() - 1] == i);
                assert forall|p: int| 0 <= p < i && shown@[p] == deleted_id implies #[trigger] positions@.contains(
                    p as usize,
                ) by {
                    if p < i {
                        assert(before.contains(p as usize));
                        let k = choose|k: int| 0 <= k < before.len() && before[k] == p as usize;
                        assert(positions@[k] == p as usize);
                    } else {
                        assert(positions@[before.len() as int] == p as usize);
                    }
                }
            }
        }
        i = i + 1;
    }
    positions
}

/// The keys that steer the player's hero, and whether each is held.
#[derive(Clone, Copy, Debug, PartialEq, Eq, Structural)]
pub struct MovementKeys {
    pub w: bool,
    pub a: bool,
    pub s: bool,
    pub d: bool,
    pub up: bool,
    pub down: bool,
    pub left: bool,
    pub right: bool,
}

/// A direction on the grid of eight, or none: each component is -1, 0 or 1.
#[derive(Clone, Copy, Debug, PartialEq, Eq, Structural)]
pub struct Direction {
    pub x: i8,
    pub y: i8,
}

/// One if `held`, else zero.
pub open spec fn unit(held: bool) -> int {
    if held {
        1
    } else {
        0
    }
}

/// The direction that the held keys ask for, before it is scaled to the
/// hero's speed: W or up goes up, S or down goes down, A or left goes left,
/// D or right goes right; opposite keys cancel.
pub fn movement_direction(keys: MovementKeys) -> (dir: Direction)
    ensures
        dir.y == unit(keys.w || keys.up) - unit(keys.s || keys.down),
        dir.x == unit(keys.d || keys.right) - unit(keys.a || keys.left),
{
    let mut dir = Direction { x: 0, y: 0 };
    if keys.w || keys.up {
        dir.y = dir.y + 1;
    }
    if keys.s || keys.down {
        dir.y = dir.y - 1;
    }
    if keys.a || keys.left {
        dir.x = dir.x - 1;
    }
    if keys.d || keys.right {
        dir.x = dir.x + 1;
    }
    dir
}

impl Direction {
    /// Does the direction move at all?
    pub fn is_moving(&self) -> (moving: bool)
        ensures
            moving == (self.x != 0 || self.y != 0),
    {
        self.x != 0 || self.y != 0
    }
}

/// The connection line of the status display.
pub fn status_line(connected: bool) -> (line: String)
    ensures
        line@ == (if connected {
            "Status: Connected"@
        } else {
            "Status: Connecting..."@
        }),
{
    if connected {
        String::from_str("Status: Connected")
    } else {
        String::from_str("Status: Connecting...")
    }
}

/// The hero line of the status display: the hero's name, or `-` while none
/// is known.
pub fn hero_name_line(local: &LocalHero) -> (line: String)
    ensures
        line@ == "Hero: "@ + (if local.name@.len() == 0 {
            "-"@
        } else {
            local.name@
        }),
{
    let mut line = String::from_str("Hero: ");
    if local.name.as_str().unicode_len() == 0 {
        line.append("-");
    } else {
        line.append(local.name.as_str());
    }
    line
}

/// Of the inserted heroes, exactly those that belong to other players, are
/// alive and are not yet shown get shown.
pub proof fn lemma_spawned_heroes_are_new_remote_living(local_id: Option<u64>, shown: Seq<u64>, inserted: Seq<Hero>)
    ensures
        forall|k: int|
            0 <= k < heroes_to_show(local_id, shown, inserted).len() ==> shows_as_remote(
                local_id,
                shown,
                #[trigger] heroes_to_show(local_id, shown, inserted)[k],
            ),
        forall|i: int|
            0 <= i < inserted.len() && shows_as_remote(local_id, shown, inserted[i])
                ==> #[trigger] heroes_to_show(local_id, shown, inserted).contains(inserted[i]),
{
    let pred = |h: Hero| shows_as_remote(local_id, shown, h);
    assert forall|k: int| 0 <= k < inserted.filter(pred).len() implies pred(
        #[trigger] inserted.filter(pred)[k],
    ) by {
        inserted.lemma_filter_pred(pred, k);
    }
    assert forall|i: int| 0 <= i < inserted.len() && pred(inserted[i]) implies #[trigger] inserted.filter(
        pred,
    ).contains(inserted[i]) by {
        inserted.lemma_filter_contains(pred, i);
    }
}

/// The player's own hero is never shown as another player's: once the client
/// knows it, by its id, `remote_heroes_to_spawn` passes over it.
pub proof fn lemma_local_hero_never_remote(hero: Hero, shown: Seq<u64>, inserted: Seq<Hero>)
    ensures
        !shows_as_remote(Some(hero.id), shown, hero),
        !heroes_to_show(Some(hero.id), shown, inserted).contains(hero),
{
    let pred = |h: Hero| shows_as_remote(Some(hero.id), shown, h);
    if inserted.filter(pred).contains(hero) {
        let k = choose|k: int| 0 <= k < inserted.filter(pred).len() && inserted.filter(pred)[k] == hero;
        inserted.lemma_filter_pred(pred, k);
    }
}

/// No two of `ids` are the same.
pub open spec fn unique_ids(ids: Seq<u64>) -> bool {
    forall|i: int, j: int| 0 <= i < j < ids.len() ==> ids[i] != ids[j]
}

/// The ids of some heroes, in order.
pub open spec fn ids_of(heroes: Seq<Hero>) -> Seq<u64> {
    heroes.map_values(|h: Hero| h.id)
}

/// Filtering heroes keeps only heroes that were there, and keeps distinct ids
/// distinct.
proof fn lemma_filter_keeps_unique_ids(heroes: Seq<Hero>, pred: spec_fn(Hero) -> bool)
    requires
        unique_ids(ids_of(heroes)),
    ensures
        unique_ids(ids_of(heroes.filter(pred))),
        forall|k: int|
            0 <= k < heroes.filter(pred).len() ==> exists|i: int|
                0 <= i < heroes.len() && heroes[i] == #[trigger] heroes.filter(pred)[k],
    decreases heroes.len(),
{
    reveal_with_fuel(Seq::<_>::filter, 1);
    if heroes.len() > 0 {
        let rest = heroes.drop_last();
        assert(ids_of(rest) =~= ids_of(heroes).drop_last());
        lemma_filter_keeps_unique_ids(rest, pred);
        let sub = rest.filter(pred);
        let out = heroes.filter(pred);
        assert forall|k: int| 0 <= k < out.len() implies exists|i: int|
            0 <= i < heroes.len() && heroes[i] == #[trigger] out[k] by {
            if k < sub.len() {
                let i = choose|i: int| 0 <= i < rest.len() && rest[i] == sub[k];
                assert(heroes[i] == out[k]);
            } else {
                assert(heroes[heroes.len() - 1] == out[k]);
            }
        }
        assert forall|i: int, j: int| 0 <= i < j < ids_of(out).len() implies ids_of(out)[i] != ids_of(
            out,
        )[j] by {
            if j < sub.len() {
                assert(ids_of(sub)[i] != ids_of(sub)[j]);
            } else {
                let a = choose|a: int| 0 <= a < rest.len() && rest[a] == sub[i];
                assert(ids_of(heroes)[a] != ids_of(heroes)[heroes.len() - 1]);
            }
        }
    }
}

/// At most one shown hero per id: if the heroes already shown have distinct
/// ids, and a batch of inserts names each hero once, then after the batch the
/// shown heroes still have distinct ids. (Two inserts of one id in the same
/// batch would both be shown.)
pub proof fn lemma_spawning_keeps_one_shown_hero_per_id(local_id: Option<u64>, shown: Seq<u64>, inserted: Seq<Hero>)
    requires
        unique_ids(shown),
        unique_ids(ids_of(inserted)),
    ensures
        unique_ids(shown + ids_of(heroes_to_show(local_id, shown, inserted))),
{
    let pred = |h: Hero| shows_as_remote(local_id, shown, h);
    let out = inserted.filter(pred);
    lemma_filter_keeps_unique_ids(inserted, pred);
    let all = shown + ids_of(out);
    assert forall|i: int, j: int| 0 <= i < j < all.len() implies all[i] != all[j] by {
        if j >= shown.len() {
            let k = j - shown.len();
            inserted.lemma_filter_pred(pred, k);
            if i >= shown.len() {
                assert(ids_of(out)[i - shown.len()] != ids_of(out)[k]);
            } else {
                assert(shown.contains(all[i]));
            }
        }
    }
}

/// A hero is the player's own exactly when it is alive and owned by the
/// identity the client connected as; nothing else about it (its position,
/// name or id) matters. The first such hero is the one before which no hero
/// is.
pub proof fn lemma_mine_is_own_and_living(heroes: Seq<Hero>, me: Option<Identity>)
    ensures
        forall|i: int|
            0 <= i < heroes.len() ==> (is_mine(#[trigger] heroes[i], me) <==> (me == Some(
                heroes[i].player_identity,
            ) && heroes[i].is_alive)),
        has_mine(heroes, me) <==> exists|i: int|
            0 <= i < heroes.len() && me == Some((#[trigger] heroes[i]).player_identity)
                && heroes[i].is_alive,
        forall|i: int|
            #[trigger] is_first_mine(heroes, me, i) <==> (0 <= i < heroes.len() && me == Some(
                heroes[i].player_identity,
            ) && heroes[i].is_alive && forall|j: int|
                0 <= j < i ==> !(me == Some((#[trigger] heroes[j]).player_identity)
                    && heroes[j].is_alive)),
{
    assert forall|i: int| #[trigger] is_first_mine(heroes, me, i) <==> (0 <= i < heroes.len() && me == Some(
        heroes[i].player_identity,
    ) && heroes[i].is_alive && forall|j: int|
        0 <= j < i ==> !(me == Some((#[trigger] heroes[j]).player_identity) && heroes[j].is_alive)) by {
        if 0 <= i < heroes.len() {
            assert forall|j: int| 0 <= j < i implies (!is_mine(#[trigger] heroes[j], me) <==> !(me == Some(
                heroes[j].player_identity,
            ) && heroes[j].is_alive)) by {}
        }
    }
    if has_mine(heroes, me) {
        let i = choose|i: int| 0 <= i < heroes.len() && is_mine(#[trigger] heroes[i], me);
        assert(me == Some(heroes[i].player_identity) && heroes[i].is_alive);
    }
    if exists|i: int| 0 <= i < heroes.len() && me == Some((#[trigger] heroes[i]).player_identity)
        && heroes[i].is_alive {
        let i = choose|i: int| 0 <= i < heroes.len() && me == Some((#[trigger] heroes[i]).player_identity)
            && heroes[i].is_alive;
        assert(is_mine(heroes[i], me));
    }
}

/// The heroes shown as other players' are, in the order they were inserted,
/// exactly the inserted heroes that are alive, are not the player's own hero
/// and are not shown yet: each of them is shown, and only they are.
pub proof fn lemma_shown_heroes_are_exactly_the_new_remote_living(
    local_id: Option<u64>,
    shown: Seq<u64>,
    inserted: Seq<Hero>,
)
    ensures
        heroes_to_show(local_id, shown, inserted) == inserted.filter(
            |h: Hero| h.is_alive && local_id != Some(h.id) && !shown.contains(h.id),
        ),
        forall|i: int|
            0 <= i < inserted.len() && (#[trigger] inserted[i]).is_alive && local_id != Some(
                inserted[i].id,
            ) && !shown.contains(inserted[i].id) ==> heroes_to_show(local_id, shown, inserted).contains(
                inserted[i],
            ),
        forall|k: int|
            0 <= k < heroes_to_show(local_id, shown, inserted).len() ==> {
                let h = #[trigger] heroes_to_show(local_id, shown, inserted)[k];
                h.is_alive && local_id != Some(h.id) && !shown.contains(h.id) && inserted.contains(h)
            },
{
    let pred = |h: Hero| shows_as_remote(local_id, shown, h);
    let literal = |h: Hero| h.is_alive && local_id != Some(h.id) && !shown.contains(h.id);
    assert(pred =~= literal);
    let out = inserted.filter(pred);
    assert forall|i: int|
        0 <= i < inserted.len() && (#[trigger] inserted[i]).is_alive && local_id != Some(inserted[i].id)
            && !shown.contains(inserted[i].id) implies out.contains(inserted[i]) by {
        inserted.lemma_filter_contains(pred, i);
    }
    lemma_filter_keeps_heroes(inserted, pred);
    assert forall|k: int| 0 <= k < out.len() implies {
        let h = #[trigger] out[k];
        h.is_alive && local_id != Some(h.id) && !shown.contains(h.id) && inserted.contains(h)
    } by {
        inserted.lemma_filter_pred(pred, k);
        let i = choose|i: int| 0 <= i < inserted.len() && inserted[i] == out[k];
        assert(inserted.contains(out[k]));
    }
}

/// Filtering heroes keeps only heroes that were there.
proof fn lemma_filter_keeps_heroes(heroes: Seq<Hero>, pred: spec_fn(Hero) -> bool)
    ensures
        forall|k: int|
            0 <= k < heroes.filter(pred).len() ==> exists|i: int|
                0 <= i < heroes.len() && heroes[i] == #[trigger] heroes.filter(pred)[k],
    decreases heroes.len(),
{
    reveal_with_fuel(Seq::<_>::filter, 1);
    if heroes.len() > 0 {
        let rest = heroes.drop_last();
        lemma_filter_keeps_heroes(rest, pred);
        let sub = rest.filter(pred);
        let out = heroes.filter(pred);
        assert forall|k: int| 0 <= k < out.len() implies exists|i: int|
            0 <= i < heroes.len() && heroes[i] == #[trigger] out[k] by {
            if k < sub.len() {
                let i = choose|i: int| 0 <= i < rest.len() && rest[i] == sub[k];
                assert(heroes[i] == out[k]);
            } else {
                assert(heroes[heroes.len() - 1] == out[k]);
            }
        }
    }
}

} // verus!
