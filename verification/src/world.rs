//! The game map: events keyed by grid position, the event resolution step,
//! and random map generation.

use vstd::prelude::*;
use crate::clamp_i32;
use crate::item::{Item, ItemType, ItemV};
use crate::monster::{Monster, MonsterV};
use crate::player::{
    add_item_spec, armor_bonus, damage_taken, Player, PlayerV,
};
use crate::position::Position;

verus! {

/// What a map tile holds.
#[derive(Debug, PartialEq, Eq)]
pub enum Event {
    Empty,
    Monster(Monster),
    Treasure(Item, i32),
    Teleport(Position),
    End,
}

/// The mathematical value of an [`Event`].
pub enum EventV {
    Empty,
    Monster(MonsterV),
    Treasure(ItemV, int),
    Teleport(Position),
    End,
}

impl Clone for Event {
    fn clone(&self) -> (r: Self)
        ensures
            r == *self,
    {
        match self {
            Event::Empty => Event::Empty,
            Event::Monster(m) => Event::Monster(m.clone()),
            Event::Treasure(item, value) => Event::Treasure(item.clone(), *value),
            Event::Teleport(p) => Event::Teleport(*p),
            Event::End => Event::End,
        }
    }
}

impl View for Event {
    type V = EventV;

    open spec fn view(&self) -> EventV {
        match self {
            Event::Empty => EventV::Empty,
            Event::Monster(m) => EventV::Monster(m@),
            Event::Treasure(item, value) => EventV::Treasure(item@, *value as int),
            Event::Teleport(p) => EventV::Teleport(*p),
            Event::End => EventV::End,
        }
    }
}

/// The index of the first entry with the given key, or -1 when there is none.
pub open spec fn key_index(s: Seq<(Position, EventV)>, p: Position) -> int
    decreases s.len(),
{
    if s.len() == 0 {
        -1
    } else if s[0].0 == p {
        0
    } else {
        let r = key_index(s.drop_first(), p);
        if r < 0 {
            -1
        } else {
            r + 1
        }
    }
}

/// The event stored under the given position, if any.
pub open spec fn spec_event_at(s: Seq<(Position, EventV)>, p: Position) -> Option<EventV> {
    let i = key_index(s, p);
    if i >= 0 {
        Some(s[i].1)
    } else {
        None
    }
}

/// Each position appears at most once.
pub open spec fn unique_keys(s: Seq<(Position, EventV)>) -> bool {
    forall|i: int, j: int| 0 <= i < j < s.len() ==> (#[trigger] s[i]).0 != (#[trigger] s[j]).0
}

/// `key_index` finds the first entry with the key if and only if one exists.
proof fn lemma_key_index(s: Seq<(Position, EventV)>, p: Position)
    ensures
        key_index(s, p) == -1 ==> forall|i: int|
            0 <= i < s.len() ==> (#[trigger] s[i]).0 != p,
        key_index(s, p) != -1 ==> {
            &&& 0 <= key_index(s, p) < s.len()
            &&& s[key_index(s, p)].0 == p
            &&& forall|j: int| 0 <= j < key_index(s, p) ==> (#[trigger] s[j]).0 != p
        },
    decreases s.len(),
{
    if s.len() != 0 && s[0].0 != p {
        lemma_key_index(s.drop_first(), p);
        assert forall|i: int| 1 <= i < s.len() implies s.drop_first()[i - 1] == s[i] by {}
    }
}

/// Conversely, the first entry with the key is what `key_index` returns.
proof fn lemma_key_index_is(s: Seq<(Position, EventV)>, p: Position, m: int)
    requires
        0 <= m < s.len(),
        s[m].0 == p,
        forall|j: int| 0 <= j < m ==> (#[trigger] s[j]).0 != p,
    ensures
        key_index(s, p) == m,
    decreases s.len(),
{
    if m > 0 {
        assert forall|i: int| 1 <= i < s.len() implies s.drop_first()[i - 1] == s[i] by {}
        lemma_key_index_is(s.drop_first(), p, m - 1);
    }
}

/// A sequence without the key has no index for it.
proof fn lemma_key_index_none(s: Seq<(Position, EventV)>, p: Position)
    requires
        forall|i: int| 0 <= i < s.len() ==> (#[trigger] s[i]).0 != p,
    ensures
        key_index(s, p) == -1,
{
    lemma_key_index(s, p);
    if key_index(s, p) != -1 {
        assert(s[key_index(s, p)].0 == p);
    }
}

/// Replacing the value at one entry changes the lookup there and nowhere
/// else, and keeps the keys unique.
proof fn lemma_update_value(s: Seq<(Position, EventV)>, i: int, e: EventV)
    requires
        unique_keys(s),
        0 <= i < s.len(),
    ensures
        unique_keys(s.update(i, (s[i].0, e))),
        spec_event_at(s.update(i, (s[i].0, e)), s[i].0) == Some(e),
        forall|q: Position|
            q != s[i].0 ==> spec_event_at(s.update(i, (s[i].0, e)), q) == spec_event_at(s, q),
{
    let s2 = s.update(i, (s[i].0, e));
    assert forall|j: int| 0 <= j < s.len() implies s2[j].0 == (#[trigger] s[j]).0 by {}
    lemma_key_index(s, s[i].0);
    lemma_key_index_is(s2, s[i].0, key_index(s, s[i].0));
    assert forall|q: Position|
        q != s[i].0 implies spec_event_at(s2, q) == spec_event_at(s, q) by {
        lemma_key_index(s, q);
        if key_index(s, q) == -1 {
            lemma_key_index_none(s2, q);
        } else {
            lemma_key_index_is(s2, q, key_index(s, q));
        }
    }
}

/// Appending an entry under a fresh key adds exactly that lookup and keeps
/// the keys unique.
proof fn lemma_push_entry(s: Seq<(Position, EventV)>, p: Position, e: EventV)
    requires
        unique_keys(s),
        key_index(s, p) == -1,
    ensures
        unique_keys(s.push((p, e))),
        spec_event_at(s.push((p, e)), p) == Some(e),
        forall|q: Position| q != p ==> spec_event_at(s.push((p, e)), q) == spec_event_at(s, q),
{
    let s2 = s.push((p, e));
    lemma_key_index(s, p);
    lemma_key_index_is(s2, p, s.len() as int);
    assert forall|q: Position| q != p implies spec_event_at(s2, q) == spec_event_at(s, q) by {
        lemma_key_index(s, q);
        if key_index(s, q) == -1 {
            lemma_key_index_none(s2, q);
        } else {
            lemma_key_index_is(s2, q, key_index(s, q));
        }
    }
}

/// Removing an entry drops exactly that lookup and keeps the keys unique.
proof fn lemma_remove_entry(s: Seq<(Position, EventV)>, i: int)
    requires
        unique_keys(s),
        0 <= i < s.len(),
    ensures
        unique_keys(s.remove(i)),
        spec_event_at(s.remove(i), s[i].0) is None,
        forall|q: Position| q != s[i].0 ==> spec_event_at(s.remove(i), q) == spec_event_at(s, q),
{
    let s2 = s.remove(i);
    assert forall|j: int| 0 <= j < s2.len() implies #[trigger] s2[j] == (if j < i {
        s[j]
    } else {
        s[j + 1]
    }) by {}
    assert forall|j: int| 0 <= j < s2.len() implies (#[trigger] s2[j]).0 != s[i].0 by {}
    lemma_key_index_none(s2, s[i].0);
    assert forall|q: Position| q != s[i].0 implies spec_event_at(s2, q) == spec_event_at(s, q) by {
        lemma_key_index(s, q);
        let m = key_index(s, q);
        if m == -1 {
            lemma_key_index_none(s2, q);
        } else if m < i {
            lemma_key_index_is(s2, q, m);
        } else {
            lemma_key_index_is(s2, q, m - 1);
        }
    }
}

/// The monster after trading blows: the player's weapon payload, if any,
/// lands as damage.
pub open spec fn monster_after_fight(m: MonsterV, weapon: Option<ItemV>) -> MonsterV {
    match weapon {
        Some(w) => match w.type_ {
            ItemType::Weapon(d) => MonsterV { life: clamp_i32(m.life - d), ..m },
            _ => m,
        },
        None => m,
    }
}

/// The player after being hit with an item: only a weapon payload deals its
/// damage.
pub open spec fn player_hit(p: PlayerV, weapon: ItemV) -> PlayerV {
    match weapon.type_ {
        ItemType::Weapon(d) => PlayerV {
            life: damage_taken(p.life, p.max_life, d as int, armor_bonus(p.armor)),
            ..p
        },
        _ => p,
    }
}

/// The player after receiving `n` copies of the same item, one at a time.
pub open spec fn add_item_times(p: PlayerV, item: ItemV, n: nat) -> PlayerV
    decreases n,
{
    if n == 0 {
        p
    } else {
        add_item_times(add_item_spec(p, item), item, (n - 1) as nat)
    }
}

/// Receiving one more copy after `n` is receiving it last.
proof fn lemma_add_item_times_snoc(p: PlayerV, item: ItemV, n: nat)
    ensures
        add_item_times(p, item, n + 1) == add_item_spec(add_item_times(p, item, n), item),
    decreases n,
{
    assert(add_item_times(p, item, (n + 1) as nat) == add_item_times(
        add_item_spec(p, item),
        item,
        n,
    ));
    if n != 0 {
        lemma_add_item_times_snoc(add_item_spec(p, item), item, (n - 1) as nat);
    }
}

/// What resolving one event does: whether the end was reached, the player
/// afterwards, and what is left on the tile.
pub struct DoEventOutcome {
    pub reached_end: bool,
    pub player: PlayerV,
    pub event: Option<EventV>,
}

/// The outcome of stepping on a tile holding `e`: a monster trades blows and,
/// if slain, leaves its drop and an empty tile; a treasure is picked up;
/// a teleporter moves the player; the end tile merely reports itself.
pub open spec fn do_event_outcome(e: Option<EventV>, p: PlayerV) -> DoEventOutcome {
    match e {
        None => DoEventOutcome { reached_end: false, player: p, event: None },
        Some(EventV::Empty) => DoEventOutcome {
            reached_end: false,
            player: p,
            event: Some(EventV::Empty),
        },
        Some(EventV::Monster(m)) => {
            let p1 = player_hit(p, m.weapon);
            let m1 = monster_after_fight(m, p.weapon);
            if m1.life <= 0 {
                let p2 = match m1.drop {
                    Some((item, qte)) => add_item_times(p1, item, qte as nat),
                    None => p1,
                };
                DoEventOutcome { reached_end: false, player: p2, event: Some(EventV::Empty) }
            } else {
                DoEventOutcome {
                    reached_end: false,
                    player: p1,
                    event: Some(EventV::Monster(m1)),
                }
            }
        },
        Some(EventV::Treasure(item, value)) => DoEventOutcome {
            reached_end: false,
            player: add_item_spec(p, item),
            event: Some(EventV::Empty),
        },
        Some(EventV::Teleport(q)) => DoEventOutcome {
            reached_end: false,
            player: PlayerV { position: q, ..p },
            event: Some(EventV::Teleport(q)),
        },
        Some(EventV::End) => DoEventOutcome { reached_end: true, player: p, event: Some(EventV::End) },
    }
}

/// The map: a set of events, each under its own position.
pub struct GameMap {
    entries: Vec<(Position, Event)>,
}

impl View for GameMap {
    type V = Seq<(Position, EventV)>;

    closed spec fn view(&self) -> Seq<(Position, EventV)> {
        self.entries@.map_values(|pe: (Position, Event)| (pe.0, pe.1@))
    }
}

impl GameMap {
    /// Well-formed: each position appears at most once. Established by
    /// [`GameMap::new`] and preserved by every method.
    pub open spec fn wf(&self) -> bool {
        unique_keys(self@)
    }

    pub fn new() -> (r: GameMap)
        ensures
            r@ == Seq::<(Position, EventV)>::empty(),
            r.wf(),
    {
        let r = GameMap { entries: Vec::new() };
        proof {
            assert(r@ =~= Seq::<(Position, EventV)>::empty());
        }
        r
    }

    /// The index of the entry under the position, if present.
    fn find_index(&self, position: &Position) -> (r: Option<usize>)
        ensures
            match r {
                Some(i) => i == key_index(self@, *position) && i < self@.len()
                    && self@[i as int].0 == *position,
                None => key_index(self@, *position) == -1,
            },
    {
        proof {
            lemma_key_index(self@, *position);
        }
        let ghost g = key_index(self@, *position);
        let mut k: usize = 0;
        while k < self.entries.len()
            invariant
                k <= self.entries@.len(),
                self@.len() == self.entries@.len(),
                forall|j: int| 0 <= j < self@.len() ==> (#[trigger] self@[j]).0
                    == self.entries@[j].0,
                g == key_index(self@, *position),
                g == -1 ==> forall|i: int| 0 <= i < self@.len() ==> (#[trigger] self@[i]).0
                    != *position,
                g != -1 ==> 0 <= g < self@.len() && self@[g].0 == *position && forall|j: int|
                    0 <= j < g ==> (#[trigger] self@[j]).0 != *position,
                forall|j: int| 0 <= j < k ==> (#[trigger] self@[j]).0 != *position,
            decreases self.entries@.len() - k,
        {
            if self.entries[k].0.x == position.x && self.entries[k].0.y == position.y {
                assert(self@[k as int].0 == *position);
                assert(g == k as int);
                return Some(k);
            }
            assert(self@[k as int].0 != *position);
            k += 1;
        }
        None
    }

    /// Stores the event under the position, replacing what was there.
    pub fn add_event(&mut self, position: Position, event: Event)
        requires
            old(self).wf(),
        ensures
            final(self).wf(),
            spec_event_at(final(self)@, position) == Some(event@),
            forall|q: Position|
                q != position ==> spec_event_at(final(self)@, q) == spec_event_at(old(self)@, q),
            old(self)@.len() <= final(self)@.len() <= old(self)@.len() + 1,
    {
        let ghost olds = self@;
        match self.find_index(&position) {
            Some(i) => {
                proof {
                    lemma_update_value(olds, i as int, event@);
                }
                self.entries[i] = (position, event);
                proof {
                    assert(self@ =~= olds.update(i as int, (olds[i as int].0, self@[i as int].1)));
                }
            },
            None => {
                proof {
                    lemma_push_entry(olds, position, event@);
                }
                let ghost ev = event@;
                self.entries.push((position, event));
                proof {
                    assert(self@ =~= olds.push((position, ev)));
                }
            },
        }
    }

    /// The event at the position, if any.
    pub fn event_at(&self, position: &Position) -> (r: Option<&Event>)
        ensures
            match r {
                Some(e) => spec_event_at(self@, *position) == Some(e@),
                None => spec_event_at(self@, *position) is None,
            },
    {
        match self.find_index(position) {
            Some(i) => Some(&self.entries[i].1),
            None => None,
        }
    }

    /// Clears the position.
    pub fn remove_event(&mut self, position: &Position)
        requires
            old(self).wf(),
        ensures
            final(self).wf(),
            spec_event_at(final(self)@, *position) is None,
            forall|q: Position|
                q != *position ==> spec_event_at(final(self)@, q) == spec_event_at(old(self)@, q),
    {
        let ghost olds = self@;
        match self.find_index(position) {
            Some(i) => {
                proof {
                    lemma_remove_entry(olds, i as int);
                }
                self.entries.remove(i);
                proof {
                    assert(self@ =~= olds.remove(i as int));
                }
            },
            None => {},
        }
    }

    /// Stores the event under the position, replacing what was there.
    /// The positions of all tiles, in storage order.
    pub fn positions(&self) -> (r: Vec<Position>)
        ensures
            r@.len() == self@.len(),
            forall|i: int| 0 <= i < r@.len() ==> r@[i] == (#[trigger] self@[i]).0,
    {
        let mut out: Vec<Position> = Vec::new();
        let mut k: usize = 0;
        while k < self.entries.len()
            invariant
                k <= self.entries@.len(),
                self@.len() == self.entries@.len(),
                out@.len() == k,
                forall|i: int| 0 <= i < k ==> out@[i] == (#[trigger] self@[i]).0,
            decreases self.entries@.len() - k,
        {
            out.push(self.entries[k].0);
            k += 1;
        }
        out
    }

    /// Some position of the map, drawn from the thread-local generator.
    pub fn get_random_position(&self) -> (r: &Position)
        requires
            self@.len() > 0,
        ensures
            exists|i: int| 0 <= i < self@.len() && *r == (#[trigger] self@[i]).0,
    {
        let mut rng = crate::rng::thread_rng();
        let i = crate::rng::thread_gen_index(&mut rng, self.entries.len());
        let r = &self.entries[i].0;
        proof {
            assert(*r == self@[i as int].0);
        }
        r
    }

    /// Builds a fresh map by a random walk from the origin: up to `size` + 1
    /// empty tiles, the origin among them, with exactly one turned into the
    /// end tile.
    pub fn generate_map(&mut self, seed: u64, size: u32)
        ensures
            final(self).wf(),
            1 <= final(self)@.len() <= size + 1,
            spec_event_at(final(self)@, Position { x: 0, y: 0 }) is Some,
            forall|q: Position|
                (#[trigger] spec_event_at(final(self)@, q)) matches Some(e) ==> (e is Empty
                    || e is End),
            exists|i: int|
                0 <= i < final(self)@.len() && (#[trigger] final(self)@[i]).1 is End,
    {
        let mut rng = crate::rng::seeded_rng(seed);
        let mut grid = GameMap::new();
        let start = Position::new(0, 0);
        let mut current = start;
        let mut step: u32 = 0;
        while step < size
            invariant
                grid.wf(),
                step <= size,
                grid@.len() <= step,
                forall|q: Position|
                    (#[trigger] spec_event_at(grid@, q)) matches Some(e) ==> e is Empty,
            decreases size - step,
        {
            let direction = crate::rng::gen_index(&mut rng, 4);
            match direction {
                0 => current.add_x(1),
                1 => current.add_x(-1),
                2 => current.add_y(1),
                _ => current.add_y(-1),
            }
            grid.add_event(current, Event::Empty);
            step += 1;
        }
        let ghost s_walk = grid@;
        grid.add_event(start, Event::Empty);
        let ghost g0 = grid@;
        proof {
            lemma_key_index(g0, start);
            assert(spec_event_at(g0, start) is Some);
            assert(g0.len() >= 1);
            assert(grid@.len() == grid.entries@.len());
        }
        let i = crate::rng::gen_index(&mut rng, grid.entries.len());
        let key = grid.entries[i].0;
        proof {
            assert(g0[i as int].0 == key);
            lemma_update_value(g0, i as int, EventV::End);
        }
        grid.entries[i] = (key, Event::End);
        proof {
            assert(grid@ =~= g0.update(i as int, (key, EventV::End)));
            lemma_key_index(grid@, key);
            assert(grid@[key_index(grid@, key)].1 is End);
            assert forall|q: Position|
                ((#[trigger] spec_event_at(grid@, q)) matches Some(e) ==> (e is Empty
                || e is End)) by {
                if q != key {
                    assert(spec_event_at(grid@, q) == spec_event_at(g0, q));
                    if q != start {
                        assert(spec_event_at(g0, q) == spec_event_at(s_walk, q));
                    }
                }
            }
        }
        *self = grid;
    }

    /// Resolves the event under the player's feet; see [`do_event_outcome`].
    /// Returns whether the end tile was reached.
    pub fn do_event(&mut self, position: &Position, player: &mut Player) -> (r: bool)
        requires
            old(self).wf(),
        ensures
            final(self).wf(),
            ({
                let outcome = do_event_outcome(
                    spec_event_at(old(self)@, *position),
                    old(player)@,
                );
                &&& r == outcome.reached_end
                &&& final(player)@ == outcome.player
                &&& spec_event_at(final(self)@, *position) == outcome.event
                &&& forall|q: Position|
                    q != *position ==> spec_event_at(final(self)@, q) == spec_event_at(
                        old(self)@,
                        q,
                    )
            }),
    {
        let found = self.find_index(position);
        let i = match found {
            Some(i) => i,
            None => {
                return false;
            },
        };
        let ev = self.entries[i].1.clone();
        match ev {
            Event::Empty => false,
            Event::Monster(mut monster) => {
                player.take_damage_from(monster.weapon());
                match player.weapon() {
                    Some(weapon) => {
                        monster.take_damage_from(weapon);
                    },
                    None => {},
                }
                if monster.life() <= 0 {
                    match monster.take_drop() {
                        Some((drop, qte)) => {
                            let ghost p1 = player@;
                            let ghost dropv = drop@;
                            let mut k: u32 = 0;
                            while k < qte
                                invariant
                                    k <= qte,
                                    drop@ == dropv,
                                    player@ == add_item_times(p1, dropv, k as nat),
                                decreases qte - k,
                            {
                                proof {
                                    lemma_add_item_times_snoc(p1, dropv, k as nat);
                                }
                                player.add_item(drop.clone());
                                k += 1;
                            }
                        },
                        None => {},
                    }
                    self.change_event(position, Event::Empty);
                } else {
                    self.change_event(position, Event::Monster(monster));
                }
                false
            },
            Event::Treasure(item, _value) => {
                player.add_item(item);
                self.change_event(position, Event::Empty);
                false
            },
            Event::Teleport(new_position) => {
                player.move_to(new_position);
                false
            },
            Event::End => true,
        }
    }

    pub fn change_event(&mut self, position: &Position, event: Event)
        requires
            old(self).wf(),
        ensures
            final(self).wf(),
            spec_event_at(final(self)@, *position) == Some(event@),
            forall|q: Position|
                q != *position ==> spec_event_at(final(self)@, q) == spec_event_at(old(self)@, q),
    {
        self.add_event(*position, event);
    }
}

} // verus!
