//! The player: position, equipment, inventory and experience, with the
//! gold-stacking and level-up rules that adding an item triggers.

use vstd::prelude::*;
use crate::clamp_i32;
use crate::item::{Item, ItemType, ItemV};
use crate::position::Position;

verus! {

/// A step direction on the grid.
#[derive(Debug, Clone, Copy)]
pub enum Direction {
    Up,
    Down,
    Left,
    Right,
}

/// The player character.
#[derive(Debug, PartialEq, Eq)]
pub struct Player {
    name: String,
    life: i32,
    max_life: i32,
    position: Position,
    weapon: Option<Item>,
    armor: Option<Item>,
    inventory: Vec<Item>,
    experience: i32,
    level: i32,
    next_level: i32,
}

/// The mathematical value of a [`Player`].
pub struct PlayerV {
    pub name: Seq<char>,
    pub life: int,
    pub max_life: int,
    pub position: Position,
    pub weapon: Option<ItemV>,
    pub armor: Option<ItemV>,
    pub inventory: Seq<ItemV>,
    pub experience: int,
    pub level: int,
    pub next_level: int,
}

/// The view of an optional carried item.
pub open spec fn opt_item_view(o: Option<Item>) -> Option<ItemV> {
    match o {
        Some(item) => Some(item@),
        None => None,
    }
}

/// The view of an item sequence, element for element.
pub open spec fn items_view(s: Seq<Item>) -> Seq<ItemV> {
    s.map_values(|i: Item| i@)
}

/// Whether an item is a pile of gold.
pub open spec fn is_gold(i: ItemV) -> bool {
    i.type_ is Gold
}

/// The index of the first gold item in the sequence, or -1 when there is
/// none.
pub open spec fn first_gold(s: Seq<ItemV>) -> int
    decreases s.len(),
{
    if s.len() == 0 {
        -1
    } else if is_gold(s[0]) {
        0
    } else {
        let r = first_gold(s.drop_first());
        if r < 0 {
            -1
        } else {
            r + 1
        }
    }
}

/// `first_gold` finds the first gold item if and only if one exists.
pub proof fn lemma_first_gold(s: Seq<ItemV>)
    ensures
        first_gold(s) == -1 ==> forall|i: int| 0 <= i < s.len() ==> !is_gold(#[trigger] s[i]),
        first_gold(s) != -1 ==> {
            &&& 0 <= first_gold(s) < s.len()
            &&& is_gold(s[first_gold(s)])
            &&& forall|j: int| 0 <= j < first_gold(s) ==> !is_gold(#[trigger] s[j])
        },
    decreases s.len(),
{
    if s.len() != 0 && !is_gold(s[0]) {
        lemma_first_gold(s.drop_first());
        assert forall|i: int| 1 <= i < s.len() implies s.drop_first()[i - 1] == s[i] by {}
    }
}

/// The armor bonus that softens a hit: the armor item's value, or 0 bare.
pub open spec fn armor_bonus(armor: Option<ItemV>) -> int {
    match armor {
        Some(a) => a.value,
        None => 0,
    }
}

/// Life after a hit of `damage` softened by `armor`: the exact result, capped
/// above by `max_life` and saturating at the bottom of the `i32` range.
pub open spec fn damage_taken(life: int, max_life: int, damage: int, armor: int) -> int {
    let v = life - (damage - armor);
    clamp_i32(if v > max_life {
        max_life
    } else {
        v
    })
}

/// The player after levelling up once: the next-level threshold grows by
/// half, the maximum life by a tenth, and life refills; each saturating in
/// `i32`.
pub open spec fn leveled_up(p: PlayerV) -> PlayerV {
    PlayerV {
        level: clamp_i32(p.level + 1),
        next_level: clamp_i32(15 * p.next_level),
        max_life: clamp_i32(11 * p.max_life),
        life: clamp_i32(11 * p.max_life),
        ..p
    }
}

/// The player after receiving one item: experience items add experience and
/// may level the player up, gold stacks onto the first gold already carried,
/// and anything else is appended to the inventory.
pub open spec fn add_item_spec(p: PlayerV, item: ItemV) -> PlayerV {
    match item.type_ {
        ItemType::Exp(e) => {
            let exp2 = clamp_i32(p.experience + e);
            let p2 = PlayerV { experience: exp2, ..p };
            if exp2 >= p.next_level {
                leveled_up(p2)
            } else {
                p2
            }
        },
        ItemType::Gold(_) => {
            let g = first_gold(p.inventory);
            if g >= 0 {
                let stacked = crate::item::add_value_spec(p.inventory[g], item.value);
                PlayerV { inventory: p.inventory.update(g, stacked), ..p }
            } else {
                PlayerV { inventory: p.inventory.push(item), ..p }
            }
        },
        _ => PlayerV { inventory: p.inventory.push(item), ..p },
    }
}

impl View for Player {
    type V = PlayerV;

    closed spec fn view(&self) -> PlayerV {
        PlayerV {
            name: self.name@,
            life: self.life as int,
            max_life: self.max_life as int,
            position: self.position,
            weapon: opt_item_view(self.weapon),
            armor: opt_item_view(self.armor),
            inventory: items_view(self.inventory@),
            experience: self.experience as int,
            level: self.level as int,
            next_level: self.next_level as int,
        }
    }
}

impl Player {
    /// A fresh level-one player holding a stick.
    pub fn new(name: &str) -> (r: Player)
        ensures
            r@ == (PlayerV {
                name: name@,
                life: 100,
                max_life: 100,
                position: Position { x: 0, y: 0 },
                weapon: Some(ItemV {
                    name: "Stick"@,
                    description: "A stick"@,
                    value: 0,
                    type_: ItemType::Weapon(1),
                }),
                armor: None,
                inventory: Seq::empty(),
                experience: 0,
                level: 1,
                next_level: 100,
            }),
    {
        let r = Player {
            name: name.to_owned(),
            life: 100,
            max_life: 100,
            position: Position::new(0, 0),
            weapon: Some(Item::new_weapon("Stick", "A stick", 0, 1)),
            armor: None,
            inventory: Vec::new(),
            experience: 0,
            level: 1,
            next_level: 100,
        };
        proof {
            assert(items_view(Seq::<Item>::empty()) =~= Seq::<ItemV>::empty());
        }
        r
    }

    pub fn new_all(
        name: &str,
        life: i32,
        max_life: i32,
        position: Position,
        weapon: Option<Item>,
        armor: Option<Item>,
        inventory: Vec<Item>,
        experience: i32,
        level: i32,
        next_level: i32,
    ) -> (r: Player)
        ensures
            r@ == (PlayerV {
                name: name@,
                life: life as int,
                max_life: max_life as int,
                position,
                weapon: opt_item_view(weapon),
                armor: opt_item_view(armor),
                inventory: items_view(inventory@),
                experience: experience as int,
                level: level as int,
                next_level: next_level as int,
            }),
    {
        Player {
            name: name.to_owned(),
            life,
            max_life,
            position,
            weapon,
            armor,
            inventory,
            experience,
            level,
            next_level,
        }
    }

    pub fn name(&self) -> (r: &str)
        ensures
            r@ == self@.name,
    {
        self.name.as_str()
    }

    pub fn life(&self) -> (r: i32)
        ensures
            r as int == self@.life,
    {
        self.life
    }

    pub fn position(&self) -> (r: &Position)
        ensures
            *r == self@.position,
    {
        &self.position
    }

    pub fn inventory(&self) -> (r: &Vec<Item>)
        ensures
            items_view(r@) == self@.inventory,
    {
        &self.inventory
    }

    pub fn weapon(&self) -> (r: Option<&Item>)
        ensures
            match r {
                Some(item) => self@.weapon == Some(item@),
                None => self@.weapon is None,
            },
    {
        self.weapon.as_ref()
    }

    pub fn equip_weapon(&mut self, weapon: Item)
        ensures
            final(self)@ == (PlayerV { weapon: Some(weapon@), ..old(self)@ }),
    {
        self.weapon = Some(weapon);
    }

    pub fn armor(&self) -> (r: Option<&Item>)
        ensures
            match r {
                Some(item) => self@.armor == Some(item@),
                None => self@.armor is None,
            },
    {
        self.armor.as_ref()
    }

    pub fn equip_armor(&mut self, armor: Item)
        ensures
            final(self)@ == (PlayerV { armor: Some(armor@), ..old(self)@ }),
    {
        self.armor = Some(armor);
    }

    pub fn move_to(&mut self, position: Position)
        ensures
            final(self)@ == (PlayerV { position, ..old(self)@ }),
    {
        self.position = position;
    }

    /// Steps one tile in the given direction, saturating at the edge of the
    /// coordinate range.
    pub fn move_to_direction(&mut self, direction: Direction)
        ensures
            final(self)@ == (PlayerV {
                position: match direction {
                    Direction::Up => (Position {
                        y: clamp_i32(old(self)@.position.y - 1) as i32,
                        ..old(self)@.position
                    }),
                    Direction::Down => (Position {
                        y: clamp_i32(old(self)@.position.y + 1) as i32,
                        ..old(self)@.position
                    }),
                    Direction::Left => (Position {
                        x: clamp_i32(old(self)@.position.x - 1) as i32,
                        ..old(self)@.position
                    }),
                    Direction::Right => (Position {
                        x: clamp_i32(old(self)@.position.x + 1) as i32,
                        ..old(self)@.position
                    }),
                },
                ..old(self)@
            }),
    {
        match direction {
            Direction::Up => self.position.add_y(-1),
            Direction::Down => self.position.add_y(1),
            Direction::Left => self.position.add_x(-1),
            Direction::Right => self.position.add_x(1),
        }
    }

    /// Takes a hit softened by any equipped armor; life is capped at the
    /// maximum and may go negative. Returns whether the player is now dead.
    pub fn take_damage(&mut self, damage: i32) -> (r: bool)
        ensures
            final(self)@ == (PlayerV {
                life: damage_taken(
                    old(self)@.life,
                    old(self)@.max_life,
                    damage as int,
                    armor_bonus(old(self)@.armor),
                ),
                ..old(self)@
            }),
            r == (final(self)@.life <= 0),
    {
        let bonus: i32 = match &self.armor {
            Some(a) => a.value(),
            None => 0,
        };
        let v: i64 = self.life as i64 - (damage as i64 - bonus as i64);
        let capped: i64 = if v > self.max_life as i64 {
            self.max_life as i64
        } else {
            v
        };
        self.life = if capped < i32::MIN as i64 {
            i32::MIN
        } else {
            capped as i32
        };
        self.life <= 0
    }

    pub fn is_dead(&self) -> (r: bool)
        ensures
            r == (self@.life <= 0),
    {
        self.life <= 0
    }

    /// Applies a weapon item's attack as damage; any other item does nothing
    /// and reports the player alive regardless of current life.
    pub fn take_damage_from(&mut self, weapon: &Item) -> (r: bool)
        ensures
            match weapon@.type_ {
                ItemType::Weapon(damage) => {
                    &&& final(self)@ == (PlayerV {
                        life: damage_taken(
                            old(self)@.life,
                            old(self)@.max_life,
                            damage as int,
                            armor_bonus(old(self)@.armor),
                        ),
                        ..old(self)@
                    })
                    &&& r == (final(self)@.life <= 0)
                },
                _ => final(self)@ == old(self)@ && r == false,
            },
    {
        match weapon.type_() {
            ItemType::Weapon(damage) => {
                let d = *damage;
                self.take_damage(d)
            },
            _ => false,
        }
    }

    pub fn level(&self) -> (r: i32)
        ensures
            r as int == self@.level,
    {
        self.level
    }

    pub fn experience(&self) -> (r: i32)
        ensures
            r as int == self@.experience,
    {
        self.experience
    }

    pub fn next_level(&self) -> (r: i32)
        ensures
            r as int == self@.next_level,
    {
        self.next_level
    }

    /// Levels the player up once; see [`leveled_up`].
    pub fn level_up(&mut self)
        ensures
            final(self)@ == leveled_up(old(self)@),
    {
        self.level = crate::add_clamped(self.level, 1);
        self.next_level = crate::mul_clamped(self.next_level, 15);
        self.max_life = crate::mul_clamped(self.max_life, 11);
        self.life = self.max_life;
    }

    /// The first gold item carried, if any.
    pub fn get_gold(&self) -> (r: Option<&Item>)
        ensures
            ({
                let g = first_gold(self@.inventory);
                match r {
                    Some(item) => g >= 0 && item@ == self@.inventory[g],
                    None => g == -1,
                }
            }),
    {
        proof {
            lemma_first_gold(self@.inventory);
        }
        let ghost g = first_gold(self@.inventory);
        let mut k: usize = 0;
        while k < self.inventory.len()
            invariant
                k <= self.inventory@.len(),
                items_view(self.inventory@) == self@.inventory,
                g == first_gold(self@.inventory),
                g == -1 ==> forall|i: int|
                    0 <= i < self@.inventory.len() ==> !is_gold(#[trigger] self@.inventory[i]),
                g != -1 ==> 0 <= g < self@.inventory.len() && is_gold(self@.inventory[g])
                    && forall|j: int| 0 <= j < g ==> !is_gold(#[trigger] self@.inventory[j]),
                forall|j: int| 0 <= j < k ==> !is_gold(#[trigger] self@.inventory[j]),
            decreases self.inventory@.len() - k,
        {
            let found = match self.inventory[k].type_() {
                ItemType::Gold(_) => true,
                _ => false,
            };
            if found {
                assert(is_gold(self@.inventory[k as int]));
                assert(g == k as int);
                return Some(&self.inventory[k]);
            }
            assert(!is_gold(self@.inventory[k as int]));
            k += 1;
        }
        None
    }

    /// Receives one item; see [`add_item_spec`].
    pub fn add_item(&mut self, item: Item)
        ensures
            final(self)@ == add_item_spec(old(self)@, item@),
    {
        match item.type_() {
            ItemType::Exp(exp) => {
                let e = *exp;
                self.experience = crate::add_clamped(self.experience, e);
                if self.experience >= self.next_level {
                    self.level_up();
                }
            },
            ItemType::Gold(_) => {
                proof {
                    lemma_first_gold(self@.inventory);
                }
                let ghost g = first_gold(self@.inventory);
                let mut k: usize = 0;
                let mut hit = false;
                while k < self.inventory.len() && !hit
                    invariant
                        k <= self.inventory@.len(),
                        items_view(self.inventory@) == self@.inventory,
                        g == first_gold(self@.inventory),
                        g == -1 ==> forall|i: int|
                            0 <= i < self@.inventory.len() ==> !is_gold(
                                #[trigger] self@.inventory[i],
                            ),
                        g != -1 ==> 0 <= g < self@.inventory.len() && is_gold(self@.inventory[g])
                            && forall|j: int| 0 <= j < g ==> !is_gold(
                            #[trigger] self@.inventory[j],
                        ),
                        !hit ==> forall|j: int| 0 <= j < k ==> !is_gold(
                            #[trigger] self@.inventory[j],
                        ),
                        hit ==> k < self@.inventory.len() && g == k as int,
                    decreases self.inventory@.len() - k + (if hit {
                        0int
                    } else {
                        1int
                    }),
                {
                    let found = match self.inventory[k].type_() {
                        ItemType::Gold(_) => true,
                        _ => false,
                    };
                    if found {
                        proof {
                            assert(is_gold(self@.inventory[k as int]));
                            assert(g == k as int);
                        }
                        hit = true;
                    } else {
                        assert(!is_gold(self@.inventory[k as int]));
                        k += 1;
                    }
                }
                if hit {
                    let v = item.value();
                    let ghost before = self.inventory@;
                    let mut stacked = self.inventory[k].clone();
                    stacked.add_value(v);
                    self.inventory[k] = stacked;
                    proof {
                        assert(items_view(self.inventory@) =~= items_view(before).update(
                            k as int,
                            self.inventory@[k as int]@,
                        ));
                    }
                } else {
                    let ghost before = self.inventory@;
                    let ghost itemv = item@;
                    self.inventory.push(item);
                    proof {
                        assert(items_view(self.inventory@) =~= items_view(before).push(itemv));
                    }
                }
            },
            _ => {
                let ghost before = self.inventory@;
                let ghost itemv = item@;
                self.inventory.push(item);
                proof {
                    assert(items_view(self.inventory@) =~= items_view(before).push(itemv));
                }
            },
        }
    }
}

} // verus!
