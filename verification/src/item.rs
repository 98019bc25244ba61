//! Items and their effects: the entity records that item files describe and
//! that monsters and the player carry.

use vstd::prelude::*;
use crate::position::Position;
use crate::clamp_i32;

verus! {

/// What using an effect item does. `NoEffect` is the default for an effect item
/// whose text never set the effect field; a `RandomTeleport` destination is
/// chosen later by a collaborator, not here.
#[derive(Debug, PartialEq, Eq, Structural, Clone, Copy)]
pub enum Effect {
    NoEffect,
    Heal(i32),
    Damage(i32),
    Teleport(Position),
    RandomTeleport,
}

impl Effect {
    /// Applies the effect: healing undoes damage on the player (any equipped
    /// armor bonus included, as for a hit), damage lands on the monster if
    /// one is given, and a fixed teleport moves the player. An unset effect
    /// does nothing; a random teleport's destination is a collaborator's
    /// choice, so it does nothing here either.
    pub fn apply(
        &self,
        player: &mut crate::player::Player,
        monster: &mut Option<crate::monster::Monster>,
    )
        ensures
            ({
                let heal_hit = |h: i32| if h == i32::MIN {
                    i32::MAX as int
                } else {
                    -h as int
                };
                match *self {
                    Effect::Heal(h) => final(player)@ == (crate::player::PlayerV {
                        life: crate::player::damage_taken(
                            old(player)@.life,
                            old(player)@.max_life,
                            heal_hit(h),
                            crate::player::armor_bonus(old(player)@.armor),
                        ),
                        ..old(player)@
                    }) && *final(monster) == *old(monster),
                    Effect::Damage(d) => final(player)@ == old(player)@ && match *old(monster) {
                        Some(m) => (*final(monster)) matches Some(m2) && m2@
                            == (crate::monster::MonsterV {
                            life: clamp_i32(m@.life - d),
                            ..m@
                        }),
                        None => *final(monster) == *old(monster),
                    },
                    Effect::Teleport(p) => final(player)@ == (crate::player::PlayerV {
                        position: p,
                        ..old(player)@
                    }) && *final(monster) == *old(monster),
                    _ => final(player)@ == old(player)@ && *final(monster) == *old(monster),
                }
            }),
    {
        match self {
            Effect::Heal(heal) => {
                let h = *heal;
                let neg: i32 = if h == i32::MIN {
                    i32::MAX
                } else {
                    -h
                };
                player.take_damage(neg);
            },
            Effect::Damage(damage) => {
                match monster {
                    Some(m) => {
                        m.take_damage(*damage);
                    },
                    None => {},
                }
            },
            Effect::Teleport(position) => player.move_to(*position),
            Effect::NoEffect => {},
            Effect::RandomTeleport => {},
        }
    }
}

/// The payload that makes an item a weapon, armor, gold, an effect or
/// experience.
#[derive(Debug, PartialEq, Eq, Structural, Clone, Copy)]
pub enum ItemType {
    Weapon(i32),
    Armor(i32),
    Gold(i32),
    Effect(Effect),
    Exp(i32),
}

/// One game item.
#[derive(Debug, PartialEq, Eq)]
pub struct Item {
    name: String,
    description: String,
    value: i32,
    type_: ItemType,
}

/// An item's view after its value grows by `v`, saturating in `i32`: a gold
/// payload follows the new value, any other payload is unchanged.
pub open spec fn add_value_spec(i: ItemV, v: int) -> ItemV {
    let nv = clamp_i32(i.value + v);
    ItemV {
        value: nv,
        type_: match i.type_ {
            ItemType::Gold(_) => ItemType::Gold(nv as i32),
            t => t,
        },
        ..i
    }
}

/// The mathematical value of an [`Item`].
pub struct ItemV {
    pub name: Seq<char>,
    pub description: Seq<char>,
    pub value: int,
    pub type_: ItemType,
}

impl Clone for Item {
    fn clone(&self) -> (r: Self)
        ensures
            r == *self,
    {
        Item {
            name: self.name.clone(),
            description: self.description.clone(),
            value: self.value,
            type_: self.type_,
        }
    }
}

impl View for Item {
    type V = ItemV;

    closed spec fn view(&self) -> ItemV {
        ItemV {
            name: self.name@,
            description: self.description@,
            value: self.value as int,
            type_: self.type_,
        }
    }
}

impl Item {
    pub fn new_weapon(name: &str, description: &str, value: i32, damage: i32) -> (r: Item)
        ensures
            r@ == (ItemV {
                name: name@,
                description: description@,
                value: value as int,
                type_: ItemType::Weapon(damage),
            }),
    {
        Item {
            name: name.to_owned(),
            description: description.to_owned(),
            value,
            type_: ItemType::Weapon(damage),
        }
    }

    pub fn new_armor(name: &str, description: &str, value: i32, defense: i32) -> (r: Item)
        ensures
            r@ == (ItemV {
                name: name@,
                description: description@,
                value: value as int,
                type_: ItemType::Armor(defense),
            }),
    {
        Item {
            name: name.to_owned(),
            description: description.to_owned(),
            value,
            type_: ItemType::Armor(defense),
        }
    }

    /// Gold always gets the fixed name and description.
    pub fn new_gold(value: i32) -> (r: Item)
        ensures
            r@ == (ItemV {
                name: "Gold"@,
                description: "A pile of gold"@,
                value: value as int,
                type_: ItemType::Gold(value),
            }),
    {
        Item {
            name: "Gold".to_owned(),
            description: "A pile of gold".to_owned(),
            value,
            type_: ItemType::Gold(value),
        }
    }

    pub fn new_effect(name: &str, description: &str, value: i32, effect: Effect) -> (r: Item)
        ensures
            r@ == (ItemV {
                name: name@,
                description: description@,
                value: value as int,
                type_: ItemType::Effect(effect),
            }),
    {
        Item {
            name: name.to_owned(),
            description: description.to_owned(),
            value,
            type_: ItemType::Effect(effect),
        }
    }

    pub fn new_exp(name: &str, description: &str, value: i32) -> (r: Item)
        ensures
            r@ == (ItemV {
                name: name@,
                description: description@,
                value: value as int,
                type_: ItemType::Exp(value),
            }),
    {
        Item {
            name: name.to_owned(),
            description: description.to_owned(),
            value,
            type_: ItemType::Exp(value),
        }
    }

    /// The effect carried by an effect item, or nothing for any other kind.
    pub fn use_item(&self) -> (r: Option<&Effect>)
        ensures
            match self@.type_ {
                ItemType::Effect(e) => r == Some(&e),
                _ => r is None,
            },
    {
        match self.type_ {
            ItemType::Effect(ref effect) => Some(effect),
            _ => None,
        }
    }

    pub fn name(&self) -> (r: &str)
        ensures
            r@ == self@.name,
    {
        self.name.as_str()
    }

    pub fn description(&self) -> (r: &str)
        ensures
            r@ == self@.description,
    {
        self.description.as_str()
    }

    pub fn value(&self) -> (r: i32)
        ensures
            r as int == self@.value,
    {
        self.value
    }

    pub fn type_(&self) -> (r: &ItemType)
        ensures
            r == &self@.type_,
    {
        &self.type_
    }

    /// Adds to the item's value, saturating at the ends of the `i32` range; a
    /// gold payload follows the new value (gold stacks), any other payload is
    /// unchanged.
    pub fn add_value(&mut self, value: i32)
        ensures
            final(self)@ == add_value_spec(old(self)@, value as int),
    {
        self.value = crate::add_clamped(self.value, value);
        match self.type_ {
            ItemType::Gold(_) => {
                self.type_ = ItemType::Gold(self.value);
            },
            _ => {},
        }
    }
}

} // verus!
