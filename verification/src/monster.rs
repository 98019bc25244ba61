//! Monsters: entities built from monster files, carrying a weapon copied from
//! the item catalog and an optional drop.

use vstd::prelude::*;
use crate::clamp_i32;
use crate::item::{Item, ItemType, ItemV};

verus! {

/// One monster.
#[derive(Debug, PartialEq, Eq)]
pub struct Monster {
    name: String,
    life: i32,
    weapon: Item,
    drop: Option<(Item, u32)>,
    rareness: u32,
}

/// The mathematical value of a [`Monster`].
pub struct MonsterV {
    pub name: Seq<char>,
    pub life: int,
    pub weapon: ItemV,
    pub drop: Option<(ItemV, u32)>,
    pub rareness: u32,
}

/// The view of an optional drop: the dropped item and how many of it fall.
pub open spec fn drop_view(o: Option<(Item, u32)>) -> Option<(ItemV, u32)> {
    match o {
        Some((item, qte)) => Some((item@, qte)),
        None => None,
    }
}

impl Clone for Monster {
    fn clone(&self) -> (r: Self)
        ensures
            r == *self,
    {
        Monster {
            name: self.name.clone(),
            life: self.life,
            weapon: self.weapon.clone(),
            drop: match &self.drop {
                Some((item, qte)) => Some((item.clone(), *qte)),
                None => None,
            },
            rareness: self.rareness,
        }
    }
}

impl View for Monster {
    type V = MonsterV;

    closed spec fn view(&self) -> MonsterV {
        MonsterV {
            name: self.name@,
            life: self.life as int,
            weapon: self.weapon@,
            drop: drop_view(self.drop),
            rareness: self.rareness,
        }
    }
}

impl Monster {
    pub fn new(
        name: &str,
        life: i32,
        weapon: Item,
        drop: Option<Item>,
        dropqte: u32,
        rareness: u32,
    ) -> (r: Monster)
        ensures
            r@ == (MonsterV {
                name: name@,
                life: life as int,
                weapon: weapon@,
                drop: match drop {
                    Some(item) => Some((item@, dropqte)),
                    None => None,
                },
                rareness,
            }),
    {
        Monster {
            name: name.to_owned(),
            life,
            weapon,
            drop: match drop {
                Some(item) => Some((item, dropqte)),
                None => None,
            },
            rareness,
        }
    }

    pub fn name(&self) -> (r: &str)
        ensures
            r@ == self@.name,
    {
        self.name.as_str()
    }

    pub fn life(&self) -> (r: i32)
        ensures
            r as int == self@.life,
    {
        self.life
    }

    /// Lowers the monster's life by the damage dealt, saturating at the ends
    /// of the `i32` range; life may go negative.
    pub fn take_damage(&mut self, damage: i32)
        ensures
            final(self)@ == (MonsterV {
                life: clamp_i32(old(self)@.life - damage),
                ..old(self)@
            }),
    {
        self.life = crate::sub_clamped(self.life, damage);
    }

    /// Applies a weapon item's attack as damage; any other item does nothing.
    pub fn take_damage_from(&mut self, weapon: &Item)
        ensures
            final(self)@ == (MonsterV {
                life: match weapon@.type_ {
                    ItemType::Weapon(damage) => clamp_i32(old(self)@.life - damage),
                    _ => old(self)@.life,
                },
                ..old(self)@
            }),
    {
        match weapon.type_() {
            ItemType::Weapon(damage) => self.take_damage(*damage),
            _ => {},
        }
    }

    pub fn drop(&self) -> (r: &Option<(Item, u32)>)
        ensures
            drop_view(*r) == self@.drop,
    {
        &self.drop
    }

    pub fn weapon(&self) -> (r: &Item)
        ensures
            r@ == self@.weapon,
    {
        &self.weapon
    }

    /// Takes the drop out of the monster, leaving none behind.
    pub fn take_drop(&mut self) -> (r: Option<(Item, u32)>)
        ensures
            drop_view(r) == old(self)@.drop,
            final(self)@ == (MonsterV { drop: None, ..old(self)@ }),
    {
        self.drop.take()
    }

    /// Replaces the monster's weapon.
    pub fn set_weapon(&mut self, weapon: Item)
        ensures
            final(self)@ == (MonsterV { weapon: weapon@, ..old(self)@ }),
    {
        self.weapon = weapon;
    }
}

} // verus!
