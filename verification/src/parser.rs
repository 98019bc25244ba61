//! The parser: consumes a token sequence positionally, dispatches on the
//! leading record-kind token, and builds one typed entity per call through
//! permissive field-scan loops. Reads past the end of the token sequence see
//! the end marker, so a truncated sequence degrades to a partial entity
//! rather than a fault.

use vstd::prelude::*;
use crate::item::{Effect, Item, ItemType, ItemV};
use crate::lexer::{tokens_view, Token, TokenV};
use crate::monster::{Monster, MonsterV};
use crate::player::{add_item_spec, items_view, opt_item_view, Player, PlayerV};
use crate::position::Position;

verus! {

/// The token at a position: the stored token in range, the end marker past
/// the end.
pub open spec fn tok_at(toks: Seq<TokenV>, i: int) -> TokenV {
    if 0 <= i < toks.len() {
        toks[i]
    } else {
        TokenV::Eof
    }
}

/// A cursor capped at the end of the sequence.
pub open spec fn capped(toks: Seq<TokenV>, i: int) -> int {
    if i >= toks.len() {
        toks.len() as int
    } else {
        i
    }
}

/// The cursor after consuming one token.
pub open spec fn adv(toks: Seq<TokenV>, i: int) -> int {
    if i < toks.len() {
        i + 1
    } else {
        i
    }
}

/// The weapon item built by the weapon field-scan loop from `pos`, with the
/// fields collected so far; see the loop rules in [`Parser::parse_item`].
pub open spec fn spec_fetch_weapon(
    toks: Seq<TokenV>,
    pos: int,
    name: Seq<char>,
    atk: i32,
    description: Seq<char>,
    value: i32,
) -> ItemV
    decreases toks.len() - pos,
        when 0 <= pos
{
    if tok_at(toks, pos) is Eof {
        ItemV { name, description, value: value as int, type_: ItemType::Weapon(atk) }
    } else {
        match tok_at(toks, pos) {
            TokenV::Name => match tok_at(toks, pos + 2) {
                TokenV::Str(s) => spec_fetch_weapon(
                    toks,
                    capped(toks, pos + 3),
                    s,
                    atk,
                    description,
                    value,
                ),
                _ => ItemV {
                    name,
                    description,
                    value: value as int,
                    type_: ItemType::Weapon(atk),
                },
            },
            TokenV::Atk => match tok_at(toks, pos + 2) {
                TokenV::Int(n) => spec_fetch_weapon(
                    toks,
                    capped(toks, pos + 3),
                    name,
                    n as i32,
                    description,
                    value,
                ),
                _ => ItemV {
                    name,
                    description,
                    value: value as int,
                    type_: ItemType::Weapon(atk),
                },
            },
            TokenV::Description => match tok_at(toks, pos + 2) {
                TokenV::Str(s) => spec_fetch_weapon(
                    toks,
                    capped(toks, pos + 3),
                    name,
                    atk,
                    s,
                    value,
                ),
                _ => ItemV {
                    name,
                    description,
                    value: value as int,
                    type_: ItemType::Weapon(atk),
                },
            },
            TokenV::Value => match tok_at(toks, pos + 2) {
                TokenV::Int(n) => spec_fetch_weapon(
                    toks,
                    capped(toks, pos + 3),
                    name,
                    atk,
                    description,
                    n as i32,
                ),
                _ => ItemV {
                    name,
                    description,
                    value: value as int,
                    type_: ItemType::Weapon(atk),
                },
            },
            _ => ItemV { name, description, value: value as int, type_: ItemType::Weapon(atk) },
        }
    }
}

/// The armor item built by the armor field-scan loop from `pos`, with the
/// fields collected so far.
pub open spec fn spec_fetch_armor(
    toks: Seq<TokenV>,
    pos: int,
    name: Seq<char>,
    def: i32,
    description: Seq<char>,
    value: i32,
) -> ItemV
    decreases toks.len() - pos,
        when 0 <= pos
{
    if tok_at(toks, pos) is Eof {
        ItemV { name, description, value: value as int, type_: ItemType::Armor(def) }
    } else {
        match tok_at(toks, pos) {
            TokenV::Name => match tok_at(toks, pos + 2) {
                TokenV::Str(s) => spec_fetch_armor(
                    toks,
                    capped(toks, pos + 3),
                    s,
                    def,
                    description,
                    value,
                ),
                _ => ItemV { name, description, value: value as int, type_: ItemType::Armor(def) },
            },
            TokenV::Def => match tok_at(toks, pos + 2) {
                TokenV::Int(n) => spec_fetch_armor(
                    toks,
                    capped(toks, pos + 3),
                    name,
                    n as i32,
                    description,
                    value,
                ),
                _ => ItemV { name, description, value: value as int, type_: ItemType::Armor(def) },
            },
            TokenV::Description => match tok_at(toks, pos + 2) {
                TokenV::Str(s) => spec_fetch_armor(
                    toks,
                    capped(toks, pos + 3),
                    name,
                    def,
                    s,
                    value,
                ),
                _ => ItemV { name, description, value: value as int, type_: ItemType::Armor(def) },
            },
            TokenV::Value => match tok_at(toks, pos + 2) {
                TokenV::Int(n) => spec_fetch_armor(
                    toks,
                    capped(toks, pos + 3),
                    name,
                    def,
                    description,
                    n as i32,
                ),
                _ => ItemV { name, description, value: value as int, type_: ItemType::Armor(def) },
            },
            _ => ItemV { name, description, value: value as int, type_: ItemType::Armor(def) },
        }
    }
}

/// The experience item built by the experience field-scan loop from `pos`,
/// with the fields collected so far. The experience payload mirrors the value
/// field.
pub open spec fn spec_fetch_exp(
    toks: Seq<TokenV>,
    pos: int,
    name: Seq<char>,
    description: Seq<char>,
    value: i32,
) -> ItemV
    decreases toks.len() - pos,
        when 0 <= pos
{
    if tok_at(toks, pos) is Eof {
        ItemV { name, description, value: value as int, type_: ItemType::Exp(value) }
    } else {
        match tok_at(toks, pos) {
            TokenV::Value => match tok_at(toks, pos + 2) {
                TokenV::Int(n) => spec_fetch_exp(
                    toks,
                    capped(toks, pos + 3),
                    name,
                    description,
                    n as i32,
                ),
                _ => ItemV { name, description, value: value as int, type_: ItemType::Exp(value) },
            },
            TokenV::Name => match tok_at(toks, pos + 2) {
                TokenV::Str(s) => spec_fetch_exp(
                    toks,
                    capped(toks, pos + 3),
                    s,
                    description,
                    value,
                ),
                _ => ItemV { name, description, value: value as int, type_: ItemType::Exp(value) },
            },
            TokenV::Description => match tok_at(toks, pos + 2) {
                TokenV::Str(s) => spec_fetch_exp(
                    toks,
                    capped(toks, pos + 3),
                    name,
                    s,
                    value,
                ),
                _ => ItemV { name, description, value: value as int, type_: ItemType::Exp(value) },
            },
            _ => ItemV { name, description, value: value as int, type_: ItemType::Exp(value) },
        }
    }
}

/// The effect item built by the effect field-scan loop from `pos`, with the
/// fields collected so far. The effect field carries its own sub-grammar:
/// heal and damage take an integer; teleport takes the start or the random
/// marker; an unrecognized sub-keyword stops the whole loop, while a heal or
/// damage amount of the wrong type merely leaves the effect unchanged.
pub open spec fn spec_fetch_effect(
    toks: Seq<TokenV>,
    pos: int,
    name: Seq<char>,
    description: Seq<char>,
    value: i32,
    effect: Effect,
) -> ItemV
    decreases toks.len() - pos,
        when 0 <= pos
{
    if tok_at(toks, pos) is Eof {
        ItemV { name, description, value: value as int, type_: ItemType::Effect(effect) }
    } else {
        match tok_at(toks, pos) {
            TokenV::Name => match tok_at(toks, pos + 2) {
                TokenV::Str(s) => spec_fetch_effect(
                    toks,
                    capped(toks, pos + 3),
                    s,
                    description,
                    value,
                    effect,
                ),
                _ => ItemV {
                    name,
                    description,
                    value: value as int,
                    type_: ItemType::Effect(effect),
                },
            },
            TokenV::Description => match tok_at(toks, pos + 2) {
                TokenV::Str(s) => spec_fetch_effect(
                    toks,
                    capped(toks, pos + 3),
                    name,
                    s,
                    value,
                    effect,
                ),
                _ => ItemV {
                    name,
                    description,
                    value: value as int,
                    type_: ItemType::Effect(effect),
                },
            },
            TokenV::Value => match tok_at(toks, pos + 2) {
                TokenV::Int(n) => spec_fetch_effect(
                    toks,
                    capped(toks, pos + 3),
                    name,
                    description,
                    n as i32,
                    effect,
                ),
                _ => ItemV {
                    name,
                    description,
                    value: value as int,
                    type_: ItemType::Effect(effect),
                },
            },
            TokenV::Effect => match tok_at(toks, pos + 2) {
                TokenV::Heal => spec_fetch_effect(
                    toks,
                    capped(toks, pos + 5),
                    name,
                    description,
                    value,
                    match tok_at(toks, pos + 4) {
                        TokenV::Int(n) => Effect::Heal(n as i32),
                        _ => effect,
                    },
                ),
                TokenV::Damage => spec_fetch_effect(
                    toks,
                    capped(toks, pos + 5),
                    name,
                    description,
                    value,
                    match tok_at(toks, pos + 4) {
                        TokenV::Int(n) => Effect::Damage(n as i32),
                        _ => effect,
                    },
                ),
                TokenV::Teleport => match tok_at(toks, pos + 4) {
                    TokenV::Start => spec_fetch_effect(
                        toks,
                        capped(toks, pos + 5),
                        name,
                        description,
                        value,
                        Effect::Teleport(Position { x: 0, y: 0 }),
                    ),
                    TokenV::Random => spec_fetch_effect(
                        toks,
                        capped(toks, pos + 5),
                        name,
                        description,
                        value,
                        Effect::RandomTeleport,
                    ),
                    _ => ItemV {
                        name,
                        description,
                        value: value as int,
                        type_: ItemType::Effect(effect),
                    },
                },
                _ => ItemV {
                    name,
                    description,
                    value: value as int,
                    type_: ItemType::Effect(effect),
                },
            },
            _ => ItemV { name, description, value: value as int, type_: ItemType::Effect(effect) },
        }
    }
}

/// The gold item of the strict gold form, or nothing: gold expects exactly
/// the value keyword, a separator and an integer, and yields no partial
/// result.
pub open spec fn spec_fetch_gold(toks: Seq<TokenV>, pos: int) -> Option<ItemV> {
    if tok_at(toks, pos) is Value {
        match tok_at(toks, pos + 2) {
            TokenV::Int(n) => Some(
                ItemV {
                    name: "Gold"@,
                    description: "A pile of gold"@,
                    value: n as i32 as int,
                    type_: ItemType::Gold(n as i32),
                },
            ),
            _ => None,
        }
    } else {
        None
    }
}

/// The item a whole item record describes, or nothing: the record must open
/// with the item keyword and a recognized subtype keyword; the matching
/// field-scan loop builds the rest permissively (gold strictly).
pub open spec fn spec_parse_item(toks: Seq<TokenV>, pos: int) -> Option<ItemV> {
    if tok_at(toks, pos) is Item {
        match tok_at(toks, pos + 1) {
            TokenV::Weapon => Some(
                spec_fetch_weapon(toks, capped(toks, pos + 2), Seq::empty(), 0, Seq::empty(), 0),
            ),
            TokenV::Armor => Some(
                spec_fetch_armor(toks, capped(toks, pos + 2), Seq::empty(), 0, Seq::empty(), 0),
            ),
            TokenV::Effect => Some(
                spec_fetch_effect(
                    toks,
                    capped(toks, pos + 2),
                    Seq::empty(),
                    Seq::empty(),
                    0,
                    Effect::NoEffect,
                ),
            ),
            TokenV::Gold => spec_fetch_gold(toks, capped(toks, pos + 2)),
            TokenV::Exp => Some(
                spec_fetch_exp(toks, capped(toks, pos + 2), Seq::empty(), Seq::empty(), 0),
            ),
            _ => None,
        }
    } else {
        None
    }
}

/// The index of the first catalog item with the given name, or -1 when there
/// is none.
pub open spec fn item_index(cat: Seq<ItemV>, name: Seq<char>) -> int
    decreases cat.len(),
{
    if cat.len() == 0 {
        -1
    } else if cat[0].name == name {
        0
    } else {
        let r = item_index(cat.drop_first(), name);
        if r < 0 {
            -1
        } else {
            r + 1
        }
    }
}

/// The first catalog item with the given name: exact equality, first match
/// wins.
pub open spec fn catalog_find(cat: Seq<ItemV>, name: Seq<char>) -> Option<ItemV> {
    let i = item_index(cat, name);
    if i >= 0 {
        Some(cat[i])
    } else {
        None
    }
}

/// `item_index` finds the first item with the name if and only if one
/// exists.
proof fn lemma_item_index(cat: Seq<ItemV>, name: Seq<char>)
    ensures
        item_index(cat, name) == -1 ==> forall|i: int|
            0 <= i < cat.len() ==> (#[trigger] cat[i]).name != name,
        item_index(cat, name) != -1 ==> {
            &&& 0 <= item_index(cat, name) < cat.len()
            &&& cat[item_index(cat, name)].name == name
            &&& forall|j: int| 0 <= j < item_index(cat, name) ==> (#[trigger] cat[j]).name != name
        },
    decreases cat.len(),
{
    if cat.len() != 0 && cat[0].name != name {
        lemma_item_index(cat.drop_first(), name);
        assert forall|i: int| 1 <= i < cat.len() implies cat.drop_first()[i - 1] == cat[i] by {}
    }
}

/// A copy of the first catalog item with the given name, if any.
fn find_item(items: &Vec<Item>, name: &String) -> (r: Option<Item>)
    ensures
        opt_item_view(r) == catalog_find(items_view(items@), name@),
{
    let ghost cat = items_view(items@);
    proof {
        lemma_item_index(cat, name@);
    }
    let ghost g = item_index(cat, name@);
    let mut k: usize = 0;
    while k < items.len()
        invariant
            k <= items@.len(),
            cat == items_view(items@),
            g == item_index(cat, name@),
            g == -1 ==> forall|i: int| 0 <= i < cat.len() ==> (#[trigger] cat[i]).name != name@,
            g != -1 ==> 0 <= g < cat.len() && cat[g].name == name@ && forall|j: int|
                0 <= j < g ==> (#[trigger] cat[j]).name != name@,
            forall|j: int| 0 <= j < k ==> (#[trigger] cat[j]).name != name@,
        decreases items@.len() - k,
    {
        let n = items[k].name().to_owned();
        if n.eq(name) {
            assert(cat[k as int].name == name@);
            assert(g == k as int);
            return Some(items[k].clone());
        }
        assert(cat[k as int].name != name@);
        k += 1;
    }
    None
}

/// The view of an optional monster.
pub open spec fn opt_monster_view(o: Option<Monster>) -> Option<MonsterV> {
    match o {
        Some(m) => Some(m@),
        None => None,
    }
}

/// `n` copies of one item.
pub open spec fn repeat_item(item: ItemV, n: int) -> Seq<ItemV> {
    if n <= 0 {
        Seq::empty()
    } else {
        Seq::new(n as nat, |i: int| item)
    }
}

/// The monster built by the monster field-scan loop from `pos`, with the
/// fields collected so far. Weapon and drop name a catalog item; a name
/// without a match leaves the field as it was. The drop takes one more
/// integer, the quantity: where it is missing or of the wrong type after a
/// resolved name, the whole loop stops.
pub open spec fn spec_fetch_monster(
    toks: Seq<TokenV>,
    cat: Seq<ItemV>,
    pos: int,
    name: Seq<char>,
    life: i32,
    weapon: ItemV,
    drop: Option<(ItemV, u32)>,
    rareness: i32,
) -> MonsterV
    decreases toks.len() - pos,
        when 0 <= pos
{
    if tok_at(toks, pos) is Eof {
        MonsterV { name, life: life as int, weapon, drop, rareness: rareness as u32 }
    } else {
        match tok_at(toks, pos) {
            TokenV::Name => match tok_at(toks, pos + 2) {
                TokenV::Str(s) => spec_fetch_monster(
                    toks,
                    cat,
                    capped(toks, pos + 3),
                    s,
                    life,
                    weapon,
                    drop,
                    rareness,
                ),
                _ => MonsterV {
                    name,
                    life: life as int,
                    weapon,
                    drop,
                    rareness: rareness as u32,
                },
            },
            TokenV::Life => match tok_at(toks, pos + 2) {
                TokenV::Int(n) => spec_fetch_monster(
                    toks,
                    cat,
                    capped(toks, pos + 3),
                    name,
                    n as i32,
                    weapon,
                    drop,
                    rareness,
                ),
                _ => MonsterV {
                    name,
                    life: life as int,
                    weapon,
                    drop,
                    rareness: rareness as u32,
                },
            },
            TokenV::Weapon => match tok_at(toks, pos + 2) {
                TokenV::Str(s) => spec_fetch_monster(
                    toks,
                    cat,
                    capped(toks, pos + 3),
                    name,
                    life,
                    match catalog_find(cat, s) {
                        Some(item) => item,
                        None => weapon,
                    },
                    drop,
                    rareness,
                ),
                _ => MonsterV {
                    name,
                    life: life as int,
                    weapon,
                    drop,
                    rareness: rareness as u32,
                },
            },
            TokenV::Drop => match tok_at(toks, pos + 2) {
                TokenV::Str(s) => match catalog_find(cat, s) {
                    Some(item) => match tok_at(toks, pos + 3) {
                        TokenV::Int(n) => spec_fetch_monster(
                            toks,
                            cat,
                            capped(toks, pos + 4),
                            name,
                            life,
                            weapon,
                            Some((item, n as i32 as u32)),
                            rareness,
                        ),
                        _ => MonsterV {
                            name,
                            life: life as int,
                            weapon,
                            drop,
                            rareness: rareness as u32,
                        },
                    },
                    None => spec_fetch_monster(
                        toks,
                        cat,
                        capped(toks, pos + 3),
                        name,
                        life,
                        weapon,
                        drop,
                        rareness,
                    ),
                },
                _ => MonsterV {
                    name,
                    life: life as int,
                    weapon,
                    drop,
                    rareness: rareness as u32,
                },
            },
            TokenV::Rareness => match tok_at(toks, pos + 2) {
                TokenV::Int(n) => spec_fetch_monster(
                    toks,
                    cat,
                    capped(toks, pos + 3),
                    name,
                    life,
                    weapon,
                    drop,
                    n as i32,
                ),
                _ => MonsterV {
                    name,
                    life: life as int,
                    weapon,
                    drop,
                    rareness: rareness as u32,
                },
            },
            _ => MonsterV { name, life: life as int, weapon, drop, rareness: rareness as u32 },
        }
    }
}

/// The monster a whole monster record describes, or nothing: the record must
/// open with the monster keyword. The default weapon is an unnamed zero-stat
/// weapon; the default drop is absent.
pub open spec fn spec_load_monster(toks: Seq<TokenV>, cat: Seq<ItemV>, pos: int) -> Option<
    MonsterV,
> {
    if tok_at(toks, pos) is Monster {
        Some(
            spec_fetch_monster(
                toks,
                cat,
                capped(toks, pos + 1),
                Seq::empty(),
                0,
                ItemV {
                    name: Seq::empty(),
                    description: Seq::empty(),
                    value: 0,
                    type_: ItemType::Weapon(0),
                },
                None,
                0,
            ),
        )
    } else {
        None
    }
}

/// The inventory the inner inventory loop reads from `pos`, and the position
/// it stops at: pairs of an item name and a quantity, each resolved name
/// pushing that many copies, an unresolved one pushing none; the loop stops
/// at the end marker (before it) or at a non-string key (after consuming it).
pub open spec fn spec_fetch_inventory(
    toks: Seq<TokenV>,
    cat: Seq<ItemV>,
    pos: int,
    inv: Seq<ItemV>,
) -> (Seq<ItemV>, int)
    decreases toks.len() - pos,
        when 0 <= pos
{
    if tok_at(toks, pos) is Eof {
        (inv, pos)
    } else {
        match tok_at(toks, pos) {
            TokenV::Str(s) => {
                let p2 = capped(toks, pos + 2);
                match tok_at(toks, pos + 1) {
                    TokenV::Int(n) => match catalog_find(cat, s) {
                        Some(item) => spec_fetch_inventory(
                            toks,
                            cat,
                            p2,
                            inv + repeat_item(item, n as i32 as int),
                        ),
                        None => spec_fetch_inventory(toks, cat, p2, inv),
                    },
                    _ => spec_fetch_inventory(toks, cat, p2, inv),
                }
            },
            _ => (inv, pos + 1),
        }
    }
}

/// The inventory loop never moves backwards and stays within the sequence.
proof fn lemma_fetch_inventory_bounds(toks: Seq<TokenV>, cat: Seq<ItemV>, pos: int, inv: Seq<ItemV>)
    requires
        0 <= pos <= toks.len(),
    ensures
        pos <= spec_fetch_inventory(toks, cat, pos, inv).1 <= toks.len(),
    decreases toks.len() - pos,
{
    if !(tok_at(toks, pos) is Eof) {
        match tok_at(toks, pos) {
            TokenV::Str(s) => {
                let p2 = capped(toks, pos + 2);
                match tok_at(toks, pos + 1) {
                    TokenV::Int(n) => match catalog_find(cat, s) {
                        Some(item) => lemma_fetch_inventory_bounds(
                            toks,
                            cat,
                            p2,
                            inv + repeat_item(item, n as i32 as int),
                        ),
                        None => lemma_fetch_inventory_bounds(toks, cat, p2, inv),
                    },
                    _ => lemma_fetch_inventory_bounds(toks, cat, p2, inv),
                }
            },
            _ => {},
        }
    }
}

/// The player fields collected by the player field-scan loop.
pub struct PlayerFields {
    pub name: Seq<char>,
    pub life: i32,
    pub max_life: i32,
    pub weapon: Option<ItemV>,
    pub armor: Option<ItemV>,
    pub exp: i32,
    pub level: i32,
    pub next_level: i32,
    pub inventory: Seq<ItemV>,
}

/// The fields the player field-scan loop collects from `pos`. Weapon and
/// armor resolve against the catalog as for monsters; the inventory keyword
/// consumes one separator and hands the rest to the inner inventory loop,
/// whose result replaces any inventory read before.
pub open spec fn spec_fetch_player(
    toks: Seq<TokenV>,
    cat: Seq<ItemV>,
    pos: int,
    f: PlayerFields,
) -> PlayerFields
    decreases toks.len() - pos,
        when 0 <= pos <= toks.len()
        via spec_fetch_player_decreases
{
    if tok_at(toks, pos) is Eof {
        f
    } else {
        match tok_at(toks, pos) {
            TokenV::Name => match tok_at(toks, pos + 2) {
                TokenV::Str(s) => spec_fetch_player(
                    toks,
                    cat,
                    capped(toks, pos + 3),
                    PlayerFields { name: s, ..f },
                ),
                _ => f,
            },
            TokenV::Life => match tok_at(toks, pos + 2) {
                TokenV::Int(n) => spec_fetch_player(
                    toks,
                    cat,
                    capped(toks, pos + 3),
                    PlayerFields { life: n as i32, ..f },
                ),
                _ => f,
            },
            TokenV::MaxLife => match tok_at(toks, pos + 2) {
                TokenV::Int(n) => spec_fetch_player(
                    toks,
                    cat,
                    capped(toks, pos + 3),
                    PlayerFields { max_life: n as i32, ..f },
                ),
                _ => f,
            },
            TokenV::Weapon => match tok_at(toks, pos + 2) {
                TokenV::Str(s) => spec_fetch_player(
                    toks,
                    cat,
                    capped(toks, pos + 3),
                    match catalog_find(cat, s) {
                        Some(item) => PlayerFields { weapon: Some(item), ..f },
                        None => f,
                    },
                ),
                _ => f,
            },
            TokenV::Armor => match tok_at(toks, pos + 2) {
                TokenV::Str(s) => spec_fetch_player(
                    toks,
                    cat,
                    capped(toks, pos + 3),
                    match catalog_find(cat, s) {
                        Some(item) => PlayerFields { armor: Some(item), ..f },
                        None => f,
                    },
                ),
                _ => f,
            },
            TokenV::Exp => match tok_at(toks, pos + 2) {
                TokenV::Int(n) => spec_fetch_player(
                    toks,
                    cat,
                    capped(toks, pos + 3),
                    PlayerFields { exp: n as i32, ..f },
                ),
                _ => f,
            },
            TokenV::Level => match tok_at(toks, pos + 2) {
                TokenV::Int(n) => spec_fetch_player(
                    toks,
                    cat,
                    capped(toks, pos + 3),
                    PlayerFields { level: n as i32, ..f },
                ),
                _ => f,
            },
            TokenV::ExpToLevelUp => match tok_at(toks, pos + 2) {
                TokenV::Int(n) => spec_fetch_player(
                    toks,
                    cat,
                    capped(toks, pos + 3),
                    PlayerFields { next_level: n as i32, ..f },
                ),
                _ => f,
            },
            TokenV::Inventory => {
                let inner = spec_fetch_inventory(toks, cat, capped(toks, pos + 2), Seq::empty());
                spec_fetch_player(toks, cat, inner.1, PlayerFields { inventory: inner.0, ..f })
            },
            _ => f,
        }
    }
}

#[via_fn]
proof fn spec_fetch_player_decreases(toks: Seq<TokenV>, cat: Seq<ItemV>, pos: int, f: PlayerFields) {
    if !(tok_at(toks, pos) is Eof) && tok_at(toks, pos) is Inventory {
        lemma_fetch_inventory_bounds(toks, cat, capped(toks, pos + 2), Seq::empty());
    }
}

/// The player after receiving the items one after another, first to last.
pub open spec fn add_items(p: PlayerV, items: Seq<ItemV>) -> PlayerV
    decreases items.len(),
{
    if items.len() == 0 {
        p
    } else {
        add_items(add_item_spec(p, items[0]), items.drop_first())
    }
}

/// The player a whole player record describes: one leading token is consumed
/// and discarded, the fields are collected permissively, and the collected
/// inventory is then received item by item (stacking gold and applying
/// experience) by a player whose position starts at the origin.
pub open spec fn spec_parse_player(toks: Seq<TokenV>, cat: Seq<ItemV>, pos: int) -> PlayerV {
    let f = spec_fetch_player(
        toks,
        cat,
        adv(toks, pos),
        PlayerFields {
            name: Seq::empty(),
            life: 0,
            max_life: 0,
            weapon: None,
            armor: None,
            exp: 0,
            level: 0,
            next_level: 0,
            inventory: Seq::empty(),
        },
    );
    add_items(
        PlayerV {
            name: f.name,
            life: f.life as int,
            max_life: f.max_life as int,
            position: Position { x: 0, y: 0 },
            weapon: f.weapon,
            armor: f.armor,
            inventory: Seq::empty(),
            experience: f.exp as int,
            level: f.level as int,
            next_level: f.next_level as int,
        },
        f.inventory,
    )
}

/// Parsing identical token sequences twice yields structurally equal
/// entities: each record's entity is a function of the tokens, the catalog
/// and the starting cursor alone.
pub proof fn lemma_parse_deterministic(
    toks1: Seq<TokenV>,
    toks2: Seq<TokenV>,
    cat: Seq<ItemV>,
    pos: int,
)
    requires
        toks1 == toks2,
    ensures
        spec_parse_item(toks1, pos) == spec_parse_item(toks2, pos),
        spec_load_monster(toks1, cat, pos) == spec_load_monster(toks2, cat, pos),
        spec_parse_player(toks1, cat, pos) == spec_parse_player(toks2, cat, pos),
{
}

/// An inventory entry naming a catalog item with quantity `n` appends exactly
/// `n` structurally equal copies of that item, and the loop goes on behind
/// the quantity.
pub proof fn lemma_inventory_quantity(
    toks: Seq<TokenV>,
    cat: Seq<ItemV>,
    pos: int,
    inv: Seq<ItemV>,
    s: Seq<char>,
    n: int,
    item: ItemV,
)
    requires
        0 <= pos,
        tok_at(toks, pos) == TokenV::Str(s),
        tok_at(toks, pos + 1) == TokenV::Int(n),
        0 <= n <= i32::MAX,
        catalog_find(cat, s) == Some(item),
    ensures
        spec_fetch_inventory(toks, cat, pos, inv) == spec_fetch_inventory(
            toks,
            cat,
            capped(toks, pos + 2),
            inv + repeat_item(item, n),
        ),
        repeat_item(item, n).len() == n,
        forall|i: int| 0 <= i < n ==> repeat_item(item, n)[i] == item,
{
    assert(n as i32 as int == n);
}

/// On the token sequence of empty text, which is exactly the end marker, no
/// item and no monster record parse yields an entity.
pub proof fn lemma_parse_empty(cat: Seq<ItemV>)
    ensures
        spec_parse_item(seq![TokenV::Eof], 0) is None,
        spec_load_monster(seq![TokenV::Eof], cat, 0) is None,
{
}

/// The parser: a token sequence and a forward-only cursor.
pub struct Parser {
    tokens: Vec<Token>,
    position: usize,
}

/// The mathematical value of a [`Parser`].
pub struct ParserV {
    pub tokens: Seq<TokenV>,
    pub position: int,
}

impl View for Parser {
    type V = ParserV;

    closed spec fn view(&self) -> ParserV {
        ParserV { tokens: tokens_view(self.tokens@), position: self.position as int }
    }
}

impl Parser {
    /// Well-formed: the cursor lies within the token sequence. Established by
    /// [`Parser::new`] and preserved by every method.
    pub open spec fn wf(&self) -> bool {
        self@.position <= self@.tokens.len()
    }

    pub fn new(tokens: Vec<Token>) -> (r: Parser)
        ensures
            r@.tokens == tokens_view(tokens@),
            r@.position == 0,
            r.wf(),
    {
        Parser { tokens, position: 0 }
    }

    /// Whether the cursor stands at the end marker (or past the end).
    fn at_eof(&self) -> (r: bool)
        requires
            self.wf(),
        ensures
            r == (tok_at(self@.tokens, self@.position) is Eof),
    {
        if self.position >= self.tokens.len() {
            true
        } else {
            match &self.tokens[self.position] {
                Token::Eof => true,
                _ => false,
            }
        }
    }

    /// Consumes one token; past the end it yields the end marker and stays
    /// put.
    fn next_token(&mut self) -> (t: Token)
        requires
            old(self).wf(),
        ensures
            final(self).wf(),
            final(self)@.tokens == old(self)@.tokens,
            old(self)@.position <= final(self)@.position,
            t@ == tok_at(old(self)@.tokens, old(self)@.position),
            final(self)@.position == adv(old(self)@.tokens, old(self)@.position),
    {
        if self.position < self.tokens.len() {
            let t = self.tokens[self.position].clone();
            self.position += 1;
            t
        } else {
            Token::Eof
        }
    }

    /// The weapon field-scan loop; see [`spec_fetch_weapon`].
    fn fetch_weapon(&mut self) -> (r: Option<Item>)
        requires
            old(self).wf(),
        ensures
            final(self).wf(),
            final(self)@.tokens == old(self)@.tokens,
            old(self)@.position <= final(self)@.position,
            opt_item_view(r) == Some(
                spec_fetch_weapon(
                    old(self)@.tokens,
                    old(self)@.position,
                    Seq::empty(),
                    0,
                    Seq::empty(),
                    0,
                ),
            ),
    {
        let ghost toks = self@.tokens;
        let ghost goal = spec_fetch_weapon(toks, self@.position, Seq::empty(), 0, Seq::empty(), 0);
        let mut name = String::new();
        let mut atk: i32 = 0;
        let mut description = String::new();
        let mut value: i32 = 0;
        while !self.at_eof()
            invariant_except_break
                self.wf(),
                self@.tokens == toks,
                old(self)@.position <= self@.position,
                spec_fetch_weapon(toks, self@.position, name@, atk, description@, value) == goal,
            ensures
                self.wf(),
                self@.tokens == toks,
                old(self)@.position <= self@.position,
                (ItemV {
                    name: name@,
                    description: description@,
                    value: value as int,
                    type_: ItemType::Weapon(atk),
                }) == goal,
            decreases toks.len() - self@.position,
        {
            match self.next_token() {
                Token::Name => {
                    self.next_token();
                    match self.next_token() {
                        Token::Str(s) => {
                            name = s;
                        },
                        _ => {
                            break;
                        },
                    }
                },
                Token::Atk => {
                    self.next_token();
                    match self.next_token() {
                        Token::Int(i) => {
                            atk = i;
                        },
                        _ => {
                            break;
                        },
                    }
                },
                Token::Description => {
                    self.next_token();
                    match self.next_token() {
                        Token::Str(s) => {
                            description = s;
                        },
                        _ => {
                            break;
                        },
                    }
                },
                Token::Value => {
                    self.next_token();
                    match self.next_token() {
                        Token::Int(i) => {
                            value = i;
                        },
                        _ => {
                            break;
                        },
                    }
                },
                _ => {
                    break;
                },
            }
        }
        Some(Item::new_weapon(name.as_str(), description.as_str(), value, atk))
    }

    /// The armor field-scan loop; see [`spec_fetch_armor`].
    fn fetch_armor(&mut self) -> (r: Option<Item>)
        requires
            old(self).wf(),
        ensures
            final(self).wf(),
            final(self)@.tokens == old(self)@.tokens,
            old(self)@.position <= final(self)@.position,
            opt_item_view(r) == Some(
                spec_fetch_armor(
                    old(self)@.tokens,
                    old(self)@.position,
                    Seq::empty(),
                    0,
                    Seq::empty(),
                    0,
                ),
            ),
    {
        let ghost toks = self@.tokens;
        let ghost goal = spec_fetch_armor(toks, self@.position, Seq::empty(), 0, Seq::empty(), 0);
        let mut name = String::new();
        let mut def: i32 = 0;
        let mut description = String::new();
        let mut value: i32 = 0;
        while !self.at_eof()
            invariant_except_break
                self.wf(),
                self@.tokens == toks,
                old(self)@.position <= self@.position,
                spec_fetch_armor(toks, self@.position, name@, def, description@, value) == goal,
            ensures
                self.wf(),
                self@.tokens == toks,
                old(self)@.position <= self@.position,
                (ItemV {
                    name: name@,
                    description: description@,
                    value: value as int,
                    type_: ItemType::Armor(def),
                }) == goal,
            decreases toks.len() - self@.position,
        {
            match self.next_token() {
                Token::Name => {
                    self.next_token();
                    match self.next_token() {
                        Token::Str(s) => {
                            name = s;
                        },
                        _ => {
                            break;
                        },
                    }
                },
                Token::Def => {
                    self.next_token();
                    match self.next_token() {
                        Token::Int(i) => {
                            def = i;
                        },
                        _ => {
                            break;
                        },
                    }
                },
                Token::Description => {
                    self.next_token();
                    match self.next_token() {
                        Token::Str(s) => {
                            description = s;
                        },
                        _ => {
                            break;
                        },
                    }
                },
                Token::Value => {
                    self.next_token();
                    match self.next_token() {
                        Token::Int(i) => {
                            value = i;
                        },
                        _ => {
                            break;
                        },
                    }
                },
                _ => {
                    break;
                },
            }
        }
        Some(Item::new_armor(name.as_str(), description.as_str(), value, def))
    }

    /// The experience field-scan loop; see [`spec_fetch_exp`].
    fn fetch_exp(&mut self) -> (r: Option<Item>)
        requires
            old(self).wf(),
        ensures
            final(self).wf(),
            final(self)@.tokens == old(self)@.tokens,
            old(self)@.position <= final(self)@.position,
            opt_item_view(r) == Some(
                spec_fetch_exp(
                    old(self)@.tokens,
                    old(self)@.position,
                    Seq::empty(),
                    Seq::empty(),
                    0,
                ),
            ),
    {
        let ghost toks = self@.tokens;
        let ghost goal = spec_fetch_exp(toks, self@.position, Seq::empty(), Seq::empty(), 0);
        let mut name = String::new();
        let mut description = String::new();
        let mut value: i32 = 0;
        while !self.at_eof()
            invariant_except_break
                self.wf(),
                self@.tokens == toks,
                old(self)@.position <= self@.position,
                spec_fetch_exp(toks, self@.position, name@, description@, value) == goal,
            ensures
                self.wf(),
                self@.tokens == toks,
                old(self)@.position <= self@.position,
                (ItemV {
                    name: name@,
                    description: description@,
                    value: value as int,
                    type_: ItemType::Exp(value),
                }) == goal,
            decreases toks.len() - self@.position,
        {
            match self.next_token() {
                Token::Value => {
                    self.next_token();
                    match self.next_token() {
                        Token::Int(i) => {
                            value = i;
                        },
                        _ => {
                            break;
                        },
                    }
                },
                Token::Name => {
                    self.next_token();
                    match self.next_token() {
                        Token::Str(s) => {
                            name = s;
                        },
                        _ => {
                            break;
                        },
                    }
                },
                Token::Description => {
                    self.next_token();
                    match self.next_token() {
                        Token::Str(s) => {
                            description = s;
                        },
                        _ => {
                            break;
                        },
                    }
                },
                _ => {
                    break;
                },
            }
        }
        Some(Item::new_exp(name.as_str(), description.as_str(), value))
    }

    /// The effect field-scan loop with its nested sub-grammar; see
    /// [`spec_fetch_effect`].
    fn fetch_effect(&mut self) -> (r: Option<Item>)
        requires
            old(self).wf(),
        ensures
            final(self).wf(),
            final(self)@.tokens == old(self)@.tokens,
            old(self)@.position <= final(self)@.position,
            opt_item_view(r) == Some(
                spec_fetch_effect(
                    old(self)@.tokens,
                    old(self)@.position,
                    Seq::empty(),
                    Seq::empty(),
                    0,
                    Effect::NoEffect,
                ),
            ),
    {
        let ghost toks = self@.tokens;
        let ghost goal = spec_fetch_effect(
            toks,
            self@.position,
            Seq::empty(),
            Seq::empty(),
            0,
            Effect::NoEffect,
        );
        let mut name = String::new();
        let mut description = String::new();
        let mut value: i32 = 0;
        let mut effect = Effect::NoEffect;
        while !self.at_eof()
            invariant_except_break
                self.wf(),
                self@.tokens == toks,
                old(self)@.position <= self@.position,
                spec_fetch_effect(toks, self@.position, name@, description@, value, effect)
                    == goal,
            ensures
                self.wf(),
                self@.tokens == toks,
                old(self)@.position <= self@.position,
                (ItemV {
                    name: name@,
                    description: description@,
                    value: value as int,
                    type_: ItemType::Effect(effect),
                }) == goal,
            decreases toks.len() - self@.position,
        {
            match self.next_token() {
                Token::Name => {
                    self.next_token();
                    match self.next_token() {
                        Token::Str(s) => {
                            name = s;
                        },
                        _ => {
                            break;
                        },
                    }
                },
                Token::Description => {
                    self.next_token();
                    match self.next_token() {
                        Token::Str(s) => {
                            description = s;
                        },
                        _ => {
                            break;
                        },
                    }
                },
                Token::Value => {
                    self.next_token();
                    match self.next_token() {
                        Token::Int(i) => {
                            value = i;
                        },
                        _ => {
                            break;
                        },
                    }
                },
                Token::Effect => {
                    self.next_token();
                    match self.next_token() {
                        Token::Heal => {
                            self.next_token();
                            match self.next_token() {
                                Token::Int(i) => {
                                    effect = Effect::Heal(i);
                                },
                                _ => {},
                            }
                        },
                        Token::Damage => {
                            self.next_token();
                            match self.next_token() {
                                Token::Int(i) => {
                                    effect = Effect::Damage(i);
                                },
                                _ => {},
                            }
                        },
                        Token::Teleport => {
                            self.next_token();
                            match self.next_token() {
                                Token::Start => {
                                    effect = Effect::Teleport(Position::new(0, 0));
                                },
                                Token::Random => {
                                    effect = Effect::RandomTeleport;
                                },
                                _ => {
                                    break;
                                },
                            }
                        },
                        _ => {
                            break;
                        },
                    }
                },
                _ => {
                    break;
                },
            }
        }
        Some(Item::new_effect(name.as_str(), description.as_str(), value, effect))
    }

    /// The strict gold form; see [`spec_fetch_gold`].
    fn fetch_gold(&mut self) -> (r: Option<Item>)
        requires
            old(self).wf(),
        ensures
            final(self).wf(),
            final(self)@.tokens == old(self)@.tokens,
            old(self)@.position <= final(self)@.position,
            opt_item_view(r) == spec_fetch_gold(old(self)@.tokens, old(self)@.position),
    {
        match self.next_token() {
            Token::Value => {
                self.next_token();
                match self.next_token() {
                    Token::Int(i) => Some(Item::new_gold(i)),
                    _ => None,
                }
            },
            _ => None,
        }
    }

    /// Parses one item record; see [`spec_parse_item`]. Fields may come in
    /// any order, any subset and any number of times (last write wins); a
    /// type mismatch or unknown field stops the scan, leaving the fields
    /// collected so far and defaults elsewhere.
    pub fn parse_item(&mut self) -> (r: Option<Item>)
        requires
            old(self).wf(),
        ensures
            final(self).wf(),
            final(self)@.tokens == old(self)@.tokens,
            old(self)@.position <= final(self)@.position,
            opt_item_view(r) == spec_parse_item(old(self)@.tokens, old(self)@.position),
    {
        match self.next_token() {
            Token::Item => {
                match self.next_token() {
                    Token::Weapon => self.fetch_weapon(),
                    Token::Armor => self.fetch_armor(),
                    Token::Effect => self.fetch_effect(),
                    Token::Gold => self.fetch_gold(),
                    Token::Exp => self.fetch_exp(),
                    _ => None,
                }
            },
            _ => None,
        }
    }

    /// Parses one monster record against the item catalog; see
    /// [`spec_load_monster`]. Weapon and drop fields are resolved by exact
    /// name, first catalog match wins, and the items are copied by value.
    pub fn load_monster(&mut self, items: &Vec<Item>) -> (r: Option<Monster>)
        requires
            old(self).wf(),
        ensures
            final(self).wf(),
            final(self)@.tokens == old(self)@.tokens,
            old(self)@.position <= final(self)@.position,
            opt_monster_view(r) == spec_load_monster(
                old(self)@.tokens,
                items_view(items@),
                old(self)@.position,
            ),
    {
        let ghost toks = self@.tokens;
        let ghost cat = items_view(items@);
        let is_monster = match self.next_token() {
            Token::Monster => true,
            _ => false,
        };
        if !is_monster {
            return None;
        }
        let ghost goal = spec_fetch_monster(
            toks,
            cat,
            self@.position,
            Seq::empty(),
            0,
            ItemV {
                name: Seq::empty(),
                description: Seq::empty(),
                value: 0,
                type_: ItemType::Weapon(0),
            },
            None,
            0,
        );
        let mut name = String::new();
        let mut life: i32 = 0;
        let mut weapon = Item::new_weapon("", "", 0, 0);
        let mut drop: Option<(Item, u32)> = None;
        let mut rareness: i32 = 0;
        proof {
            reveal_strlit("");
            assert(""@ =~= Seq::<char>::empty());
        }
        while !self.at_eof()
            invariant_except_break
                self.wf(),
                self@.tokens == toks,
                old(self)@.position <= self@.position,
                cat == items_view(items@),
                spec_fetch_monster(
                    toks,
                    cat,
                    self@.position,
                    name@,
                    life,
                    weapon@,
                    crate::monster::drop_view(drop),
                    rareness,
                ) == goal,
            ensures
                self.wf(),
                self@.tokens == toks,
                old(self)@.position <= self@.position,
                (MonsterV {
                    name: name@,
                    life: life as int,
                    weapon: weapon@,
                    drop: crate::monster::drop_view(drop),
                    rareness: rareness as u32,
                }) == goal,
            decreases toks.len() - self@.position,
        {
            match self.next_token() {
                Token::Name => {
                    self.next_token();
                    match self.next_token() {
                        Token::Str(s) => {
                            name = s;
                        },
                        _ => {
                            break;
                        },
                    }
                },
                Token::Life => {
                    self.next_token();
                    match self.next_token() {
                        Token::Int(i) => {
                            life = i;
                        },
                        _ => {
                            break;
                        },
                    }
                },
                Token::Weapon => {
                    self.next_token();
                    match self.next_token() {
                        Token::Str(s) => {
                            match find_item(items, &s) {
                                Some(item) => {
                                    weapon = item;
                                },
                                None => {},
                            }
                        },
                        _ => {
                            break;
                        },
                    }
                },
                Token::Drop => {
                    self.next_token();
                    match self.next_token() {
                        Token::Str(s) => {
                            match find_item(items, &s) {
                                Some(item) => {
                                    match self.next_token() {
                                        Token::Int(qte) => {
                                            drop = Some((item, #[verifier::truncate] (qte as u32)));
                                        },
                                        _ => {
                                            break;
                                        },
                                    }
                                },
                                None => {},
                            }
                        },
                        _ => {
                            break;
                        },
                    }
                },
                Token::Rareness => {
                    self.next_token();
                    match self.next_token() {
                        Token::Int(i) => {
                            rareness = i;
                        },
                        _ => {
                            break;
                        },
                    }
                },
                _ => {
                    break;
                },
            }
        }
        let r = match drop {
            Some((item, qte)) => Monster::new(
                name.as_str(),
                life,
                weapon,
                Some(item),
                qte,
                #[verifier::truncate] (rareness as u32),
            ),
            None => Monster::new(
                name.as_str(),
                life,
                weapon,
                None,
                0,
                #[verifier::truncate] (rareness as u32),
            ),
        };
        Some(r)
    }

    /// The inner inventory loop; see [`spec_fetch_inventory`]. Each resolved
    /// name pushes as many copies of the item as its quantity says.
    fn parse_player_inventory(&mut self, items: &Vec<Item>) -> (r: Vec<Item>)
        requires
            old(self).wf(),
        ensures
            final(self).wf(),
            final(self)@.tokens == old(self)@.tokens,
            old(self)@.position <= final(self)@.position,
            (items_view(r@), final(self)@.position) == spec_fetch_inventory(
                old(self)@.tokens,
                items_view(items@),
                old(self)@.position,
                Seq::<ItemV>::empty(),
            ),
    {
        let ghost toks = self@.tokens;
        let ghost cat = items_view(items@);
        let ghost goal = spec_fetch_inventory(toks, cat, self@.position, Seq::empty());
        let mut inventory: Vec<Item> = Vec::new();
        proof {
            assert(items_view(inventory@) =~= Seq::<ItemV>::empty());
        }
        while !self.at_eof()
            invariant_except_break
                self.wf(),
                self@.tokens == toks,
                old(self)@.position <= self@.position,
                cat == items_view(items@),
                spec_fetch_inventory(toks, cat, self@.position, items_view(inventory@)) == goal,
            ensures
                self.wf(),
                self@.tokens == toks,
                old(self)@.position <= self@.position,
                (items_view(inventory@), self@.position) == goal,
            decreases toks.len() - self@.position,
        {
            match self.next_token() {
                Token::Str(s) => {
                    let ghost inv0 = items_view(inventory@);
                    match self.next_token() {
                        Token::Int(qte) => {
                            match find_item(items, &s) {
                                Some(item) => {
                                    let ghost itemv = item@;
                                    let mut c: i32 = 0;
                                    while c < qte
                                        invariant
                                            0 <= c,
                                            qte >= 0 ==> c <= qte,
                                            qte < 0 ==> c == 0,
                                            item@ == itemv,
                                            items_view(inventory@) =~= inv0 + repeat_item(
                                                itemv,
                                                c as int,
                                            ),
                                        decreases qte - c,
                                    {
                                        let ghost before = items_view(inventory@);
                                        inventory.push(item.clone());
                                        proof {
                                            assert(items_view(inventory@) =~= before.push(itemv));
                                            assert(items_view(inventory@) =~= inv0 + repeat_item(
                                                itemv,
                                                c + 1,
                                            ));
                                        }
                                        c += 1;
                                    }
                                    proof {
                                        assert(items_view(inventory@) =~= inv0 + repeat_item(
                                            itemv,
                                            qte as int,
                                        ));
                                    }
                                },
                                None => {
                                    proof {
                                        assert(items_view(inventory@) =~= inv0);
                                    }
                                },
                            }
                        },
                        _ => {},
                    }
                },
                _ => {
                    break;
                },
            }
        }
        inventory
    }

    /// Parses one player record against the item catalog; see
    /// [`spec_parse_player`]. This never fails: whatever the fields yield,
    /// a player is built and the collected inventory handed to it item by
    /// item.
    pub fn parse_player(&mut self, item: &Vec<Item>) -> (r: Player)
        requires
            old(self).wf(),
        ensures
            final(self).wf(),
            final(self)@.tokens == old(self)@.tokens,
            old(self)@.position <= final(self)@.position,
            r@ == spec_parse_player(old(self)@.tokens, items_view(item@), old(self)@.position),
    {
        let ghost toks = self@.tokens;
        let ghost cat = items_view(item@);
        self.next_token();
        let ghost goal = spec_fetch_player(
            toks,
            cat,
            self@.position,
            PlayerFields {
                name: Seq::empty(),
                life: 0,
                max_life: 0,
                weapon: None,
                armor: None,
                exp: 0,
                level: 0,
                next_level: 0,
                inventory: Seq::empty(),
            },
        );
        let mut name = String::new();
        let mut life: i32 = 0;
        let mut max_life: i32 = 0;
        let mut weapon: Option<Item> = None;
        let mut armor: Option<Item> = None;
        let mut exp: i32 = 0;
        let mut level: i32 = 0;
        let mut next_level: i32 = 0;
        let mut inventory: Vec<Item> = Vec::new();
        let position = Position::new(0, 0);
        proof {
            assert(items_view(inventory@) =~= Seq::<ItemV>::empty());
        }
        while !self.at_eof()
            invariant_except_break
                self.wf(),
                self@.tokens == toks,
                old(self)@.position <= self@.position,
                cat == items_view(item@),
                spec_fetch_player(
                    toks,
                    cat,
                    self@.position,
                    PlayerFields {
                        name: name@,
                        life,
                        max_life,
                        weapon: opt_item_view(weapon),
                        armor: opt_item_view(armor),
                        exp,
                        level,
                        next_level,
                        inventory: items_view(inventory@),
                    },
                ) == goal,
            ensures
                self.wf(),
                self@.tokens == toks,
                old(self)@.position <= self@.position,
                (PlayerFields {
                    name: name@,
                    life,
                    max_life,
                    weapon: opt_item_view(weapon),
                    armor: opt_item_view(armor),
                    exp,
                    level,
                    next_level,
                    inventory: items_view(inventory@),
                }) == goal,
            decreases toks.len() - self@.position,
        {
            match self.next_token() {
                Token::Name => {
                    self.next_token();
                    match self.next_token() {
                        Token::Str(s) => {
                            name = s;
                        },
                        _ => {
                            break;
                        },
                    }
                },
                Token::Life => {
                    self.next_token();
                    match self.next_token() {
                        Token::Int(i) => {
                            life = i;
                        },
                        _ => {
                            break;
                        },
                    }
                },
                Token::MaxLife => {
                    self.next_token();
                    match self.next_token() {
                        Token::Int(i) => {
                            max_life = i;
                        },
                        _ => {
                            break;
                        },
                    }
                },
                Token::Weapon => {
                    self.next_token();
                    match self.next_token() {
                        Token::Str(s) => {
                            match find_item(item, &s) {
                                Some(found) => {
                                    weapon = Some(found);
                                },
                                None => {},
                            }
                        },
                        _ => {
                            break;
                        },
                    }
                },
                Token::Armor => {
                    self.next_token();
                    match self.next_token() {
                        Token::Str(s) => {
                            match find_item(item, &s) {
                                Some(found) => {
                                    armor = Some(found);
                                },
                                None => {},
                            }
                        },
                        _ => {
                            break;
                        },
                    }
                },
                Token::Exp => {
                    self.next_token();
                    match self.next_token() {
                        Token::Int(i) => {
                            exp = i;
                        },
                        _ => {
                            break;
                        },
                    }
                },
                Token::Level => {
                    self.next_token();
                    match self.next_token() {
                        Token::Int(i) => {
                            level = i;
                        },
                        _ => {
                            break;
                        },
                    }
                },
                Token::ExpToLevelUp => {
                    self.next_token();
                    match self.next_token() {
                        Token::Int(i) => {
                            next_level = i;
                        },
                        _ => {
                            break;
                        },
                    }
                },
                Token::Inventory => {
                    self.next_token();
                    proof {
                        lemma_fetch_inventory_bounds(toks, cat, self@.position, Seq::empty());
                    }
                    inventory = self.parse_player_inventory(item);
                },
                _ => {
                    break;
                },
            }
        }
        let mut player = Player::new_all(
            name.as_str(),
            life,
            max_life,
            position,
            weapon,
            armor,
            Vec::new(),
            exp,
            level,
            next_level,
        );
        let ghost base = player@;
        let ghost invv = items_view(inventory@);
        proof {
            assert(items_view(Seq::<Item>::empty()) =~= Seq::<ItemV>::empty());
            assert(invv.skip(0) =~= invv);
        }
        let mut k: usize = 0;
        while k < inventory.len()
            invariant
                k <= inventory@.len(),
                invv == items_view(inventory@),
                invv.len() == inventory@.len(),
                add_items(player@, invv.skip(k as int)) == add_items(base, invv),
            decreases inventory@.len() - k,
        {
            proof {
                assert(invv.skip(k as int)[0] == invv[k as int]);
                assert(invv.skip(k as int).drop_first() =~= invv.skip(k as int + 1));
            }
            player.add_item(inventory[k].clone());
            k += 1;
        }
        proof {
            assert(invv.skip(inventory@.len() as int) =~= Seq::<ItemV>::empty());
        }
        player
    }
}

} // verus!

