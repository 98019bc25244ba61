use rpg_data::item::{Effect, Item, ItemType};
use rpg_data::monster::Monster;
use rpg_data::player::Player;
use rpg_data::position::Position;
use rpg_data::world::{Event, GameMap};

#[test]
fn test_item_new_weapon() {
    let item = Item::new_weapon("Sword", "A sharp sword", 10, 5);
    assert_eq!(item.name(), "Sword");
    assert_eq!(item.description(), "A sharp sword");
    assert_eq!(item.value(), 10);
    assert_eq!(item.type_(), &ItemType::Weapon(5));
}

#[test]
fn test_item_new_armor() {
    let item = Item::new_armor("Shield", "A sturdy shield", 10, 5);
    assert_eq!(item.name(), "Shield");
    assert_eq!(item.description(), "A sturdy shield");
    assert_eq!(item.value(), 10);
    assert_eq!(item.type_(), &ItemType::Armor(5));
}

#[test]
fn test_item_new_gold() {
    let item = Item::new_gold(10);
    assert_eq!(item.name(), "Gold");
    assert_eq!(item.description(), "A pile of gold");
    assert_eq!(item.value(), 10);
    assert_eq!(item.type_(), &ItemType::Gold(10));
}

#[test]
fn test_item_new_effect() {
    let effect = Effect::Heal(5);
    let item = Item::new_effect("Potion", "A healing potion", 10, effect.clone());
    assert_eq!(item.name(), "Potion");
    assert_eq!(item.description(), "A healing potion");
    assert_eq!(item.value(), 10);
    assert_eq!(item.type_(), &ItemType::Effect(effect));
}

#[test]
fn test_item_use_item() {
    let effect = Effect::Heal(5);
    let item = Item::new_effect("Potion", "A healing potion", 10, effect.clone());
    assert_eq!(item.use_item(), Some(&effect));
}

#[test]
fn test_effect_apply_heal() {
    let mut player = Player::new("Player");
    let monster = Monster::new("Monster", 10, Item::new_weapon("Weapon", "", 0, 10), None, 0, 1);
    let event = Event::Monster(monster);
    let mut map = GameMap::new();
    map.add_event(Position::new(0, 0), event);
    map.do_event(&Position::new(0, 0), &mut player);

    let effect = Effect::Heal(5);
    let mut no_monster: Option<Monster> = None;
    effect.apply(&mut player, &mut no_monster);
    assert_eq!(player.life(), 95);
}

#[test]
fn test_effect_apply_damage() {
    let mut player = Player::new("Player");
    let monster = Monster::new("Monster", 10, Item::new_weapon("Weapon", "", 0, 5), None, 0, 0);
    let effect = Effect::Damage(5);
    let mut target = Some(monster);
    effect.apply(&mut player, &mut target);
    assert_eq!(target.unwrap().life(), 5);
}

#[test]
fn test_effect_apply_teleport() {
    let mut player = Player::new("Player");
    let effect = Effect::Teleport(Position::new(1, 1));
    let mut no_monster: Option<Monster> = None;
    effect.apply(&mut player, &mut no_monster);
    assert_eq!(player.position(), &Position::new(1, 1));
}

#[test]
fn test_item_add_value_stacks_gold() {
    let mut item = Item::new_gold(10);
    item.add_value(20);
    assert_eq!(item.value(), 30);
    assert_eq!(item.type_(), &ItemType::Gold(30));
}
