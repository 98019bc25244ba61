use rpg_data::item::Item;
use rpg_data::monster::Monster;
use rpg_data::player::Player;
use rpg_data::position::Position;
use rpg_data::world::{Event, GameMap};

#[test]
fn test_map_add_event() {
    let mut map = GameMap::new();
    let position = Position::new(0, 0);
    let event = Event::Empty;
    map.add_event(position, event);
    assert_eq!(map.event_at(&Position::new(0, 0)), Some(&Event::Empty));
}

#[test]
fn test_map_remove_event() {
    let mut map = GameMap::new();
    let position = Position::new(0, 0);
    let event = Event::Empty;
    map.add_event(position, event);
    map.remove_event(&Position::new(0, 0));
    assert_eq!(map.event_at(&Position::new(0, 0)), None);
}

#[test]
fn test_map_do_event_empty() {
    let mut map = GameMap::new();
    let position = Position::new(0, 0);
    let event = Event::Empty;
    map.add_event(position, event);
    let mut player = Player::new("Player 1");
    map.do_event(&Position::new(0, 0), &mut player);
    assert_eq!(player.life(), 100);
}

#[test]
fn test_map_do_event_monster() {
    let mut map = GameMap::new();
    let position = Position::new(0, 0);
    let weapon = Item::new_weapon("Weapon 1", "", 10, 10);
    let event = Event::Monster(Monster::new("Monster 1", 100, weapon, None, 0, 1));
    map.add_event(position, event);
    let mut player = Player::new("Player 1");
    map.do_event(&Position::new(0, 0), &mut player);
    assert_eq!(player.life(), 90);
}

#[test]
fn test_map_do_event_monster_with_weapon() {
    let mut map = GameMap::new();
    let position = Position::new(0, 0);
    let weapon = Item::new_weapon("Weapon 1", "", 10, 10);
    let event = Event::Monster(Monster::new("Monster 1", 100, weapon.clone(), None, 0, 1));
    map.add_event(position, event);
    let mut player = Player::new("Player 1");
    player.equip_weapon(Item::new_weapon("Weapon 2", "", 20, 20));
    map.do_event(&Position::new(0, 0), &mut player);
    assert_eq!(player.life(), 90);
    assert_eq!(
        map.event_at(&Position::new(0, 0)),
        Some(&Event::Monster(Monster::new("Monster 1", 80, weapon, None, 0, 1)))
    );
}

#[test]
fn test_map_do_event_monster_die() {
    let mut map = GameMap::new();
    let position = Position::new(0, 0);
    let event = Event::Monster(Monster::new(
        "Monster 1",
        10,
        Item::new_weapon("Weapon 1", "", 10, 10),
        None,
        0,
        1,
    ));
    map.add_event(position, event);
    let mut player = Player::new("Player 1");
    player.equip_weapon(Item::new_weapon("Weapon 2", "", 20, 20));
    map.do_event(&Position::new(0, 0), &mut player);
    assert_eq!(player.life(), 90);
    assert_eq!(map.event_at(&Position::new(0, 0)), Some(&Event::Empty));
}

#[test]
fn test_map_do_event_treasure() {
    let mut map = GameMap::new();
    let position = Position::new(0, 0);
    let item = Item::new_weapon("Weapon 1", "", 10, 10);
    let event = Event::Treasure(item.clone(), 10);
    map.add_event(position, event);
    let mut player = Player::new("Player 1");
    map.do_event(&Position::new(0, 0), &mut player);
    assert_eq!(player.inventory()[0], item);
    assert_eq!(map.event_at(&Position::new(0, 0)), Some(&Event::Empty));
}

#[test]
fn test_map_do_event_teleport() {
    let mut map = GameMap::new();
    let position = Position::new(0, 0);
    let event = Event::Teleport(Position::new(1, 1));
    map.add_event(position, event);
    let mut player = Player::new("Player 1");
    map.do_event(&Position::new(0, 0), &mut player);
    assert_eq!(player.position(), &Position::new(1, 1));
}

#[test]
fn test_map_do_event_end() {
    let mut map = GameMap::new();
    let position = Position::new(0, 0);
    let event = Event::End;
    map.add_event(position, event);
    let mut player = Player::new("Player 1");
    assert_eq!(map.do_event(&Position::new(0, 0), &mut player), true);
}

#[test]
fn test_monster_take_damage() {
    let mut monster = Monster::new(
        "Monster 1",
        100,
        Item::new_weapon("Weapon 1", "", 10, 10),
        None,
        0,
        1,
    );
    monster.take_damage(10);
    assert_eq!(monster.life(), 90);
}

#[test]
fn test_monster_take_damage_from() {
    let mut monster = Monster::new(
        "Monster 1",
        100,
        Item::new_weapon("Weapon 1", "", 10, 10),
        None,
        0,
        1,
    );
    let weapon = Item::new_weapon("Weapon 2", "", 20, 20);
    monster.take_damage_from(&weapon);
    assert_eq!(monster.life(), 80);
}

#[test]
fn test_monster_drop() {
    let monster = Monster::new(
        "Monster 1",
        100,
        Item::new_weapon("Weapon 1", "", 10, 10),
        Some(Item::new_weapon("Weapon 2", "", 20, 20)),
        1,
        1,
    );
    assert_eq!(
        monster.drop(),
        &Some((Item::new_weapon("Weapon 2", "", 20, 20), 1))
    );
}

#[test]
fn test_monster_drop_to_player() {
    let mut monster = Monster::new(
        "Monster 1",
        100,
        Item::new_weapon("Weapon 1", "", 10, 10),
        Some(Item::new_weapon("Weapon 2", "", 20, 20)),
        1,
        1,
    );
    let mut player = Player::new("Player 1");
    monster.take_damage(100);
    if let Some((drop, _)) = monster.take_drop() {
        player.add_item(drop);
    }
    assert_eq!(player.inventory()[0], Item::new_weapon("Weapon 2", "", 20, 20));
}

#[test]
fn test_map_do_event_monster_drop_quantity() {
    let mut map = GameMap::new();
    let position = Position::new(0, 0);
    let dropped = Item::new_weapon("Fang", "", 1, 1);
    let event = Event::Monster(Monster::new(
        "Monster 1",
        1,
        Item::new_weapon("Weapon 1", "", 0, 0),
        Some(dropped.clone()),
        3,
        1,
    ));
    map.add_event(position, event);
    let mut player = Player::new("Player 1");
    map.do_event(&Position::new(0, 0), &mut player);
    assert_eq!(player.inventory().len(), 3);
    assert_eq!(player.inventory()[0], dropped);
    assert_eq!(player.inventory()[1], dropped);
    assert_eq!(player.inventory()[2], dropped);
    assert_eq!(map.event_at(&Position::new(0, 0)), Some(&Event::Empty));
}

#[test]
fn test_map_generate_map_keeps_origin() {
    let mut map = GameMap::new();
    map.generate_map(4747515738017, 1000);
    assert!(map.event_at(&Position::new(0, 0)).is_some());
    let p = *map.get_random_position();
    assert!(map.event_at(&p).is_some());
}
