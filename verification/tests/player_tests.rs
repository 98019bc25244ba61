use rpg_data::item::Item;
use rpg_data::player::{Direction, Player};
use rpg_data::position::Position;

#[test]
fn test_player_take_damage() {
    let mut player = Player::new("Player 1");
    player.take_damage(10);
    assert_eq!(player.life(), 90);
}

#[test]
fn test_player_move_to() {
    let mut player = Player::new("Player 1");
    player.move_to(Position::new(1, 1));
    assert_eq!(player.position(), &Position::new(1, 1));
}

#[test]
fn test_player_move_to_direction() {
    let mut player = Player::new("Player 1");
    player.move_to_direction(Direction::Up);
    assert_eq!(player.position(), &Position::new(0, -1));
    player.move_to_direction(Direction::Down);
    assert_eq!(player.position(), &Position::new(0, 0));
    player.move_to_direction(Direction::Left);
    assert_eq!(player.position(), &Position::new(-1, 0));
    player.move_to_direction(Direction::Right);
    assert_eq!(player.position(), &Position::new(0, 0));
}

#[test]
fn test_player_take_damage_from() {
    let mut player = Player::new("Player 1");
    let weapon = Item::new_weapon("Sword", "A sword", 10, 10);
    player.take_damage_from(&weapon);
    assert_eq!(player.life(), 90);
}

#[test]
fn test_player_take_damage_with_armot() {
    let mut player = Player::new("Player 1");
    player.equip_armor(Item::new_armor("Armor", "An armor", 5, 5));
    player.take_damage(10);
    assert_eq!(player.life(), 95);
}

#[test]
fn test_player_level_up() {
    let mut player = Player::new("Player 1");
    player.add_item(Item::new_exp("Exp", "Experience", 100));
    assert_eq!(player.level(), 2);
}

#[test]
fn test_player_add_item_gold() {
    let mut player = Player::new("Player 1");
    player.add_item(Item::new_gold(10));
    player.add_item(Item::new_gold(20));
    assert_eq!(player.get_gold().unwrap().value(), 30);
}

#[test]
fn test_player_add_item_exp() {
    let mut player = Player::new("Player 1");
    player.add_item(Item::new_exp("Exp", "Experience", 100));
    assert_eq!(player.experience(), 100);
}

#[test]
fn test_player_level_up_thresholds() {
    let mut player = Player::new("Player 1");
    player.level_up();
    assert_eq!(player.level(), 2);
    assert_eq!(player.next_level(), 1500);
    assert_eq!(player.life(), 1100);
}

#[test]
fn test_player_new_defaults() {
    let player = Player::new("Player 1");
    assert_eq!(player.name(), "Player 1");
    assert_eq!(player.life(), 100);
    assert_eq!(player.level(), 1);
    assert_eq!(player.next_level(), 100);
    assert_eq!(player.experience(), 0);
    assert_eq!(
        player.weapon(),
        Some(&Item::new_weapon("Stick", "A stick", 0, 1))
    );
    assert_eq!(player.armor(), None);
    assert!(player.inventory().is_empty());
    assert!(!player.is_dead());
}

#[test]
fn test_player_heal_capped_at_max_life() {
    let mut player = Player::new("Player 1");
    player.take_damage(-50);
    assert_eq!(player.life(), 100);
}
