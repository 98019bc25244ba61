use rpg_data::item::{Effect, Item};
use rpg_data::lexer::{Lexer, Token};
use rpg_data::monster::Monster;
use rpg_data::parser::Parser;
use rpg_data::player::Player;
use rpg_data::position::Position;

#[test]
fn test_parser_weapon() {
    let input = "@item @weapon @name: Sword @atk: 10 @description: A sword @value: 100";
    let mut lexer = Lexer::new(input.to_string());
    let tokens = lexer.lex();
    println!("{:?}", tokens);
    let mut parser = Parser::new(tokens);
    let item = parser.parse_item();
    assert_eq!(item, Some(Item::new_weapon("Sword", "A sword", 100, 10)));
}

#[test]
fn test_parser_armor() {
    let input = "@item @armor @name: Shield @def: 10 @description: A shield @value: 100";
    let mut lexer = Lexer::new(input.to_string());
    let tokens = lexer.lex();
    println!("{:?}", tokens);
    let mut parser = Parser::new(tokens);
    let item = parser.parse_item();
    assert_eq!(item, Some(Item::new_armor("Shield", "A shield", 100, 10)));
}

#[test]
fn test_parser_gold() {
    let input = "@item @gold @value: 100";
    let mut lexer = Lexer::new(input.to_string());
    let tokens = lexer.lex();
    println!("{:?}", tokens);
    let mut parser = Parser::new(tokens);
    let item = parser.parse_item();
    assert_eq!(item, Some(Item::new_gold(100)));
}

#[test]
fn test_parser_exp() {
    let input = "@item @exp @name: Exp @value: 100 @description: An experience point";
    let mut lexer = Lexer::new(input.to_string());
    let tokens = lexer.lex();
    println!("{:?}", tokens);
    let mut parser = Parser::new(tokens);
    let item = parser.parse_item();
    assert_eq!(item, Some(Item::new_exp("Exp", "An experience point", 100)));
}

#[test]
fn test_parser_effect() {
    let input = "@item @effect @name: Heal @value: 10 @description: Heal ten HP @effect: @heal: 10";
    let mut lexer = Lexer::new(input.to_string());
    let tokens = lexer.lex();
    println!("{:?}", tokens);
    let mut parser = Parser::new(tokens);
    let item = parser.parse_item();
    assert_eq!(
        item,
        Some(Item::new_effect("Heal", "Heal ten HP", 10, Effect::Heal(10)))
    );
}

#[test]
fn test_parser_monster() {
    let input_item = "@item @gold @value: 10";
    let input_weapon = "@item @weapon @name: Sword @atk: 10 @description: A sword @value: 100";

    let mut lexer = Lexer::new(input_item.to_string());
    let tokens = lexer.lex();
    let mut parser = Parser::new(tokens);
    let mut items = vec![parser.parse_item().unwrap()];
    assert_eq!(items[0], Item::new_gold(10));

    let mut lexer = Lexer::new(input_weapon.to_string());
    let tokens = lexer.lex();
    let mut parser = Parser::new(tokens);
    items.push(parser.parse_item().unwrap());
    assert_eq!(items[1], Item::new_weapon("Sword", "A sword", 100, 10));

    let input = "@monster @name: Goblin @life: 10 @weapon: Sword @drop: Gold 10 @rareness: 1";
    let mut lexer = Lexer::new(input.to_string());
    let tokens = lexer.lex();
    println!("{:?}", tokens);
    let mut parser = Parser::new(tokens);
    let monster = parser.load_monster(&items);
    assert_eq!(
        monster,
        Some(Monster::new(
            "Goblin",
            10,
            Item::new_weapon("Sword", "A sword", 100, 10),
            Some(Item::new_gold(10)),
            10,
            1
        ))
    );
}

#[test]
fn test_parser_player() {
    let input_item = "@item @gold @value: 10";
    let input_weapon = "@item @weapon @name: Sword @atk: 10 @description: A sword @value: 100";

    let mut lexer = Lexer::new(input_item.to_string());
    let tokens = lexer.lex();
    let mut parser = Parser::new(tokens);
    let mut items = vec![parser.parse_item().unwrap()];
    assert_eq!(items[0], Item::new_gold(10));

    let mut lexer = Lexer::new(input_weapon.to_string());
    let tokens = lexer.lex();
    let mut parser = Parser::new(tokens);
    items.push(parser.parse_item().unwrap());
    assert_eq!(items[1], Item::new_weapon("Sword", "A sword", 100, 10));

    let input = "@player @name: Player @life: 10 @max-life: 100 @weapon: Sword @exp: 10 @level: 1 @exp-to-level-up: 100 @inventory: Gold 10";
    let mut lexer = Lexer::new(input.to_string());
    let tokens = lexer.lex();
    println!("{:?}", tokens);
    let mut parser = Parser::new(tokens);
    let player = parser.parse_player(&items);
    assert_eq!(
        player,
        Player::new_all(
            "Player",
            10,
            100,
            Position::new(0, 0),
            Some(Item::new_weapon("Sword", "A sword", 100, 10)),
            None,
            vec![Item::new_gold(100)],
            10,
            1,
            100
        )
    );
}

#[test]
fn test_parser_weapon_fields_any_order() {
    let input = "@item @weapon @value: 100 @description: A sword @atk: 10 @name: Sword";
    let mut lexer = Lexer::new(input.to_string());
    let mut parser = Parser::new(lexer.lex());
    let item = parser.parse_item();
    assert_eq!(item, Some(Item::new_weapon("Sword", "A sword", 100, 10)));
}

#[test]
fn test_parser_weapon_defaults() {
    let input = "@item @weapon";
    let mut lexer = Lexer::new(input.to_string());
    let mut parser = Parser::new(lexer.lex());
    let item = parser.parse_item();
    assert_eq!(item, Some(Item::new_weapon("", "", 0, 0)));
}

#[test]
fn test_parser_weapon_repeated_field_last_wins() {
    let input = "@item @weapon @atk: 1 @atk: 7";
    let mut lexer = Lexer::new(input.to_string());
    let mut parser = Parser::new(lexer.lex());
    let item = parser.parse_item();
    assert_eq!(item, Some(Item::new_weapon("", "", 0, 7)));
}

#[test]
fn test_parser_gold_strict_rejects() {
    let input = "@item @gold @atk: 1";
    let mut lexer = Lexer::new(input.to_string());
    let mut parser = Parser::new(lexer.lex());
    assert_eq!(parser.parse_item(), None);
}

#[test]
fn test_parser_unknown_subtype_rejects() {
    let input = "@item @monster @name: x";
    let mut lexer = Lexer::new(input.to_string());
    let mut parser = Parser::new(lexer.lex());
    assert_eq!(parser.parse_item(), None);
}

#[test]
fn test_parser_not_an_item_rejects() {
    let input = "@weapon @name: Sword";
    let mut lexer = Lexer::new(input.to_string());
    let mut parser = Parser::new(lexer.lex());
    assert_eq!(parser.parse_item(), None);
}

#[test]
fn test_parser_not_a_monster_rejects() {
    let input = "@item @gold @value: 10";
    let mut lexer = Lexer::new(input.to_string());
    let mut parser = Parser::new(lexer.lex());
    assert_eq!(parser.load_monster(&vec![]), None);
}

#[test]
fn test_parser_empty_input_no_entity() {
    let mut lexer = Lexer::new("".to_string());
    let tokens = lexer.lex();
    assert_eq!(tokens, vec![Token::Eof]);
    let mut parser = Parser::new(tokens.clone());
    assert_eq!(parser.parse_item(), None);
    let mut parser = Parser::new(tokens);
    assert_eq!(parser.load_monster(&vec![]), None);
}

#[test]
fn test_parser_identical_tokens_identical_entities() {
    let input = "@item @weapon @name: Sword @atk: 3";
    let mut first = Parser::new(Lexer::new(input.to_string()).lex());
    let mut second = Parser::new(Lexer::new(input.to_string()).lex());
    assert_eq!(first.parse_item(), second.parse_item());
}

#[test]
fn test_parser_inventory_quantity_expansion() {
    let sword = Item::new_weapon("Sword", "A sword", 100, 10);
    let items = vec![sword.clone()];
    let input = "@player @inventory: Sword 3";
    let mut lexer = Lexer::new(input.to_string());
    let mut parser = Parser::new(lexer.lex());
    let player = parser.parse_player(&items);
    assert_eq!(player.inventory().len(), 3);
    assert_eq!(player.inventory()[0], sword);
    assert_eq!(player.inventory()[1], sword);
    assert_eq!(player.inventory()[2], sword);
}

#[test]
fn test_parser_monster_unresolved_weapon_keeps_default() {
    let input = "@monster @name: Rat @weapon: Nothing @life: 2";
    let mut lexer = Lexer::new(input.to_string());
    let mut parser = Parser::new(lexer.lex());
    let monster = parser.load_monster(&vec![]);
    assert_eq!(
        monster,
        Some(Monster::new(
            "Rat",
            2,
            Item::new_weapon("", "", 0, 0),
            None,
            0,
            0
        ))
    );
}
