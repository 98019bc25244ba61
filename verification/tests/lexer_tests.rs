use rpg_data::lexer::{Lexer, Token};

#[test]
fn test_lexer() {
    let input = "@item @weapon @armor @gold @effect @exp @monster";
    let mut lexer = Lexer::new(input.to_string());
    assert_eq!(lexer.next_token(), Some(Token::Item));
    assert_eq!(lexer.next_token(), Some(Token::Weapon));
    assert_eq!(lexer.next_token(), Some(Token::Armor));
    assert_eq!(lexer.next_token(), Some(Token::Gold));
    assert_eq!(lexer.next_token(), Some(Token::Effect));
    assert_eq!(lexer.next_token(), Some(Token::Exp));
    assert_eq!(lexer.next_token(), Some(Token::Monster));
}

#[test]
fn test_lexer_lex() {
    let input = "@item @weapon @armor @gold @effect @exp @monster";
    let mut lexer = Lexer::new(input.to_string());
    let tokens = lexer.lex();
    assert_eq!(
        tokens,
        vec![
            Token::Item,
            Token::Weapon,
            Token::Armor,
            Token::Gold,
            Token::Effect,
            Token::Exp,
            Token::Monster,
            Token::Eof,
        ]
    );
}

#[test]
fn test_lexer_lex_with_assign() {
    let input = "@atk: 10";
    let mut lexer = Lexer::new(input.to_string());
    let tokens = lexer.lex();
    assert_eq!(tokens, vec![Token::Atk, Token::Colon, Token::Int(10), Token::Eof,])
}

#[test]
fn test_lexer_lex_with_string() {
    let input = "@name: Sword";
    let mut lexer = Lexer::new(input.to_string());
    let tokens = lexer.lex();
    assert_eq!(
        tokens,
        vec![Token::Name, Token::Colon, Token::Str("Sword".to_string()), Token::Eof,]
    )
}

#[test]
fn test_lexer_lex_with_string_and_number() {
    let input = "@name: Sword @value: 10";
    let mut lexer = Lexer::new(input.to_string());
    let tokens = lexer.lex();
    assert_eq!(
        tokens,
        vec![
            Token::Name,
            Token::Colon,
            Token::Str("Sword".to_string()),
            Token::Value,
            Token::Colon,
            Token::Int(10),
            Token::Eof,
        ]
    )
}

#[test]
fn test_lexer_lex_with_string_sentence() {
    let input = "@description: A sharp sword @name: Big Sword name";
    let mut lexer = Lexer::new(input.to_string());
    let tokens = lexer.lex();
    assert_eq!(
        tokens,
        vec![
            Token::Description,
            Token::Colon,
            Token::Str("A sharp sword".to_string()),
            Token::Name,
            Token::Colon,
            Token::Str("Big Sword name".to_string()),
            Token::Eof,
        ]
    )
}

#[test]
fn test_lexer_empty_input() {
    let mut lexer = Lexer::new("".to_string());
    assert_eq!(lexer.lex(), vec![Token::Eof]);
}

#[test]
fn test_lexer_identical_text_identical_tokens() {
    let input = "@name: Big Sword @value: 12";
    let mut first = Lexer::new(input.to_string());
    let mut second = Lexer::new(input.to_string());
    assert_eq!(first.lex(), second.lex());
}

#[test]
fn test_lexer_gluing_idempotent() {
    let input = "@description: one two three @name: four five";
    let mut lexer = Lexer::new(input.to_string());
    let once = lexer.lex();
    let twice = Lexer::combine_strings(&once);
    assert_eq!(twice, once);
}

#[test]
fn test_lexer_bare_keyword_word_stays_string() {
    let input = "name";
    let mut lexer = Lexer::new(input.to_string());
    assert_eq!(
        lexer.lex(),
        vec![Token::Str("name".to_string()), Token::Eof]
    );
}

#[test]
fn test_lexer_foreign_character_stops_scan() {
    let input = "@atk !";
    let mut lexer = Lexer::new(input.to_string());
    assert_eq!(lexer.lex(), vec![Token::Atk]);
}

#[test]
fn test_lexer_treasure_keyword_recognized() {
    let mut lexer = Lexer::new("@treasure".to_string());
    assert_eq!(lexer.lex(), vec![Token::Treasure, Token::Eof]);
}

#[test]
fn test_lookup_keyword_exact_only() {
    assert_eq!(
        rpg_data::lexer::lookup_keyword(&"@item".to_string()),
        Some(Token::Item)
    );
    assert_eq!(rpg_data::lexer::lookup_keyword(&"@ite".to_string()), None);
    assert_eq!(rpg_data::lexer::lookup_keyword(&"item".to_string()), None);
    assert_eq!(rpg_data::lexer::lookup_keyword(&"@Item".to_string()), None);
}
