//! The tokenizer's stream contract, operator values, and the smaller
//! building blocks: paths, configuration, runtime operator results.

use oxid::data::Data;
use oxid::expressions::path::ExprPath;
use oxid::operations::Operation;
use oxid::tokenizer::token_type::TokenType;
use oxid::tokenizer::tokenize;
use oxid::Config;

#[test]
fn stream_ends_with_the_end_of_input_token() {
    let tokens = tokenize(&String::from("main"), "let x = 1;").unwrap();
    assert!(matches!(tokens.last().unwrap().token, TokenType::Eof));
}

#[test]
fn declaration_tokenizes_kind_by_kind() {
    let tokens = tokenize(&String::from("main"), "let x = 1;").unwrap();
    assert_eq!(tokens.len(), 6);
    assert!(matches!(tokens[0].token, TokenType::Let));
    assert!(matches!(&tokens[1].token, TokenType::Identifier(s) if s == "x"));
    assert!(matches!(tokens[2].token, TokenType::Equal));
    assert!(matches!(tokens[3].token, TokenType::Number(1)));
    assert!(matches!(tokens[4].token, TokenType::Semicolon));
}

#[test]
fn range_tokenizes_as_spread() {
    let tokens = tokenize(&String::from("main"), "0..3").unwrap();
    assert!(matches!(tokens[0].token, TokenType::Number(0)));
    assert!(matches!(tokens[1].token, TokenType::Spread));
    assert!(matches!(tokens[2].token, TokenType::Number(3)));
}

#[test]
fn string_literal_keeps_its_characters() {
    let tokens = tokenize(&String::from("main"), "\"hi there\"").unwrap();
    assert!(matches!(&tokens[0].token, TokenType::StringLit(s) if s == "hi there"));
}

#[test]
fn keywords_and_booleans_recognized() {
    let tokens = tokenize(&String::from("main"), "fn for in if true false").unwrap();
    assert!(matches!(tokens[0].token, TokenType::Fn));
    assert!(matches!(tokens[1].token, TokenType::For));
    assert!(matches!(tokens[2].token, TokenType::In));
    assert!(matches!(tokens[3].token, TokenType::If));
    assert!(matches!(tokens[4].token, TokenType::Bool(true)));
    assert!(matches!(tokens[5].token, TokenType::Bool(false)));
}

#[test]
fn positions_track_lines_and_columns() {
    let tokens = tokenize(&String::from("main"), "let\n  x").unwrap();
    assert_eq!(tokens[0].token_pos.line_i, 0);
    assert_eq!(tokens[0].token_pos.col_i, 0);
    assert_eq!(tokens[1].token_pos.line_i, 1);
    assert_eq!(tokens[1].token_pos.col_i, 2);
}

#[test]
fn dotted_path_mangles_with_dots() {
    let path = ExprPath::new(vec![
        String::from("a"),
        String::from("b"),
        String::from("c"),
    ]);
    assert_eq!(path.mangle(), String::from("a.b.c"));
}

#[test]
fn operator_values_match_their_types() {
    let three = Operation::Add.op(&Data::Number(1), &Data::Number(2));
    assert!(matches!(three, Some(Data::Number(3))));
    let cat = Operation::Add.op(
        &Data::String(String::from("ab")),
        &Data::String(String::from("cd")),
    );
    assert!(matches!(cat, Some(Data::String(s)) if s == "abcd"));
    let same = Operation::Eq.op(&Data::Number(4), &Data::Number(4));
    assert!(matches!(same, Some(Data::Bool(true))));
    let ordered = Operation::Lt.op(&Data::Number(3), &Data::Number(4));
    assert!(matches!(ordered, Some(Data::Bool(true))));
    let rejected = Operation::Add.op(&Data::Number(1), &Data::Bool(true));
    assert!(rejected.is_none());
}

#[test]
fn config_takes_the_first_free_argument() {
    let args = vec![String::from("oxid"), String::from("main.ox")];
    let config = Config::new(&args).unwrap();
    assert_eq!(config.source_file, String::from("main.ox"));
    assert!(config.std_file.is_none());
}

#[test]
fn config_reads_the_std_flag() {
    let args = vec![
        String::from("oxid"),
        String::from("--std"),
        String::from("prelude.ox"),
        String::from("main.ox"),
    ];
    let config = Config::new(&args).unwrap();
    assert_eq!(config.source_file, String::from("main.ox"));
    assert_eq!(config.std_file, Some(String::from("prelude.ox")));
}

#[test]
fn config_without_a_source_file_is_refused() {
    let args = vec![String::from("oxid")];
    assert!(Config::new(&args).is_none());
    let dangling = vec![String::from("oxid"), String::from("--std")];
    assert!(Config::new(&dangling).is_none());
}
