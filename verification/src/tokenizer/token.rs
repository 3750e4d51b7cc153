//! A lexical token and its source position.

use vstd::prelude::*;
use crate::tokenizer::token_type::TokenType;

verus! {

/// Where a token came from: zero-based line and column, and the name of the
/// source it was read from.
#[derive(Debug)]
pub struct TokenPos {
    pub line_i: usize,
    pub col_i: usize,
    pub filename: String,
}

impl TokenPos {
    /// A position from its parts.
    pub fn new(line_i: usize, col_i: usize, filename: String) -> (r: Self)
        ensures
            r.line_i == line_i,
            r.col_i == col_i,
            r.filename == filename,
    {
        TokenPos { line_i, col_i, filename }
    }
}

impl Clone for TokenPos {
    fn clone(&self) -> (r: Self)
        ensures
            r == *self,
    {
        TokenPos { line_i: self.line_i, col_i: self.col_i, filename: self.filename.clone() }
    }
}

/// One lexical token: its kind (with payload) and its position.
pub struct Token {
    pub token_pos: TokenPos,
    pub token: TokenType,
}

impl Token {
    /// A token from its parts.
    pub fn new(token_pos: TokenPos, token: TokenType) -> (r: Self)
        ensures
            r.token_pos == token_pos,
            r.token == token,
    {
        Token { token_pos, token }
    }
}

impl Clone for Token {
    fn clone(&self) -> (r: Self)
        ensures
            r == *self,
    {
        Token { token_pos: self.token_pos.clone(), token: self.token.clone() }
    }
}

} // verus!
