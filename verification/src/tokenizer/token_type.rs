//! The kinds of lexical token, and their readings as literals, operators and
//! assignment operators.

use vstd::prelude::*;
use vstd::string::StringExecFns;
use crate::data::Data;
use crate::errors::{fmt_i64, int_str};
use crate::expressions::assign::AssignOp;
use crate::operations::Operation;

verus! {

/// The mathematical shape of a token: payloads as character sequences and
/// plain values, one variant per token kind.
pub enum TokenV {
    LeftParen,
    RightParen,
    LeftBrace,
    RightBrace,
    LeftCurly,
    RightCurly,
    Pipe,
    Plus,
    PlusEqual,
    Minus,
    MinusEqual,
    Star,
    StarEqual,
    Slash,
    SlashEqual,
    Remainder,
    Equal,
    EqualEqual,
    Bang,
    BangEqual,
    Greater,
    GreaterEqual,
    Less,
    LessEqual,
    Colon,
    Semicolon,
    Dot,
    Spread,
    Comma,
    Fn,
    Let,
    Mut,
    For,
    In,
    If,
    Else,
    Match,
    Identifier(Seq<char>),
    StringLit(Seq<char>),
    Number(i64),
    Bool(bool),
    Eof,
}

/// The kind of one token: punctuation, an operator mark, a keyword, a
/// literal with its payload, or the end of the input.
pub enum TokenType {
    LeftParen,
    RightParen,
    LeftBrace,
    RightBrace,
    LeftCurly,
    RightCurly,
    Pipe,
    Plus,
    PlusEqual,
    Minus,
    MinusEqual,
    Star,
    StarEqual,
    Slash,
    SlashEqual,
    Remainder,
    Equal,
    EqualEqual,
    Bang,
    BangEqual,
    Greater,
    GreaterEqual,
    Less,
    LessEqual,
    Colon,
    Semicolon,
    Dot,
    Spread,
    Comma,
    Fn,
    Let,
    Mut,
    For,
    In,
    If,
    Else,
    Match,
    Identifier(String),
    StringLit(String),
    Number(i64),
    Bool(bool),
    Eof,
}

impl View for TokenType {
    type V = TokenV;

    open spec fn view(&self) -> TokenV {
        match self {
            TokenType::LeftParen => TokenV::LeftParen,
            TokenType::RightParen => TokenV::RightParen,
            TokenType::LeftBrace => TokenV::LeftBrace,
            TokenType::RightBrace => TokenV::RightBrace,
            TokenType::LeftCurly => TokenV::LeftCurly,
            TokenType::RightCurly => TokenV::RightCurly,
            TokenType::Pipe => TokenV::Pipe,
            TokenType::Plus => TokenV::Plus,
            TokenType::PlusEqual => TokenV::PlusEqual,
            TokenType::Minus => TokenV::Minus,
            TokenType::MinusEqual => TokenV::MinusEqual,
            TokenType::Star => TokenV::Star,
            TokenType::StarEqual => TokenV::StarEqual,
            TokenType::Slash => TokenV::Slash,
            TokenType::SlashEqual => TokenV::SlashEqual,
            TokenType::Remainder => TokenV::Remainder,
            TokenType::Equal => TokenV::Equal,
            TokenType::EqualEqual => TokenV::EqualEqual,
            TokenType::Bang => TokenV::Bang,
            TokenType::BangEqual => TokenV::BangEqual,
            TokenType::Greater => TokenV::Greater,
            TokenType::GreaterEqual => TokenV::GreaterEqual,
            TokenType::Less => TokenV::Less,
            TokenType::LessEqual => TokenV::LessEqual,
            TokenType::Colon => TokenV::Colon,
            TokenType::Semicolon => TokenV::Semicolon,
            TokenType::Dot => TokenV::Dot,
            TokenType::Spread => TokenV::Spread,
            TokenType::Comma => TokenV::Comma,
            TokenType::Fn => TokenV::Fn,
            TokenType::Let => TokenV::Let,
            TokenType::Mut => TokenV::Mut,
            TokenType::For => TokenV::For,
            TokenType::In => TokenV::In,
            TokenType::If => TokenV::If,
            TokenType::Else => TokenV::Else,
            TokenType::Match => TokenV::Match,
            TokenType::Identifier(s) => TokenV::Identifier(s@),
            TokenType::StringLit(s) => TokenV::StringLit(s@),
            TokenType::Number(n) => TokenV::Number(*n),
            TokenType::Bool(b) => TokenV::Bool(*b),
            TokenType::Eof => TokenV::Eof,
        }
    }
}

impl Clone for TokenType {
    fn clone(&self) -> (r: Self)
        ensures
            r == *self,
    {
        match self {
            TokenType::LeftParen => TokenType::LeftParen,
            TokenType::RightParen => TokenType::RightParen,
            TokenType::LeftBrace => TokenType::LeftBrace,
            TokenType::RightBrace => TokenType::RightBrace,
            TokenType::LeftCurly => TokenType::LeftCurly,
            TokenType::RightCurly => TokenType::RightCurly,
            TokenType::Pipe => TokenType::Pipe,
            TokenType::Plus => TokenType::Plus,
            TokenType::PlusEqual => TokenType::PlusEqual,
            TokenType::Minus => TokenType::Minus,
            TokenType::MinusEqual => TokenType::MinusEqual,
            TokenType::Star => TokenType::Star,
            TokenType::StarEqual => TokenType::StarEqual,
            TokenType::Slash => TokenType::Slash,
            TokenType::SlashEqual => TokenType::SlashEqual,
            TokenType::Remainder => TokenType::Remainder,
            TokenType::Equal => TokenType::Equal,
            TokenType::EqualEqual => TokenType::EqualEqual,
            TokenType::Bang => TokenType::Bang,
            TokenType::BangEqual => TokenType::BangEqual,
            TokenType::Greater => TokenType::Greater,
            TokenType::GreaterEqual => TokenType::GreaterEqual,
            TokenType::Less => TokenType::Less,
            TokenType::LessEqual => TokenType::LessEqual,
            TokenType::Colon => TokenType::Colon,
            TokenType::Semicolon => TokenType::Semicolon,
            TokenType::Dot => TokenType::Dot,
            TokenType::Spread => TokenType::Spread,
            TokenType::Comma => TokenType::Comma,
            TokenType::Fn => TokenType::Fn,
            TokenType::Let => TokenType::Let,
            TokenType::Mut => TokenType::Mut,
            TokenType::For => TokenType::For,
            TokenType::In => TokenType::In,
            TokenType::If => TokenType::If,
            TokenType::Else => TokenType::Else,
            TokenType::Match => TokenType::Match,
            TokenType::Identifier(s) => TokenType::Identifier(s.clone()),
            TokenType::StringLit(s) => TokenType::StringLit(s.clone()),
            TokenType::Number(n) => TokenType::Number(*n),
            TokenType::Bool(b) => TokenType::Bool(*b),
            TokenType::Eof => TokenType::Eof,
        }
    }
}

impl TokenType {
    /// The literal value a token denotes, where it denotes one: a string,
    /// number or boolean payload becomes the matching runtime value.
    pub fn to_data(&self) -> (r: Option<Data>)
        ensures
            r == spec_to_data(*self),
    {
        match self {
            TokenType::StringLit(val) => Some(Data::String(val.clone())),
            TokenType::Number(val) => Some(Data::Number(*val)),
            TokenType::Bool(val) => Some(Data::Bool(*val)),
            _ => None,
        }
    }

    /// The binary operator a token marks, where it marks one.
    pub fn to_operation(&self) -> (r: Option<Operation>)
        ensures
            r == spec_to_operation(*self),
    {
        match self {
            TokenType::Plus => Some(Operation::Add),
            TokenType::Minus => Some(Operation::Sub),
            TokenType::Star => Some(Operation::Mul),
            TokenType::Slash => Some(Operation::Div),
            TokenType::Remainder => Some(Operation::Rem),
            TokenType::EqualEqual => Some(Operation::Eq),
            TokenType::Greater => Some(Operation::Gt),
            TokenType::GreaterEqual => Some(Operation::Gte),
            TokenType::Less => Some(Operation::Lt),
            TokenType::LessEqual => Some(Operation::Lte),
            _ => None,
        }
    }

    /// The assignment operator a token marks, where it marks one.
    pub fn to_assign_op(&self) -> (r: Option<AssignOp>)
        ensures
            r == spec_to_assign_op(*self),
    {
        match self {
            TokenType::Equal => Some(AssignOp::Eq),
            TokenType::PlusEqual => Some(AssignOp::AddEq),
            _ => None,
        }
    }
}

impl TokenType {
    /// The token as diagnostics spell it: the kind's name, with the payload
    /// for identifiers, numbers and booleans.
    pub fn describe(&self) -> (r: String)
        ensures
            r@ == self.spec_describe(),
    {
        match self {
            TokenType::LeftParen => String::from_str("LeftParen"),
            TokenType::RightParen => String::from_str("RightParen"),
            TokenType::LeftBrace => String::from_str("LeftBrace"),
            TokenType::RightBrace => String::from_str("RightBrace"),
            TokenType::LeftCurly => String::from_str("LeftCurly"),
            TokenType::RightCurly => String::from_str("RightCurly"),
            TokenType::Pipe => String::from_str("Pipe"),
            TokenType::Plus => String::from_str("Plus"),
            TokenType::PlusEqual => String::from_str("PlusEqual"),
            TokenType::Minus => String::from_str("Minus"),
            TokenType::MinusEqual => String::from_str("MinusEqual"),
            TokenType::Star => String::from_str("Star"),
            TokenType::StarEqual => String::from_str("StarEqual"),
            TokenType::Slash => String::from_str("Slash"),
            TokenType::SlashEqual => String::from_str("SlashEqual"),
            TokenType::Remainder => String::from_str("Remainder"),
            TokenType::Equal => String::from_str("Equal"),
            TokenType::EqualEqual => String::from_str("EqualEqual"),
            TokenType::Bang => String::from_str("Bang"),
            TokenType::BangEqual => String::from_str("BangEqual"),
            TokenType::Greater => String::from_str("Greater"),
            TokenType::GreaterEqual => String::from_str("GreaterEqual"),
            TokenType::Less => String::from_str("Less"),
            TokenType::LessEqual => String::from_str("LessEqual"),
            TokenType::Colon => String::from_str("Colon"),
            TokenType::Semicolon => String::from_str("Semicolon"),
            TokenType::Dot => String::from_str("Dot"),
            TokenType::Spread => String::from_str("Spread"),
            TokenType::Comma => String::from_str("Comma"),
            TokenType::Fn => String::from_str("Fn"),
            TokenType::Let => String::from_str("Let"),
            TokenType::Mut => String::from_str("Mut"),
            TokenType::For => String::from_str("For"),
            TokenType::In => String::from_str("In"),
            TokenType::If => String::from_str("If"),
            TokenType::Else => String::from_str("Else"),
            TokenType::Match => String::from_str("Match"),
            TokenType::Identifier(s) => {
                let mut out = String::from_str("Identifier `");
                out.append(s.as_str());
                out.append("`");
                out
            },
            TokenType::StringLit(_) => String::from_str("StringLit"),
            TokenType::Number(n) => {
                let mut out = String::from_str("Number ");
                let digits = fmt_i64(*n);
                out.append(digits.as_str());
                out
            },
            TokenType::Bool(b) => {
                if *b {
                    String::from_str("Bool true")
                } else {
                    String::from_str("Bool false")
                }
            },
            TokenType::Eof => String::from_str("Eof"),
        }
    }

    /// What `describe` spells for each token kind.
    pub open spec fn spec_describe(&self) -> Seq<char> {
        match *self {
            TokenType::LeftParen => "LeftParen"@,
            TokenType::RightParen => "RightParen"@,
            TokenType::LeftBrace => "LeftBrace"@,
            TokenType::RightBrace => "RightBrace"@,
            TokenType::LeftCurly => "LeftCurly"@,
            TokenType::RightCurly => "RightCurly"@,
            TokenType::Pipe => "Pipe"@,
            TokenType::Plus => "Plus"@,
            TokenType::PlusEqual => "PlusEqual"@,
            TokenType::Minus => "Minus"@,
            TokenType::MinusEqual => "MinusEqual"@,
            TokenType::Star => "Star"@,
            TokenType::StarEqual => "StarEqual"@,
            TokenType::Slash => "Slash"@,
            TokenType::SlashEqual => "SlashEqual"@,
            TokenType::Remainder => "Remainder"@,
            TokenType::Equal => "Equal"@,
            TokenType::EqualEqual => "EqualEqual"@,
            TokenType::Bang => "Bang"@,
            TokenType::BangEqual => "BangEqual"@,
            TokenType::Greater => "Greater"@,
            TokenType::GreaterEqual => "GreaterEqual"@,
            TokenType::Less => "Less"@,
            TokenType::LessEqual => "LessEqual"@,
            TokenType::Colon => "Colon"@,
            TokenType::Semicolon => "Semicolon"@,
            TokenType::Dot => "Dot"@,
            TokenType::Spread => "Spread"@,
            TokenType::Comma => "Comma"@,
            TokenType::Fn => "Fn"@,
            TokenType::Let => "Let"@,
            TokenType::Mut => "Mut"@,
            TokenType::For => "For"@,
            TokenType::In => "In"@,
            TokenType::If => "If"@,
            TokenType::Else => "Else"@,
            TokenType::Match => "Match"@,
            TokenType::Identifier(s) => "Identifier `"@ + s@ + "`"@,
            TokenType::StringLit(_) => "StringLit"@,
            TokenType::Number(n) => "Number "@ + int_str(n as int),
            TokenType::Bool(b) => if b {
                "Bool true"@
            } else {
                "Bool false"@
            },
            TokenType::Eof => "Eof"@,
        }
    }
}

/// What `to_data` reads out of each token kind.
pub open spec fn spec_to_data(t: TokenType) -> Option<Data> {
    match t {
        TokenType::StringLit(s) => Some(Data::String(s)),
        TokenType::Number(n) => Some(Data::Number(n)),
        TokenType::Bool(b) => Some(Data::Bool(b)),
        _ => None,
    }
}

/// What `to_operation` reads out of each token kind.
pub open spec fn spec_to_operation(t: TokenType) -> Option<Operation> {
    match t {
        TokenType::Plus => Some(Operation::Add),
        TokenType::Minus => Some(Operation::Sub),
        TokenType::Star => Some(Operation::Mul),
        TokenType::Slash => Some(Operation::Div),
        TokenType::Remainder => Some(Operation::Rem),
        TokenType::EqualEqual => Some(Operation::Eq),
        TokenType::Greater => Some(Operation::Gt),
        TokenType::GreaterEqual => Some(Operation::Gte),
        TokenType::Less => Some(Operation::Lt),
        TokenType::LessEqual => Some(Operation::Lte),
        _ => None,
    }
}

/// What `to_assign_op` reads out of each token kind.
pub open spec fn spec_to_assign_op(t: TokenType) -> Option<AssignOp> {
    match t {
        TokenType::Equal => Some(AssignOp::Eq),
        TokenType::PlusEqual => Some(AssignOp::AddEq),
        _ => None,
    }
}

} // verus!
