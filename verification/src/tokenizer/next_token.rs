//! Scanning one token off the character stream, against the lexical
//! grammar stated here as spec functions: what `next_token_type` returns is
//! exactly what `spec_next_token` derives from the characters.

use vstd::prelude::*;
use vstd::string::StringExecFns;
use crate::errors::{push_char, ParseErr, ParseErrKind};
use crate::tokenizer::token::{Token, TokenPos};
use crate::tokenizer::token_type::{TokenType, TokenV};

verus! {

/// Whether a character is an ASCII decimal digit.
pub open spec fn spec_is_digit(c: char) -> bool {
    '0' <= c && c <= '9'
}

/// The numeric value of an ASCII decimal digit.
pub open spec fn digit_val(c: char) -> nat {
    (c as nat - '0' as nat) as nat
}

/// The value of a run of decimal digits, most significant first.
pub open spec fn digits_val(s: Seq<char>) -> nat
    decreases s.len(),
{
    if s.len() == 0 {
        0
    } else {
        digits_val(s.drop_last()) * 10 + digit_val(s.last())
    }
}

/// Whether a character may continue an identifier: an ASCII letter, an
/// underscore, or a dollar sign.
pub open spec fn spec_is_ident_char(c: char) -> bool {
    ('a' <= c && c <= 'z') || ('A' <= c && c <= 'Z') || c == '_' || c == '$'
}

/// Where a string literal opened before `j` ends: the first position at or
/// after `j` holding its closing quote, a line break (which a literal may
/// not cross), or the end of the input.
pub open spec fn string_stop(chars: Seq<char>, j: int) -> int
    decreases chars.len() - j,
{
    if j < 0 || j >= chars.len() {
        j
    } else if chars[j] == '"' || chars[j] == '\n' {
        j
    } else {
        string_stop(chars, j + 1)
    }
}

/// Where a digit run starting at `j` ends: the first position at or after
/// `j` holding no digit.
pub open spec fn digits_end(chars: Seq<char>, j: int) -> int
    decreases chars.len() - j,
{
    if j < 0 || j >= chars.len() {
        j
    } else if spec_is_digit(chars[j]) {
        digits_end(chars, j + 1)
    } else {
        j
    }
}

/// Where an identifier run starting at `j` ends: the first position at or
/// after `j` holding no identifier character.
pub open spec fn ident_end(chars: Seq<char>, j: int) -> int
    decreases chars.len() - j,
{
    if j < 0 || j >= chars.len() {
        j
    } else if spec_is_ident_char(chars[j]) {
        ident_end(chars, j + 1)
    } else {
        j
    }
}

/// What an identifier-shaped word denotes: a keyword, a boolean literal, or
/// the identifier itself.
pub open spec fn keyword_or_ident(w: Seq<char>) -> TokenV {
    if w == "fn"@ {
        TokenV::Fn
    } else if w == "let"@ {
        TokenV::Let
    } else if w == "mut"@ {
        TokenV::Mut
    } else if w == "for"@ {
        TokenV::For
    } else if w == "in"@ {
        TokenV::In
    } else if w == "if"@ {
        TokenV::If
    } else if w == "else"@ {
        TokenV::Else
    } else if w == "match"@ {
        TokenV::Match
    } else if w == "true"@ {
        TokenV::Bool(true)
    } else if w == "false"@ {
        TokenV::Bool(false)
    } else {
        TokenV::Identifier(w)
    }
}

/// The lexical grammar, one token at a time: what token starts at `start`,
/// and how many characters it takes. Punctuation and operator marks take
/// one character, or two where `=` (or a second `.`) follows; a quote opens
/// a string running to its closing quote on the same line; a digit opens a
/// decimal number; a letter, underscore or dollar sign opens a keyword,
/// boolean or identifier. `None` marks lexically invalid input: a character
/// no token starts with, an unclosed string, or a number too large for a
/// 64-bit value.
pub open spec fn spec_next_token(chars: Seq<char>, start: int) -> Option<(TokenV, int)> {
    let c = chars[start];
    if c == '(' {
        Some((TokenV::LeftParen, 1))
    } else if c == ')' {
        Some((TokenV::RightParen, 1))
    } else if c == '[' {
        Some((TokenV::LeftBrace, 1))
    } else if c == ']' {
        Some((TokenV::RightBrace, 1))
    } else if c == '{' {
        Some((TokenV::LeftCurly, 1))
    } else if c == '}' {
        Some((TokenV::RightCurly, 1))
    } else if c == '|' {
        Some((TokenV::Pipe, 1))
    } else if c == '%' {
        Some((TokenV::Remainder, 1))
    } else if c == ':' {
        Some((TokenV::Colon, 1))
    } else if c == ';' {
        Some((TokenV::Semicolon, 1))
    } else if c == ',' {
        Some((TokenV::Comma, 1))
    } else if c == '+' {
        if start + 1 < chars.len() && chars[start + 1] == '=' {
            Some((TokenV::PlusEqual, 2))
        } else {
            Some((TokenV::Plus, 1))
        }
    } else if c == '-' {
        if start + 1 < chars.len() && chars[start + 1] == '=' {
            Some((TokenV::MinusEqual, 2))
        } else {
            Some((TokenV::Minus, 1))
        }
    } else if c == '*' {
        if start + 1 < chars.len() && chars[start + 1] == '=' {
            Some((TokenV::StarEqual, 2))
        } else {
            Some((TokenV::Star, 1))
        }
    } else if c == '/' {
        if start + 1 < chars.len() && chars[start + 1] == '=' {
            Some((TokenV::SlashEqual, 2))
        } else {
            Some((TokenV::Slash, 1))
        }
    } else if c == '=' {
        if start + 1 < chars.len() && chars[start + 1] == '=' {
            Some((TokenV::EqualEqual, 2))
        } else {
            Some((TokenV::Equal, 1))
        }
    } else if c == '!' {
        if start + 1 < chars.len() && chars[start + 1] == '=' {
            Some((TokenV::BangEqual, 2))
        } else {
            Some((TokenV::Bang, 1))
        }
    } else if c == '<' {
        if start + 1 < chars.len() && chars[start + 1] == '=' {
            Some((TokenV::LessEqual, 2))
        } else {
            Some((TokenV::Less, 1))
        }
    } else if c == '>' {
        if start + 1 < chars.len() && chars[start + 1] == '=' {
            Some((TokenV::GreaterEqual, 2))
        } else {
            Some((TokenV::Greater, 1))
        }
    } else if c == '.' {
        if start + 1 < chars.len() && chars[start + 1] == '.' {
            Some((TokenV::Spread, 2))
        } else {
            Some((TokenV::Dot, 1))
        }
    } else if c == '"' {
        let j = string_stop(chars, start + 1);
        if j < chars.len() && chars[j] == '"' {
            Some((TokenV::StringLit(chars.subrange(start + 1, j)), j + 1 - start))
        } else {
            None
        }
    } else if spec_is_digit(c) {
        let j = digits_end(chars, start);
        if digits_val(chars.subrange(start, j)) <= i64::MAX {
            Some((TokenV::Number(digits_val(chars.subrange(start, j)) as i64), j - start))
        } else {
            None
        }
    } else if spec_is_ident_char(c) {
        let j = ident_end(chars, start);
        Some((keyword_or_ident(chars.subrange(start, j)), j - start))
    } else {
        None
    }
}

/// The lexical grammar over a whole text, from position `i` on with the
/// given line and column: whitespace separates tokens and produces none, a
/// line break starts the next line at column zero, every other character
/// starts the token the grammar derives there, and the end of the text
/// yields the end-of-input mark at column zero. `None` marks lexically
/// invalid text.
pub open spec fn spec_tokenize_from(chars: Seq<char>, i: int, line: int, col: int) -> Option<
    Seq<(TokenV, int, int)>,
>
    decreases chars.len() - i,
{
    if i < 0 || i >= chars.len() {
        Some(seq![(TokenV::Eof, line, 0)])
    } else if chars[i] == ' ' || chars[i] == '\t' || chars[i] == '\r' {
        spec_tokenize_from(chars, i + 1, line, col + 1)
    } else if chars[i] == '\n' {
        spec_tokenize_from(chars, i + 1, line + 1, 0)
    } else {
        match spec_next_token(chars, i) {
            None => None,
            Some((tv, n)) => if n < 1 || i + n > chars.len() {
                None
            } else {
                match spec_tokenize_from(chars, i + n, line, col + n) {
                    None => None,
                    Some(rest) => Some(seq![(tv, line, col)] + rest),
                }
            },
        }
    }
}

proof fn lemma_string_stop_at(chars: Seq<char>, from: int, j: int)
    requires
        0 <= from <= j <= chars.len(),
        forall|k: int| from <= k < j ==> chars[k] != '"' && chars[k] != '\n',
        j == chars.len() || chars[j] == '"' || chars[j] == '\n',
    ensures
        string_stop(chars, from) == j,
    decreases j - from,
{
    if from < j {
        lemma_string_stop_at(chars, from + 1, j);
    }
}

proof fn lemma_digits_end_bounds(chars: Seq<char>, j: int)
    requires
        0 <= j <= chars.len(),
    ensures
        j <= digits_end(chars, j) <= chars.len(),
    decreases chars.len() - j,
{
    if j < chars.len() && spec_is_digit(chars[j]) {
        lemma_digits_end_bounds(chars, j + 1);
    }
}

proof fn lemma_digits_end_at(chars: Seq<char>, from: int, j: int)
    requires
        0 <= from <= j <= chars.len(),
        forall|k: int| from <= k < j ==> spec_is_digit(chars[k]),
        j == chars.len() || !spec_is_digit(chars[j]),
    ensures
        digits_end(chars, from) == j,
    decreases j - from,
{
    if from < j {
        lemma_digits_end_at(chars, from + 1, j);
    }
}

proof fn lemma_ident_end_at(chars: Seq<char>, from: int, j: int)
    requires
        0 <= from <= j <= chars.len(),
        forall|k: int| from <= k < j ==> spec_is_ident_char(chars[k]),
        j == chars.len() || !spec_is_ident_char(chars[j]),
    ensures
        ident_end(chars, from) == j,
    decreases j - from,
{
    if from < j {
        lemma_ident_end_at(chars, from + 1, j);
    }
}

/// A digit run's value only grows as the run extends.
proof fn lemma_digits_val_prefix(chars: Seq<char>, start: int, a: int, b: int)
    requires
        0 <= start <= a <= b <= chars.len(),
    ensures
        digits_val(chars.subrange(start, a)) <= digits_val(chars.subrange(start, b)),
    decreases b - a,
{
    if a < b {
        lemma_digits_val_prefix(chars, start, a, b - 1);
        let shorter = chars.subrange(start, b - 1);
        let longer = chars.subrange(start, b);
        assert(longer.drop_last() =~= shorter);
        assert(digits_val(longer) == digits_val(shorter) * 10 + digit_val(longer.last()));
        assert(digits_val(shorter) * 10 >= digits_val(shorter));
    }
}

/// Whether a character is an ASCII decimal digit.
fn is_digit_char(c: char) -> (r: bool)
    ensures
        r == spec_is_digit(c),
{
    '0' <= c && c <= '9'
}

/// Whether a character may continue an identifier.
fn is_ident_char(c: char) -> (r: bool)
    ensures
        r == spec_is_ident_char(c),
{
    ('a' <= c && c <= 'z') || ('A' <= c && c <= 'Z') || c == '_' || c == '$'
}

/// The characters of `chars` from `from` up to `to`, as an owned string.
fn collect_chars(chars: &Vec<char>, from: usize, to: usize) -> (r: String)
    requires
        from <= to <= chars@.len(),
    ensures
        r@ == chars@.subrange(from as int, to as int),
{
    let mut s = String::new();
    let mut k: usize = from;
    while k < to
        invariant
            from <= k <= to <= chars@.len(),
            s@ == chars@.subrange(from as int, k as int),
        decreases to - k,
    {
        push_char(&mut s, chars[k]);
        proof {
            assert(s@ =~= chars@.subrange(from as int, k + 1));
        }
        k = k + 1;
    }
    s
}

impl TokenType {
    /// Scans one token beginning at `start` (not whitespace): exactly the
    /// token the lexical grammar derives there, with the count of
    /// characters it takes. Lexically invalid input — a character no token
    /// starts with, an unclosed string, a number too large for 64 bits —
    /// is the matching error at the given position.
    pub fn next_token_type(token_pos: &TokenPos, chars: &Vec<char>, start: usize) -> (r: Result<
        (TokenType, usize),
        ParseErr,
    >)
        requires
            start < chars@.len(),
        ensures
            match r {
                Ok(p) => {
                    &&& spec_next_token(chars@, start as int) == Some((p.0@, p.1 as int))
                    &&& 1 <= p.1
                    &&& start + p.1 <= chars@.len()
                    &&& !(p.0 is Eof)
                },
                Err(e) => {
                    &&& spec_next_token(chars@, start as int) is None
                    &&& e.token_pos == *token_pos
                    &&& match e.err_kind {
                        ParseErrKind::UnmatchedDelimiter(d) => d == '"' && chars@[start as int]
                            == '"',
                        ParseErrKind::UnexpectedChar(c) => c == chars@[start as int],
                        ParseErrKind::UnexpectedToken(_, _) => spec_is_digit(
                            chars@[start as int],
                        ),
                        _ => false,
                    }
                },
            },
    {
        let len = chars.len();
        let c = chars[start];
        let has_second_eq: bool = start + 1 < len && chars[start + 1] == '=';
        match c {
            '(' => Ok((TokenType::LeftParen, 1)),
            ')' => Ok((TokenType::RightParen, 1)),
            '[' => Ok((TokenType::LeftBrace, 1)),
            ']' => Ok((TokenType::RightBrace, 1)),
            '{' => Ok((TokenType::LeftCurly, 1)),
            '}' => Ok((TokenType::RightCurly, 1)),
            '|' => Ok((TokenType::Pipe, 1)),
            '%' => Ok((TokenType::Remainder, 1)),
            ':' => Ok((TokenType::Colon, 1)),
            ';' => Ok((TokenType::Semicolon, 1)),
            ',' => Ok((TokenType::Comma, 1)),
            '+' => if has_second_eq {
                Ok((TokenType::PlusEqual, 2))
            } else {
                Ok((TokenType::Plus, 1))
            },
            '-' => if has_second_eq {
                Ok((TokenType::MinusEqual, 2))
            } else {
                Ok((TokenType::Minus, 1))
            },
            '*' => if has_second_eq {
                Ok((TokenType::StarEqual, 2))
            } else {
                Ok((TokenType::Star, 1))
            },
            '/' => if has_second_eq {
                Ok((TokenType::SlashEqual, 2))
            } else {
                Ok((TokenType::Slash, 1))
            },
            '=' => if has_second_eq {
                Ok((TokenType::EqualEqual, 2))
            } else {
                Ok((TokenType::Equal, 1))
            },
            '!' => if has_second_eq {
                Ok((TokenType::BangEqual, 2))
            } else {
                Ok((TokenType::Bang, 1))
            },
            '<' => if has_second_eq {
                Ok((TokenType::LessEqual, 2))
            } else {
                Ok((TokenType::Less, 1))
            },
            '>' => if has_second_eq {
                Ok((TokenType::GreaterEqual, 2))
            } else {
                Ok((TokenType::Greater, 1))
            },
            '.' => if start + 1 < len && chars[start + 1] == '.' {
                Ok((TokenType::Spread, 2))
            } else {
                Ok((TokenType::Dot, 1))
            },
            '"' => {
                let mut j: usize = start + 1;
                while j < len && chars[j] != '"' && chars[j] != '\n'
                    invariant
                        start + 1 <= j <= chars@.len(),
                        len == chars@.len(),
                        forall|k: int| start + 1 <= k < j ==> chars@[k] != '"' && chars@[k]
                            != '\n',
                    decreases chars@.len() - j,
                {
                    j = j + 1;
                }
                proof {
                    lemma_string_stop_at(chars@, start + 1, j as int);
                }
                if j >= len || chars[j] != '"' {
                    return Err(
                        ParseErrKind::UnmatchedDelimiter('"').to_err(token_pos.clone()),
                    );
                }
                let payload = collect_chars(chars, start + 1, j);
                Ok((TokenType::StringLit(payload), j + 1 - start))
            },
            _ => {
                if is_digit_char(c) {
                    let mut j: usize = start;
                    let mut acc: i64 = 0;
                    while j < len && is_digit_char(chars[j])
                        invariant
                            start <= j <= chars@.len(),
                            len == chars@.len(),
                            0 <= acc,
                            acc as nat == digits_val(
                                chars@.subrange(start as int, j as int),
                            ),
                            forall|k: int| start <= k < j ==> spec_is_digit(chars@[k]),
                        decreases chars@.len() - j,
                    {
                        let d: i64 = (chars[j] as u32 as i64) - ('0' as u32 as i64);
                        if acc > (i64::MAX - d) / 10 {
                            proof {
                                let pre = chars@.subrange(start as int, j + 1);
                                assert(pre.drop_last() =~= chars@.subrange(
                                    start as int,
                                    j as int,
                                ));
                                assert(pre.last() == chars@[j as int]);
                                assert(digits_val(pre) > i64::MAX) by (nonlinear_arith)
                                    requires
                                        digits_val(pre) == digits_val(pre.drop_last()) * 10
                                            + digit_val(pre.last()),
                                        digits_val(pre.drop_last()) == acc as nat,
                                        digit_val(pre.last()) == d as nat,
                                        0 <= acc,
                                        0 <= d <= 9,
                                        acc > (i64::MAX - d) / 10,
                                ;
                                lemma_digits_end_bounds(chars@, j + 1);
                                lemma_digits_end_at_trans(chars@, start as int, j + 1);
                                let e = digits_end(chars@, start as int);
                                assert(j + 1 <= e <= chars@.len());
                                lemma_digits_val_prefix(chars@, start as int, j + 1, e);
                            }
                            return Err(
                                ParseErrKind::UnexpectedToken(
                                    String::from_str("a number too large for 64 bits"),
                                    String::from_str("a smaller number"),
                                ).to_err(token_pos.clone()),
                            );
                        }
                        proof {
                            let pre = chars@.subrange(start as int, j + 1);
                            assert(pre.drop_last() =~= chars@.subrange(
                                start as int,
                                j as int,
                            ));
                            assert(pre.last() == chars@[j as int]);
                            assert(acc * 10 + d <= i64::MAX) by (nonlinear_arith)
                                requires
                                    0 <= acc,
                                    0 <= d <= 9,
                                    acc <= (i64::MAX - d) / 10,
                            ;
                        }
                        acc = acc * 10 + d;
                        j = j + 1;
                    }
                    proof {
                        lemma_digits_end_at(chars@, start as int, j as int);
                    }
                    Ok((TokenType::Number(acc), j - start))
                } else if is_ident_char(c) {
                    let mut j: usize = start;
                    while j < len && is_ident_char(chars[j])
                        invariant
                            start <= j <= chars@.len(),
                            len == chars@.len(),
                            forall|k: int| start <= k < j ==> spec_is_ident_char(chars@[k]),
                        decreases chars@.len() - j,
                    {
                        j = j + 1;
                    }
                    proof {
                        lemma_ident_end_at(chars@, start as int, j as int);
                    }
                    let word = collect_chars(chars, start, j);
                    let consumed = j - start;
                    if word == String::from_str("fn") {
                        Ok((TokenType::Fn, consumed))
                    } else if word == String::from_str("let") {
                        Ok((TokenType::Let, consumed))
                    } else if word == String::from_str("mut") {
                        Ok((TokenType::Mut, consumed))
                    } else if word == String::from_str("for") {
                        Ok((TokenType::For, consumed))
                    } else if word == String::from_str("in") {
                        Ok((TokenType::In, consumed))
                    } else if word == String::from_str("if") {
                        Ok((TokenType::If, consumed))
                    } else if word == String::from_str("else") {
                        Ok((TokenType::Else, consumed))
                    } else if word == String::from_str("match") {
                        Ok((TokenType::Match, consumed))
                    } else if word == String::from_str("true") {
                        Ok((TokenType::Bool(true), consumed))
                    } else if word == String::from_str("false") {
                        Ok((TokenType::Bool(false), consumed))
                    } else {
                        Ok((TokenType::Identifier(word), consumed))
                    }
                } else {
                    Err(ParseErrKind::UnexpectedChar(c).to_err(token_pos.clone()))
                }
            },
        }
    }
}

/// A digit run's end seen from inside the run is the run's end.
proof fn lemma_digits_end_at_trans(chars: Seq<char>, from: int, mid: int)
    requires
        0 <= from <= mid <= chars.len(),
        forall|k: int| from <= k < mid ==> spec_is_digit(chars[k]),
    ensures
        digits_end(chars, from) == digits_end(chars, mid),
    decreases mid - from,
{
    if from < mid {
        lemma_digits_end_at_trans(chars, from + 1, mid);
    }
}

impl Token {
    /// Scans one token beginning at `start`, stamped with its position:
    /// exactly the token the lexical grammar derives there.
    pub fn next_token(token_pos: TokenPos, chars: &Vec<char>, start: usize) -> (r: Result<
        (usize, Token),
        ParseErr,
    >)
        requires
            start < chars@.len(),
        ensures
            match r {
                Ok(p) => {
                    &&& spec_next_token(chars@, start as int) == Some((p.1.token@, p.0 as int))
                    &&& 1 <= p.0
                    &&& start + p.0 <= chars@.len()
                    &&& !(p.1.token is Eof)
                    &&& p.1.token_pos == token_pos
                },
                Err(e) => spec_next_token(chars@, start as int) is None && e.token_pos
                    == token_pos,
            },
    {
        match TokenType::next_token_type(&token_pos, chars, start) {
            Ok((token_type, consumed)) => Ok((consumed, Token::new(token_pos, token_type))),
            Err(e) => Err(e),
        }
    }
}

} // verus!
