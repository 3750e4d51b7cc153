//! Structured parse errors. Every failure carries its kind and the source
//! position it was raised at; rendering a diagnostic is a pure computation
//! here, and aborting on one is the caller's business.

use vstd::prelude::*;
use vstd::string::StringExecFns;
use crate::operations::Operation;
use crate::tokenizer::token::{Token, TokenPos};

verus! {

/// A parse error: what went wrong, and where.
#[derive(Debug)]
pub struct ParseErr {
    pub err_kind: ParseErrKind,
    pub token_pos: TokenPos,
}

/// The kinds of error the tokenizer, the parser and the type-checking pass
/// raise. Each carries what a diagnostic needs: the offending character or
/// token, the unknown name, or the operator and the two type names that do
/// not fit it.
#[derive(Debug, PartialEq)]
pub enum ParseErrKind {
    UnexpectedChar(char),
    UnexpectedToken(String, String),
    UnknownField(String),
    IncompatibleOperands(Operation, String, String),
    UnmatchedDelimiter(char),
    InvalidPathUse(String),
    NotCallable,
    ConditionNotBool(String),
    ParseBudgetExhausted,
}

/// The decimal digits of a natural number, most significant first.
pub open spec fn dec_digits(n: nat) -> Seq<char>
    decreases n,
{
    if n < 10 {
        seq![digit_char(n)]
    } else {
        dec_digits(n / 10).push(digit_char(n % 10))
    }
}

/// The character for one decimal digit.
pub open spec fn digit_char(d: nat) -> char {
    if d == 0 {
        '0'
    } else if d == 1 {
        '1'
    } else if d == 2 {
        '2'
    } else if d == 3 {
        '3'
    } else if d == 4 {
        '4'
    } else if d == 5 {
        '5'
    } else if d == 6 {
        '6'
    } else if d == 7 {
        '7'
    } else if d == 8 {
        '8'
    } else {
        '9'
    }
}

/// The decimal rendering of a signed number: a minus sign where negative.
pub open spec fn int_str(n: int) -> Seq<char> {
    if n < 0 {
        seq!['-'] + dec_digits((-n) as nat)
    } else {
        dec_digits(n as nat)
    }
}

/// Relies on `String::push`: appends exactly one character.
#[verifier::external_body]
pub fn push_char(s: &mut String, c: char)
    ensures
        final(s)@ == old(s)@.push(c),
{
    s.push(c);
}

/// One decimal digit, as a character.
fn digit_of(d: u64) -> (r: char)
    requires
        d < 10,
    ensures
        r == digit_char(d as nat),
{
    if d == 0 {
        '0'
    } else if d == 1 {
        '1'
    } else if d == 2 {
        '2'
    } else if d == 3 {
        '3'
    } else if d == 4 {
        '4'
    } else if d == 5 {
        '5'
    } else if d == 6 {
        '6'
    } else if d == 7 {
        '7'
    } else if d == 8 {
        '8'
    } else {
        '9'
    }
}

/// The decimal rendering of an unsigned 64-bit number.
pub fn fmt_u64(n: u64) -> (r: String)
    ensures
        r@ == dec_digits(n as nat),
    decreases n,
{
    if n < 10 {
        let mut s = String::new();
        push_char(&mut s, digit_of(n));
        proof {
            assert(s@ =~= dec_digits(n as nat));
        }
        s
    } else {
        let mut s = fmt_u64(n / 10);
        push_char(&mut s, digit_of(n % 10));
        s
    }
}

/// The decimal rendering of a signed 64-bit number.
pub fn fmt_i64(n: i64) -> (r: String)
    ensures
        r@ == int_str(n as int),
{
    if n >= 0 {
        fmt_u64(n as u64)
    } else {
        let magnitude: u64 = (-(n as i128)) as u64;
        let mut s = String::from_str("-");
        let digits = fmt_u64(magnitude);
        s.append(digits.as_str());
        proof {
            reveal_strlit("-");
            assert(s@ =~= int_str(n as int));
        }
        s
    }
}

/// A position incremented for display, stuck at the top of the range rather
/// than wrapping.
pub open spec fn sat_inc(n: usize) -> nat {
    if n == usize::MAX {
        n as nat
    } else {
        (n + 1) as nat
    }
}

impl TokenPos {
    /// The position as `line:column`, both displayed one-based.
    pub fn render(&self) -> (r: String)
        ensures
            r@ == dec_digits(sat_inc(self.line_i)) + seq![':'] + dec_digits(
                sat_inc(self.col_i),
            ),
    {
        let line: u64 = if self.line_i == usize::MAX {
            self.line_i as u64
        } else {
            (self.line_i + 1) as u64
        };
        let col: u64 = if self.col_i == usize::MAX {
            self.col_i as u64
        } else {
            (self.col_i + 1) as u64
        };
        let mut s = fmt_u64(line);
        push_char(&mut s, ':');
        let cs = fmt_u64(col);
        s.append(cs.as_str());
        proof {
            assert(s@ =~= dec_digits(sat_inc(self.line_i)) + seq![':'] + dec_digits(
                sat_inc(self.col_i),
            ));
        }
        s
    }
}

/// The name of an operator, as diagnostics spell it.
pub open spec fn op_name(op: Operation) -> Seq<char> {
    match op {
        Operation::Mul => "Mul"@,
        Operation::Div => "Div"@,
        Operation::Rem => "Rem"@,
        Operation::Add => "Add"@,
        Operation::Sub => "Sub"@,
        Operation::Eq => "Eq"@,
        Operation::Gt => "Gt"@,
        Operation::Gte => "Gte"@,
        Operation::Lt => "Lt"@,
        Operation::Lte => "Lte"@,
    }
}

impl Operation {
    /// The operator's name, as diagnostics spell it.
    pub fn name(&self) -> (r: String)
        ensures
            r@ == op_name(*self),
    {
        match self {
            Operation::Mul => String::from_str("Mul"),
            Operation::Div => String::from_str("Div"),
            Operation::Rem => String::from_str("Rem"),
            Operation::Add => String::from_str("Add"),
            Operation::Sub => String::from_str("Sub"),
            Operation::Eq => String::from_str("Eq"),
            Operation::Gt => String::from_str("Gt"),
            Operation::Gte => String::from_str("Gte"),
            Operation::Lt => String::from_str("Lt"),
            Operation::Lte => String::from_str("Lte"),
        }
    }
}

/// The human-readable message of each error kind.
pub open spec fn spec_err_msg(kind: ParseErrKind) -> Seq<char> {
    match kind {
        ParseErrKind::UnexpectedChar(c) => "unexpected character `"@ + seq![c] + "`"@,
        ParseErrKind::UnexpectedToken(got, expected) => "expected "@ + expected@ + ", got "@
            + got@,
        ParseErrKind::UnknownField(field) => "unknown field `"@ + field@ + "`"@,
        ParseErrKind::IncompatibleOperands(op, l, r) => "incompatible "@ + op_name(op)
            + " on `"@ + l@ + "` and `"@ + r@ + "`"@,
        ParseErrKind::UnmatchedDelimiter(c) => "unmatched delimiter `"@ + seq![c] + "`"@,
        ParseErrKind::InvalidPathUse(what) => "cannot use "@ + what@ + " as a path"@,
        ParseErrKind::NotCallable => "expression is not callable"@,
        ParseErrKind::ConditionNotBool(t) => "if condition must be Bool, found `"@ + t@ + "`"@,
        ParseErrKind::ParseBudgetExhausted => "parsing budget exhausted"@,
    }
}

impl ParseErrKind {
    /// The human-readable message for this error kind.
    pub fn err_msg(&self) -> (r: String)
        ensures
            r@ == spec_err_msg(*self),
    {
        match self {
            ParseErrKind::UnexpectedChar(c) => {
                let mut s = String::from_str("unexpected character `");
                push_char(&mut s, *c);
                s.append("`");
                proof {
                    assert(s@ =~= spec_err_msg(*self));
                }
                s
            },
            ParseErrKind::UnexpectedToken(got, expected) => {
                let mut s = String::from_str("expected ");
                s.append(expected.as_str());
                s.append(", got ");
                s.append(got.as_str());
                s
            },
            ParseErrKind::UnknownField(field) => {
                let mut s = String::from_str("unknown field `");
                s.append(field.as_str());
                s.append("`");
                s
            },
            ParseErrKind::IncompatibleOperands(op, l, r) => {
                let mut s = String::from_str("incompatible ");
                let name = op.name();
                s.append(name.as_str());
                s.append(" on `");
                s.append(l.as_str());
                s.append("` and `");
                s.append(r.as_str());
                s.append("`");
                s
            },
            ParseErrKind::UnmatchedDelimiter(c) => {
                let mut s = String::from_str("unmatched delimiter `");
                push_char(&mut s, *c);
                s.append("`");
                proof {
                    assert(s@ =~= spec_err_msg(*self));
                }
                s
            },
            ParseErrKind::InvalidPathUse(what) => {
                let mut s = String::from_str("cannot use ");
                s.append(what.as_str());
                s.append(" as a path");
                s
            },
            ParseErrKind::NotCallable => String::from_str("expression is not callable"),
            ParseErrKind::ConditionNotBool(t) => {
                let mut s = String::from_str("if condition must be Bool, found `");
                s.append(t.as_str());
                s.append("`");
                s
            },
            ParseErrKind::ParseBudgetExhausted => String::from_str("parsing budget exhausted"),
        }
    }

    /// Wraps this kind with the position it was raised at.
    pub fn to_err(self, token_pos: TokenPos) -> (r: ParseErr)
        ensures
            r.err_kind == self,
            r.token_pos == token_pos,
    {
        ParseErr { err_kind: self, token_pos }
    }

    /// Wraps this kind with the position of the token it was raised at.
    pub fn from_token(self, token: &Token) -> (r: ParseErr)
        ensures
            r.err_kind == self,
            r.token_pos == token.token_pos,
    {
        ParseErr { err_kind: self, token_pos: token.token_pos.clone() }
    }
}

/// The full diagnostic of an error: source name, message, and one-based
/// `line:column` position.
pub open spec fn spec_report(e: ParseErr) -> Seq<char> {
    e.token_pos.filename@ + ": "@ + spec_err_msg(e.err_kind) + " ("@ + dec_digits(
        sat_inc(e.token_pos.line_i),
    ) + seq![':'] + dec_digits(sat_inc(e.token_pos.col_i)) + ")"@
}

impl ParseErr {
    /// The diagnostic this error prints before the program aborts: source
    /// name, message, and position.
    pub fn report(&self) -> (r: String)
        ensures
            r@ == spec_report(*self),
            r@.len() > 0,
    {
        proof {
            reveal_strlit(": ");
        }
        let mut s = self.token_pos.filename.clone();
        s.append(": ");
        let msg = self.err_kind.err_msg();
        s.append(msg.as_str());
        s.append(" (");
        let pos = self.token_pos.render();
        s.append(pos.as_str());
        s.append(")");
        proof {
            assert(s@ =~= spec_report(*self));
        }
        s
    }
}

/// Attaches a token's position to a bare error kind, leaving successes
/// untouched.
pub fn map_err_token<T>(res: Result<T, ParseErrKind>, token: &Token) -> (r: Result<T, ParseErr>)
    ensures
        match r {
            Ok(v) => res matches Ok(w) && v == w,
            Err(e) => res matches Err(k) && e.err_kind == k && e.token_pos == token.token_pos,
        },
{
    match res {
        Ok(v) => Ok(v),
        Err(err_kind) => Err(err_kind.from_token(token)),
    }
}

} // verus!
