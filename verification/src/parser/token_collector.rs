//! The cursor over the token stream: one token forward at a time, with
//! one-token push-back for look-ahead discard.

use vstd::prelude::*;
use crate::tokenizer::token::Token;

verus! {

/// A cursor over a token sequence: the tokens, and how many of them have
/// been consumed.
pub struct TokenCollector {
    tokens: Vec<Token>,
    pos: usize,
}

impl TokenCollector {
    /// The tokens the cursor walks. They never change under it.
    pub closed spec fn spec_tokens(&self) -> Seq<Token> {
        self.tokens@
    }

    /// How many tokens have been consumed.
    pub closed spec fn spec_pos(&self) -> nat {
        self.pos as nat
    }

    /// A cursor at the start of a stream, before the first token.
    pub fn new(tokens: Vec<Token>) -> (r: TokenCollector)
        ensures
            r.spec_tokens() == tokens@,
            r.spec_pos() == 0,
    {
        TokenCollector { tokens, pos: 0 }
    }

    /// Consumes and returns the next token; `None` once the stream is
    /// exhausted (the grammar should have stopped at the end-of-input token
    /// before that).
    pub fn next(&mut self) -> (r: Option<Token>)
        ensures
            final(self).spec_tokens() == old(self).spec_tokens(),
            old(self).spec_pos() < old(self).spec_tokens().len() ==> {
                &&& final(self).spec_pos() == old(self).spec_pos() + 1
                &&& r == Some(old(self).spec_tokens()[old(self).spec_pos() as int])
            },
            old(self).spec_pos() >= old(self).spec_tokens().len() ==> {
                &&& final(self).spec_pos() == old(self).spec_pos()
                &&& r is None
            },
    {
        if self.pos < self.tokens.len() {
            let t = self.tokens[self.pos].clone();
            self.pos = self.pos + 1;
            Some(t)
        } else {
            None
        }
    }

    /// Steps back one token, undoing the most recent `next`; at the start
    /// it does nothing.
    pub fn back(&mut self)
        ensures
            final(self).spec_tokens() == old(self).spec_tokens(),
            old(self).spec_pos() > 0 ==> final(self).spec_pos() == old(self).spec_pos() - 1,
            old(self).spec_pos() == 0 ==> final(self).spec_pos() == 0,
    {
        if self.pos > 0 {
            self.pos = self.pos - 1;
        }
    }

    /// The token most recently consumed, for error messages; `None` before
    /// the first `next`.
    pub fn current(&self) -> (r: Option<Token>)
        ensures
            match r {
                Some(t) => {
                    &&& self.spec_pos() > 0
                    &&& self.spec_pos() <= self.spec_tokens().len()
                    &&& t == self.spec_tokens()[self.spec_pos() - 1]
                },
                None => self.spec_pos() == 0 || self.spec_pos() > self.spec_tokens().len(),
            },
    {
        if self.pos > 0 && self.pos <= self.tokens.len() {
            Some(self.tokens[self.pos - 1].clone())
        } else {
            None
        }
    }
}

} // verus!
