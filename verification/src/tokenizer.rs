//! The tokenizer: turns source text into exactly the token stream the
//! lexical grammar derives, ending in the end-of-input mark, with line and
//! column positions tracked.

use vstd::prelude::*;
use vstd::string::StrSliceExecFns;
use crate::errors::ParseErr;

pub mod next_token;
pub mod token;
pub mod token_type;

use next_token::spec_tokenize_from;
use token::{Token, TokenPos};
use token_type::TokenType;

verus! {

/// Tokenizes a source text: skips whitespace, scans token after token, and
/// closes the stream with the end-of-input token. A successful stream is
/// exactly what the lexical grammar derives from the characters — same
/// kinds, same payloads, same zero-based line and column positions, every
/// token stamped with the given source name — and lexically invalid text
/// (a character no token starts with, an unclosed string, an oversized
/// number) fails with the scanner's error instead.
pub fn tokenize(filename: &String, buf: &str) -> (r: Result<Vec<Token>, ParseErr>)
    ensures
        r matches Ok(tokens) ==> tokens@.len() >= 1 && tokens@.last().token is Eof
            && (forall|k: int| 0 <= k < tokens@.len() - 1 ==> !(#[trigger] tokens@[k].token
            is Eof)),
        buf@.len() == 0 ==> (r matches Ok(tokens) && tokens@.len() == 1 && tokens@[0].token
            is Eof),
        match r {
            Ok(tokens) => {
                &&& spec_tokenize_from(buf@, 0, 0, 0) matches Some(tvs)
                &&& tokens@.len() == tvs.len()
                &&& forall|k: int|
                    0 <= k < tokens@.len() ==> {
                        &&& (#[trigger] tokens@[k]).token@ == tvs[k].0
                        &&& tokens@[k].token_pos.line_i as int == tvs[k].1
                        &&& tokens@[k].token_pos.col_i as int == tvs[k].2
                        &&& tokens@[k].token_pos.filename@ == filename@
                    }
            },
            Err(_) => spec_tokenize_from(buf@, 0, 0, 0) is None,
        },
{
    let n = buf.unicode_len();
    let mut chars: Vec<char> = Vec::new();
    let mut ci: usize = 0;
    while ci < n
        invariant
            ci <= n,
            n == buf@.len(),
            chars@ == buf@.subrange(0, ci as int),
        decreases n - ci,
    {
        chars.push(buf.get_char(ci));
        proof {
            assert(chars@ =~= buf@.subrange(0, ci + 1));
        }
        ci = ci + 1;
    }
    proof {
        assert(chars@ =~= buf@);
    }

    let mut tokens: Vec<Token> = Vec::new();
    let mut i: usize = 0;
    let mut line_i: usize = 0;
    let mut col_i: usize = 0;
    while i < chars.len()
        invariant
            i <= chars@.len(),
            line_i <= i,
            col_i <= i,
            chars@ == buf@,
            forall|k: int| 0 <= k < tokens@.len() ==> !(#[trigger] tokens@[k].token is Eof),
            forall|k: int|
                0 <= k < tokens@.len() ==> (#[trigger] tokens@[k]).token_pos.filename@
                    == filename@,
            buf@.len() == 0 ==> tokens@.len() == 0,
            match spec_tokenize_from(chars@, i as int, line_i as int, col_i as int) {
                Some(rest) => {
                    &&& spec_tokenize_from(chars@, 0, 0, 0) matches Some(full)
                    &&& full.len() == tokens@.len() + rest.len()
                    &&& (forall|k: int|
                        0 <= k < tokens@.len() ==> {
                            &&& #[trigger] full[k].0 == tokens@[k].token@
                            &&& full[k].1 == tokens@[k].token_pos.line_i as int
                            &&& full[k].2 == tokens@[k].token_pos.col_i as int
                        })
                    &&& (forall|k: int|
                        0 <= k < rest.len() ==> full[tokens@.len() + k] == #[trigger] rest[k])
                },
                None => spec_tokenize_from(chars@, 0, 0, 0) is None,
            },
        decreases chars@.len() - i,
    {
        let c = chars[i];
        if c == ' ' || c == '\t' || c == '\r' {
            i = i + 1;
            col_i = col_i + 1;
        } else if c == '\n' {
            i = i + 1;
            line_i = line_i + 1;
            col_i = 0;
        } else {
            let pos = TokenPos::new(line_i, col_i, filename.clone());
            let (consumed, token) = match Token::next_token(pos, &chars, i) {
                Ok(p) => p,
                Err(e) => {
                    return Err(e);
                },
            };
            let ghost done_before = tokens@;
            let ghost cur_sv = spec_tokenize_from(
                chars@,
                i as int,
                line_i as int,
                col_i as int,
            );
            let ghost next_sv = spec_tokenize_from(
                chars@,
                i + consumed,
                line_i as int,
                col_i + consumed,
            );
            tokens.push(token);
            proof {
                let cur = (token.token@, line_i as int, col_i as int);
                match next_sv {
                    Some(rest2) => {
                        assert(cur_sv == Some(seq![cur] + rest2));
                        let rest = cur_sv->0;
                        let full = spec_tokenize_from(chars@, 0, 0, 0)->0;
                        assert(rest[0] == cur);
                        assert(full[done_before.len() + 0int] == rest[0]);
                        assert(full[done_before.len() as int] == cur);
                        assert forall|k: int| 0 <= k < rest2.len() implies #[trigger] full[tokens@.len()
                            + k] == rest2[k] by {
                            assert(full[done_before.len() + (k + 1)] == rest[k + 1]);
                            assert(rest[k + 1] == rest2[k]);
                        }
                    },
                    None => {
                        assert(cur_sv is None);
                    },
                }
            }
            i = i + consumed;
            col_i = col_i + consumed;
        }
    }
    let ghost done_before = tokens@;
    tokens.push(
        Token::new(TokenPos::new(line_i, 0, filename.clone()), TokenType::Eof),
    );
    proof {
        let tail = spec_tokenize_from(chars@, i as int, line_i as int, col_i as int);
        assert(tail == Some(seq![(token_type::TokenV::Eof, line_i as int, 0int)]));
        let rest = tail->0;
        assert(rest[0] == (token_type::TokenV::Eof, line_i as int, 0int));
        let full = spec_tokenize_from(chars@, 0, 0, 0)->0;
        assert(full[done_before.len() + 0int] == rest[0]);
        assert(full[done_before.len() as int] == (
            token_type::TokenV::Eof,
            line_i as int,
            0int,
        ));
        assert(tokens@.last().token@ == token_type::TokenV::Eof);
    }
    Ok(tokens)
}

} // verus!
