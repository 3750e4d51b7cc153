//! A small interpreted scripting language: a tokenizer, a recursive-descent
//! parser with an integrated static type-checking pass, and a tree-walking
//! evaluator.
//!
//! The parser drives a type-level symbol table while it builds the statement
//! tree, so type errors surface before anything runs; the evaluator then walks
//! the same tree against a value-level symbol table with the same scope
//! discipline.

use vstd::prelude::*;
use vstd::string::StringExecFns;

pub mod builtin;
pub mod data;
pub mod errors;
pub mod expressions;
pub mod interpreter;
pub mod memory;
pub mod operations;
pub mod parser;
pub mod statements;
pub mod tokenizer;
pub mod types;

verus! {

/// What the command line selects: the program to run and, optionally, a
/// prelude file to execute first in the same symbol tables.
pub struct Config {
    pub source_file: String,
    pub std_file: Option<String>,
}

/// The settled meaning of an argument list from position `i` on (position
/// zero holds the program name): `--std <file>` picks a prelude, the first
/// other argument is the source file, and a list that never names a source
/// file means nothing runs.
pub open spec fn spec_config(args: Seq<String>, i: int, std_file: Option<String>) -> Option<(
    String,
    Option<String>,
)>
    decreases args.len() - i,
{
    if i >= args.len() {
        None
    } else if args[i]@ == "--std"@ {
        if i + 1 >= args.len() {
            None
        } else {
            spec_config(args, i + 2, Some(args[i + 1]))
        }
    } else {
        Some((args[i], std_file))
    }
}

impl Config {
    /// Reads the configuration out of the argument list, whose first entry is
    /// the program name. Returns `None` where no source file is named or
    /// `--std` is the last argument.
    pub fn new(args: &Vec<String>) -> (r: Option<Config>)
        ensures
            match r {
                Some(c) => {
                    &&& spec_config(args@, 1, None) matches Some(p)
                    &&& p.0 == c.source_file
                    &&& p.1 == c.std_file
                },
                None => spec_config(args@, 1, None) is None,
            },
    {
        let std_flag: String = String::from_str("--std");
        let mut std_file: Option<String> = None;
        let mut i: usize = 1;
        loop
            invariant
                1 <= i,
                std_flag@ == "--std"@,
                spec_config(args@, 1, None) == spec_config(args@, i as int, std_file),
            decreases args@.len() + 2 - i,
        {
            if i >= args.len() {
                return None;
            }
            if args[i] == std_flag {
                if i + 1 >= args.len() {
                    return None;
                }
                std_file = Some(args[i + 1].clone());
                i = i + 2;
            } else {
                return Some(
                    Config { source_file: args[i].clone(), std_file },
                );
            }
        }
    }
}

} // verus!
