//! Error paths and the diagnostics they render.

use oxid::builtin::BuiltinFn;
use oxid::data::Data;
use oxid::errors::{ParseErr, ParseErrKind};
use oxid::interpreter::{execute_source, Interpreter};
use oxid::memory::Memory;
use oxid::tokenizer::token::TokenPos;
use oxid::types::Type;

fn run_for_err(src: &str) -> String {
    let mut sim: Memory<Type> = Memory::new();
    BuiltinFn::populate_sim_memory(&mut sim);
    let mut mem: Memory<Data> = Memory::new();
    BuiltinFn::populate_memory(&mut mem);
    let mut interp = Interpreter::new(mem, 1_000_000);
    let filename = String::from("main");
    match execute_source(&filename, src, &mut sim, &mut interp, 1_000_000) {
        Ok(()) => panic!("program unexpectedly succeeded"),
        Err(e) => e,
    }
}

#[test]
fn unexpected_character_reported() {
    let e = run_for_err("let x = @;");
    assert!(e.contains("unexpected character `@`"));
}

#[test]
fn unmatched_string_delimiter_reported() {
    let e = run_for_err("print(\"abc);");
    assert!(e.contains("unmatched delimiter"));
}

#[test]
fn incompatible_operands_reported() {
    let e = run_for_err("print(1 + \"a\");");
    assert!(e.contains("incompatible Add"));
    assert!(e.contains("Number"));
    assert!(e.contains("String"));
}

#[test]
fn value_not_callable_reported() {
    let e = run_for_err("let x = 1; x(2);");
    assert!(e.contains("not callable"));
}

#[test]
fn assignment_to_non_path_reported() {
    let e = run_for_err("1 = 2;");
    assert!(e.contains("as a path"));
}

#[test]
fn non_boolean_condition_reported() {
    let e = run_for_err("if 1 { print(1); }");
    assert!(e.contains("must be Bool"));
}

#[test]
fn missing_semicolon_reported() {
    let e = run_for_err("let x = 1");
    assert!(e.contains("Semicolon"));
}

#[test]
fn oversized_number_literal_reported() {
    let e = run_for_err("print(9223372036854775808);");
    assert!(e.contains("too large"));
}

#[test]
fn report_carries_source_name_message_and_position() {
    let err: ParseErr = ParseErrKind::UnknownField(String::from("y")).to_err(
        TokenPos::new(0, 4, String::from("main")),
    );
    assert_eq!(err.report(), String::from("main: unknown field `y` (1:5)"));
}

#[test]
fn diagnostic_position_is_one_based() {
    let e = run_for_err("\n\n  y;");
    assert!(e.contains("(3:3)"));
}

#[test]
fn parsing_budget_exhaustion_is_reported() {
    let mut sim: Memory<Type> = Memory::new();
    BuiltinFn::populate_sim_memory(&mut sim);
    let mut mem: Memory<Data> = Memory::new();
    BuiltinFn::populate_memory(&mut mem);
    let mut interp = Interpreter::new(mem, 1_000);
    let filename = String::from("main");
    match execute_source(&filename, "let x = 1 + 2 + 3;", &mut sim, &mut interp, 2) {
        Ok(()) => panic!("program unexpectedly succeeded"),
        Err(e) => assert!(e.contains("budget")),
    }
}

#[test]
fn rebinding_drifts_past_the_type_table() {
    // Plain assignment may rebind to a new type without the type-level
    // table hearing of it; the evaluator then hits the operand check the
    // parse-time pass thought it had cleared. The defense-in-depth abort
    // fires instead of anything worse.
    let e = run_for_err("let mut x = 1; x = \"s\"; print(x + 1);");
    assert!(e.contains("operands do not fit"));
}

#[test]
fn unprintable_value_faults_at_run_time() {
    let e = run_for_err("print(true);");
    assert!(e.contains("cannot be printed"));
}

#[test]
fn print_without_argument_faults_at_run_time() {
    let e = run_for_err("print();");
    assert!(e.contains("missing its argument"));
}

#[test]
fn surplus_arguments_fault_at_run_time() {
    let e = run_for_err("fn f(a: Number) { a } f(1, 2);");
    assert!(e.contains("more arguments than parameters"));
}
