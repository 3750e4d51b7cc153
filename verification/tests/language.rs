//! End-to-end programs through the whole pipeline: tokenize, parse with the
//! type-checking pass, evaluate, observe the output.

use oxid::builtin::BuiltinFn;
use oxid::data::Data;
use oxid::interpreter::{execute_source, Interpreter};
use oxid::memory::Memory;
use oxid::types::Type;

fn run_with_fuel(src: &str, eval_fuel: u64) -> (Vec<String>, Result<(), String>) {
    let mut sim: Memory<Type> = Memory::new();
    BuiltinFn::populate_sim_memory(&mut sim);
    let mut mem: Memory<Data> = Memory::new();
    BuiltinFn::populate_memory(&mut mem);
    let mut interp = Interpreter::new(mem, eval_fuel);
    let filename = String::from("main");
    let r = execute_source(&filename, src, &mut sim, &mut interp, 1_000_000);
    (interp.output, r)
}

fn run(src: &str) -> (Vec<String>, Result<(), String>) {
    run_with_fuel(src, 1_000_000)
}

fn run_ok(src: &str) -> Vec<String> {
    let (out, r) = run(src);
    match r {
        Ok(()) => out,
        Err(e) => panic!("program failed: {}", e),
    }
}

fn run_err(src: &str) -> (Vec<String>, String) {
    let (out, r) = run(src);
    match r {
        Ok(()) => panic!("program unexpectedly succeeded"),
        Err(e) => (out, e),
    }
}

#[test]
fn left_associative_strings() {
    let out = run_ok("print(\"a\" + \"b\" + \"c\");");
    assert_eq!(out, vec![String::from("abc")]);
}

#[test]
fn left_associative_numbers() {
    let out = run_ok("print(10 - 3 - 2);");
    assert_eq!(out, vec![String::from("5")]);
}

#[test]
fn self_referential_assignment_snapshots_left_operand() {
    let out = run_ok("let mut x = 1; x = x + (x = 5); print(x);");
    assert_eq!(out, vec![String::from("6")]);
}

#[test]
fn compound_assignment_reads_value_after_its_operand() {
    let out = run_ok("let mut x = 1; x += (x = 5); print(x);");
    assert_eq!(out, vec![String::from("10")]);
}

#[test]
fn for_loop_bounds_exclusive() {
    let out = run_ok("for i in 0..3 { print(i); }");
    assert_eq!(
        out,
        vec![String::from("0"), String::from("1"), String::from("2")],
    );
}

#[test]
fn for_loop_empty_range() {
    let out = run_ok("for i in 3..3 { print(i); }");
    assert_eq!(out, Vec::<String>::new());
}

#[test]
fn unknown_identifier_rejected_at_parse_time() {
    let (out, e) = run_err("y + 1;");
    assert!(out.is_empty());
    assert!(e.contains("unknown field"));
}

#[test]
fn unknown_identifier_after_output_still_stops_before_evaluation() {
    let (out, e) = run_err("print(1); y + 1;");
    assert!(out.is_empty());
    assert!(e.contains("unknown field"));
}

#[test]
fn function_call_binding() {
    let out = run_ok(
        "fn add(a: Number, b: Number) { a + b } let r = add(2, 3); print(r);",
    );
    assert_eq!(out, vec![String::from("5")]);
}

#[test]
fn function_parameters_invisible_after_call() {
    let (_, e) = run_err(
        "fn add(a: Number, b: Number) { a + b } let r = add(2, 3); print(a);",
    );
    assert!(e.contains("unknown field"));
}

#[test]
fn pure_expression_idempotent() {
    let out = run_ok("print(2 + 2); print(2 + 2);");
    assert_eq!(out, vec![String::from("4"), String::from("4")]);
    let again = run_ok("print(2 + 2); print(2 + 2);");
    assert_eq!(out, again);
}

#[test]
fn string_printed_verbatim() {
    let out = run_ok("print(\"hello world\");");
    assert_eq!(out, vec![String::from("hello world")]);
}

#[test]
fn comparison_guards_branch() {
    let out = run_ok("if 3 > 2 { print(\"gt\"); } if 2 > 3 { print(\"lost\"); }");
    assert_eq!(out, vec![String::from("gt")]);
}

#[test]
fn equality_on_strings() {
    let out = run_ok("if \"a\" == \"a\" { print(\"same\"); }");
    assert_eq!(out, vec![String::from("same")]);
}

#[test]
fn division_by_zero_yields_zero() {
    let out = run_ok("print(1 / 0);");
    assert_eq!(out, vec![String::from("0")]);
}

#[test]
fn division_truncates_toward_zero() {
    let out = run_ok("print(7 / 2); print((0 - 7) / 2);");
    assert_eq!(out, vec![String::from("3"), String::from("-3")]);
}

#[test]
fn remainder_follows_dividend_sign() {
    let out = run_ok("print(7 % 3); print((0 - 7) % 3);");
    assert_eq!(out, vec![String::from("1"), String::from("-1")]);
}

#[test]
fn addition_wraps_at_the_64_bit_boundary() {
    let out = run_ok("print(9223372036854775807 + 1);");
    assert_eq!(out, vec![String::from("-9223372036854775808")]);
}

#[test]
fn assignment_writes_the_owning_scope() {
    let out = run_ok("let mut x = 1; if 1 == 1 { x = 2; } print(x);");
    assert_eq!(out, vec![String::from("2")]);
}

#[test]
fn inner_declaration_shadows_then_expires() {
    let out = run_ok(
        "let x = 1; if 1 == 1 { let x = 9; print(x); } print(x);",
    );
    assert_eq!(out, vec![String::from("9"), String::from("1")]);
}

#[test]
fn loop_variable_expires_with_the_loop() {
    let (_, e) = run_err("for i in 0..2 { print(i); } print(i);");
    assert!(e.contains("unknown field"));
}

#[test]
fn function_body_sees_the_callers_chain_beneath_its_frame() {
    let out = run_ok("let g = 7; fn f(a: Number) { a + g } print(f(1));");
    assert_eq!(out, vec![String::from("8")]);
}

#[test]
fn self_recursion_rejected_at_parse_time() {
    let (_, e) = run_err("fn f(a: Number) { f(a) }");
    assert!(e.contains("unknown field"));
}

#[test]
fn prelude_declarations_stay_visible() {
    let mut sim: Memory<Type> = Memory::new();
    BuiltinFn::populate_sim_memory(&mut sim);
    let mut mem: Memory<Data> = Memory::new();
    BuiltinFn::populate_memory(&mut mem);
    let mut interp = Interpreter::new(mem, 1_000_000);
    let prelude_name = String::from("std");
    let main_name = String::from("main");
    let first = execute_source(
        &prelude_name,
        "fn double(a: Number) { a + a }",
        &mut sim,
        &mut interp,
        1_000_000,
    );
    assert!(first.is_ok());
    let second = execute_source(
        &main_name,
        "print(double(21));",
        &mut sim,
        &mut interp,
        1_000_000,
    );
    assert!(second.is_ok());
    assert_eq!(interp.output, vec![String::from("42")]);
}

#[test]
fn call_budget_exhaustion_is_reported() {
    let (_, e) = run_with_fuel("fn f(a: Number) { a } f(1);", 0);
    let msg = match e {
        Ok(()) => panic!("program unexpectedly succeeded"),
        Err(m) => m,
    };
    assert!(msg.contains("budget"));
}

#[test]
fn block_value_is_its_trailing_expression() {
    let out = run_ok("let x = { let y = 2; y + 3 }; print(x);");
    assert_eq!(out, vec![String::from("5")]);
}

#[test]
fn chained_assignment_flows_right_to_left() {
    let out = run_ok("let mut a = 1; let mut b = 2; a = b = 9; print(a); print(b);");
    assert_eq!(out, vec![String::from("9"), String::from("9")]);
}

#[test]
fn trailing_declaration_still_demands_its_semicolon() {
    let (_, e) = run_err("let x = { let y = 2 };");
    assert!(e.contains("Semicolon"));
}

#[test]
fn counting_loop_prints_each_number_once() {
    let out = run_ok("for i in 2..5 { print(i); }");
    assert_eq!(
        out,
        vec![String::from("2"), String::from("3"), String::from("4")],
    );
}

#[test]
fn call_yields_its_pure_body_value() {
    let out = run_ok("fn three() { 1 + 2 } print(three());");
    assert_eq!(out, vec![String::from("3")]);
}
