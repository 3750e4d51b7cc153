//! The scoped symbol table on its own: declaration, lookup, shadowing,
//! assignment across frames, and the push/pop discipline.

use oxid::memory::Memory;
use oxid::types::Type;

#[test]
fn fresh_table_has_no_bindings() {
    let mem: Memory<Type> = Memory::new();
    assert!(!mem.has(&String::from("x")));
    assert!(mem.get(&String::from("x")).is_none());
}

#[test]
fn insert_then_get() {
    let mut mem: Memory<Type> = Memory::new();
    mem.insert(String::from("x"), Type::Number);
    assert_eq!(mem.get(&String::from("x")), Some(&Type::Number));
    assert!(mem.has(&String::from("x")));
}

#[test]
fn insert_replaces_in_the_same_frame() {
    let mut mem: Memory<Type> = Memory::new();
    mem.insert(String::from("x"), Type::Number);
    let previous = mem.insert(String::from("x"), Type::Bool);
    assert_eq!(previous, Some(Type::Number));
    assert_eq!(mem.get(&String::from("x")), Some(&Type::Bool));
}

#[test]
fn inner_frame_shadows_outer() {
    let mut mem: Memory<Type> = Memory::new();
    mem.insert(String::from("x"), Type::Number);
    mem.push_scope();
    mem.insert(String::from("x"), Type::Bool);
    assert_eq!(mem.get(&String::from("x")), Some(&Type::Bool));
    mem.pop_scope();
    assert_eq!(mem.get(&String::from("x")), Some(&Type::Number));
}

#[test]
fn lookup_searches_outward() {
    let mut mem: Memory<Type> = Memory::new();
    mem.insert(String::from("x"), Type::Number);
    mem.push_scope();
    assert_eq!(mem.get(&String::from("x")), Some(&Type::Number));
    mem.pop_scope();
}

#[test]
fn assign_rewrites_the_owning_frame() {
    let mut mem: Memory<Type> = Memory::new();
    mem.insert(String::from("x"), Type::Number);
    mem.push_scope();
    let previous = mem.assign(String::from("x"), Type::Bool);
    assert_eq!(previous, Some(Type::Number));
    mem.pop_scope();
    assert_eq!(mem.get(&String::from("x")), Some(&Type::Bool));
}

#[test]
fn assign_to_unbound_name_changes_nothing() {
    let mut mem: Memory<Type> = Memory::new();
    let previous = mem.assign(String::from("x"), Type::Bool);
    assert!(previous.is_none());
    assert!(!mem.has(&String::from("x")));
}

#[test]
fn assign_prefers_the_innermost_binding() {
    let mut mem: Memory<Type> = Memory::new();
    mem.insert(String::from("x"), Type::Number);
    mem.push_scope();
    mem.insert(String::from("x"), Type::Bool);
    let previous = mem.assign(String::from("x"), Type::String);
    assert_eq!(previous, Some(Type::Bool));
    assert_eq!(mem.get(&String::from("x")), Some(&Type::String));
    mem.pop_scope();
    assert_eq!(mem.get(&String::from("x")), Some(&Type::Number));
}
