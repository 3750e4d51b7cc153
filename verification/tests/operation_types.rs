//! The operator table's static half, operator by operator.

use oxid::operations::Operation;
use oxid::types::Type;

#[test]
fn add_numbers() {
    let res_type = Operation::Add.typ(&Type::Number, &Type::Number);
    assert_eq!(res_type, Some(Type::Number));
}

#[test]
fn add_strings() {
    let res_type = Operation::Add.typ(&Type::String, &Type::String);
    assert_eq!(res_type, Some(Type::String));
}

#[test]
fn cannot_add_different() {
    assert!(Operation::Add.typ(&Type::String, &Type::Number).is_none())
}

#[test]
fn sub_numbers() {
    let res_type = Operation::Sub.typ_checked(&Type::Number, &Type::Number);
    assert_eq!(res_type, Ok(Type::Number));
}

#[test]
fn cannot_sub_different() {
    assert!(Operation::Sub.typ_checked(&Type::String, &Type::Number).is_err())
}

#[test]
fn div_numbers() {
    let res_type = Operation::Div.typ(&Type::Number, &Type::Number);
    assert_eq!(res_type, Some(Type::Number));
}

#[test]
fn cannot_div_different() {
    assert!(Operation::Div.typ(&Type::String, &Type::Number).is_none())
}

#[test]
fn rem_numbers() {
    let res_type = Operation::Rem.typ(&Type::Number, &Type::Number);
    assert_eq!(res_type, Some(Type::Number));
}

#[test]
fn cannot_rem_different() {
    assert!(Operation::Rem.typ(&Type::String, &Type::Number).is_none())
}

#[test]
fn eq_numbers() {
    let res_type = Operation::Eq.typ(&Type::Number, &Type::Number);
    assert_eq!(res_type, Some(Type::Bool));
}

#[test]
fn eq_strings() {
    let res_type = Operation::Eq.typ(&Type::String, &Type::String);
    assert_eq!(res_type, Some(Type::Bool));
}

#[test]
fn cannot_eq_different() {
    assert!(Operation::Eq.typ(&Type::String, &Type::Number).is_none())
}

#[test]
fn gt_numbers() {
    let res_type = Operation::Gt.typ(&Type::Number, &Type::Number);
    assert_eq!(res_type, Some(Type::Bool));
}

#[test]
fn cannot_gt_different() {
    assert!(Operation::Gt.typ(&Type::String, &Type::Number).is_none())
}

#[test]
fn gte_numbers() {
    let res_type = Operation::Gte.typ_checked(&Type::Number, &Type::Number);
    assert_eq!(res_type, Ok(Type::Bool));
}

#[test]
fn cannot_gte_different() {
    assert!(Operation::Gte.typ_checked(&Type::String, &Type::Number).is_err())
}

#[test]
fn lte_numbers() {
    let res_type = Operation::Lte.typ(&Type::Number, &Type::Number);
    assert_eq!(res_type, Some(Type::Bool));
}

#[test]
fn cannot_lte_different() {
    assert!(Operation::Lte.typ(&Type::String, &Type::Number).is_none())
}
