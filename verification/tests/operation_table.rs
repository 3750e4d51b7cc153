//! The operator table's checked form: an illegal pair comes back as the
//! structured error the parser reports.

use oxid::operations::Operation;
use oxid::types::Type;

#[test]
fn eq_strings_type_check() {
    let res_type = Operation::Eq.typ_checked(&Type::String, &Type::String);
    assert_eq!(res_type, Ok(Type::Bool));
}

#[test]
fn cannot_eq_different_types() {
    assert!(Operation::Eq.typ_checked(&Type::String, &Type::Number).is_err())
}

#[test]
fn add_string_types() {
    let res_type = Operation::Add.typ_checked(&Type::String, &Type::String);
    assert_eq!(res_type, Ok(Type::String));
}

#[test]
fn add_numbers_types() {
    let res_type = Operation::Add.typ_checked(&Type::Number, &Type::Number);
    assert_eq!(res_type, Ok(Type::Number));
}

#[test]
fn cannot_add_different_types() {
    assert!(Operation::Add.typ_checked(&Type::String, &Type::Number).is_err())
}

#[test]
fn sub_numbers_types() {
    let res_type = Operation::Sub.typ_checked(&Type::Number, &Type::Number);
    assert_eq!(res_type, Ok(Type::Number));
}

#[test]
fn cannot_sub_different_types() {
    assert!(Operation::Sub.typ_checked(&Type::String, &Type::Number).is_err())
}

#[test]
fn mul_numbers_types() {
    let res_type = Operation::Mul.typ_checked(&Type::Number, &Type::Number);
    assert_eq!(res_type, Ok(Type::Number));
}

#[test]
fn cannot_mul_different_types() {
    assert!(Operation::Mul.typ_checked(&Type::String, &Type::Number).is_err())
}

#[test]
fn div_numbers_types() {
    let res_type = Operation::Div.typ_checked(&Type::Number, &Type::Number);
    assert_eq!(res_type, Ok(Type::Number));
}

#[test]
fn cannot_div_different_types() {
    assert!(Operation::Div.typ_checked(&Type::String, &Type::Number).is_err())
}

#[test]
fn rem_numbers_types() {
    let res_type = Operation::Rem.typ_checked(&Type::Number, &Type::Number);
    assert_eq!(res_type, Ok(Type::Number));
}

#[test]
fn cannot_rem_different_types() {
    assert!(Operation::Sub.typ_checked(&Type::String, &Type::Number).is_err())
}
