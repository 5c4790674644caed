//! Tests of the static half: mirror construction and its consistency with
//! the runtime table, the name dispatch, and the static literal check.

use u256_extension::extension::{extension, CallStyle};
use u256_extension::names::Name;
use u256_extension::schema::{
    extension_schema, get_argument_check, get_argument_types, get_return_type, validate_u256_string,
    ArgumentCheck, SchemaDriftError, Type,
};
use u256_extension::value::{Expr, Literal, Value};

#[test]
fn schema_consistency() {
    // constructing the mirror from the runtime extension never signals drift
    let schema = extension_schema().expect("mirror construction should succeed");
    assert_eq!(
        &schema.name,
        &Name::parse_unqualified_name("u256").expect("should be a valid identifier")
    );
    assert_eq!(schema.function_types.len(), 5);

    let names: Vec<String> = schema
        .function_types
        .iter()
        .map(|f| f.name.as_str().to_string())
        .collect();
    assert_eq!(
        names,
        vec![
            "u256",
            "u256LessThan",
            "u256LessThanOrEqual",
            "u256GreaterThan",
            "u256GreaterThanOrEqual"
        ]
    );

    // only the constructor carries the extra static check
    assert!(matches!(
        schema.function_types[0].check,
        Some(ArgumentCheck::ValidateU256String)
    ));
    for f in &schema.function_types[1..] {
        assert!(f.check.is_none());
    }

    // the constructor takes one string and returns the extension type
    assert!(matches!(
        schema.function_types[0].argument_types[..],
        [Type::Str]
    ));
    assert!(matches!(
        schema.function_types[0].return_type,
        Type::Extension { .. }
    ));

    // the comparisons take two extension values and return boolean
    for f in &schema.function_types[1..] {
        assert_eq!(f.argument_types.len(), 2);
        assert!(matches!(f.return_type, Type::Boolean));
    }
}

#[test]
fn schema_mirrors_runtime_shape() {
    let ext = extension();
    assert_eq!(ext.functions.len(), 5);
    assert!(matches!(ext.functions[0].style, CallStyle::FunctionStyle));
    for f in &ext.functions[1..] {
        assert!(matches!(f.style, CallStyle::MethodStyle));
    }
}

#[test]
fn unknown_name_signals_drift() {
    // a name outside the shipped set reaching the dispatch is a drift error:
    // this is what firing after removing a case from the dispatch looks like
    let u256_ty = Type::Extension {
        name: Name::parse_unqualified_name("u256").expect("should be a valid identifier"),
    };
    assert!(matches!(
        get_return_type("u256Bogus", &u256_ty),
        Err(SchemaDriftError::UnknownFunction(n)) if n == "u256Bogus"
    ));
    assert!(matches!(
        get_argument_types("u256Bogus", &u256_ty),
        Err(SchemaDriftError::UnknownFunction(_))
    ));
    assert!(matches!(
        get_argument_check("u256Bogus"),
        Err(SchemaDriftError::UnknownFunction(_))
    ));
}

#[test]
fn static_literal_rejection() {
    let ext = extension();

    // a malformed literal argument fails validation before any evaluation
    let bad_literal = vec![Expr::Lit(Literal::Str("12.34".to_string()))];
    let err = validate_u256_string(&bad_literal).expect_err("should fail validation");
    assert_eq!(err, "Failed to parse as a u256 value: `\"12.34\"`");

    // the same check fires through the mirror's hook, and only the
    // constructor's entry carries it
    let schema = extension_schema().expect("mirror construction should succeed");
    assert!(schema.function_types[0].static_check(&bad_literal).is_err());
    assert!(schema.function_types[1].static_check(&bad_literal).is_ok());

    // a well-formed literal passes
    let good_literal = vec![Expr::Lit(Literal::Str("1234".to_string()))];
    assert!(validate_u256_string(&good_literal).is_ok());

    // the same malformed text behind a non-literal expression passes
    // validation ...
    let var = vec![Expr::Var(
        Name::parse_unqualified_name("context_attribute").expect("should be a valid identifier"),
    )];
    assert!(validate_u256_string(&var).is_ok());

    // ... and fails only at evaluation time
    let name = Name::parse_unqualified_name("u256").expect("should be a valid identifier");
    let f = ext.get_func(&name).expect("function should exist");
    let res = f.call(&vec![Value::Lit(Literal::Str("12.34".to_string()))]);
    assert!(res.is_err());
}

#[test]
fn name_grammar() {
    assert!(Name::parse_unqualified_name("u256").is_some());
    assert!(Name::parse_unqualified_name("_private").is_some());
    assert!(Name::parse_unqualified_name("u256LessThan").is_some());
    assert!(Name::parse_unqualified_name("").is_none());
    assert!(Name::parse_unqualified_name("1abc").is_none());
    assert!(Name::parse_unqualified_name("has space").is_none());
    assert!(Name::parse_unqualified_name("dotted.name").is_none());
}
