//! Tests of the runtime half: the function table, construction, equality and
//! the comparison operations.

use u256_extension::extension::{extension, Extension};
use u256_extension::names::Name;
use u256_extension::value::{values_equal, ExtensionError, Literal, Value};

/// Asserts that a result is the extension-scoped error with our extension name.
fn assert_uint256_err(res: Result<Value, ExtensionError>) {
    match res {
        Err(e) => {
            println!("{}", e.msg);
            assert_eq!(
                e.extension_name,
                Name::parse_unqualified_name("u256").expect("should be a valid identifier")
            );
        }
        Ok(_) => panic!("Expected an u256 ExtensionErr, got Ok"),
    }
}

/// Asserts that a result is a u256 extension value.
fn assert_uint256_valid(res: Result<Value, ExtensionError>) {
    match res {
        Ok(Value::ExtensionValue(ev)) => {
            assert_eq!(
                ev.typename(),
                Name::parse_unqualified_name("u256").expect("should be a valid identifier")
            );
        }
        Ok(v) => panic!("Expected u256 ExtensionValue, got {:?}", v),
        Err(e) => panic!("Expected Ok, got Err: {:?}", e),
    }
}

/// Runs the constructor of the registered extension on a string value.
fn eval_u256(ext: &Extension, s: &str) -> Result<Value, ExtensionError> {
    let name = Name::parse_unqualified_name("u256").expect("should be a valid identifier");
    let f = ext.get_func(&name).expect("function should exist");
    f.call(&vec![Value::Lit(Literal::Str(s.to_string()))])
}

/// Constructs a u256 extension value that is expected to be valid.
fn uint256(s: &str) -> Value {
    let ext = extension();
    eval_u256(&ext, s).expect("should be a valid u256")
}

/// this test just ensures that the right functions are marked constructors
#[test]
fn constructors() {
    let ext = extension();
    assert!(ext
        .get_func(&Name::parse_unqualified_name("u256").expect("should be a valid identifier"))
        .expect("function should exist")
        .is_constructor());
    assert!(!ext
        .get_func(
            &Name::parse_unqualified_name("u256LessThan").expect("should be a valid identifier")
        )
        .expect("function should exist")
        .is_constructor());
    assert!(!ext
        .get_func(
            &Name::parse_unqualified_name("u256LessThanOrEqual")
                .expect("should be a valid identifier")
        )
        .expect("function should exist")
        .is_constructor());
    assert!(!ext
        .get_func(
            &Name::parse_unqualified_name("u256GreaterThan").expect("should be a valid identifier")
        )
        .expect("function should exist")
        .is_constructor());
    assert!(!ext
        .get_func(
            &Name::parse_unqualified_name("u256GreaterThanOrEqual")
                .expect("should be a valid identifier")
        )
        .expect("function should exist")
        .is_constructor());
}

#[test]
fn uint256_creation() {
    let ext = extension();

    // valid u256 strings
    assert_uint256_valid(eval_u256(
        &ext,
        "115792089237316195423570985008687907853269984665640564039457584007913129639935",
    ));
    assert_uint256_valid(eval_u256(&ext, "0"));
    assert_uint256_valid(eval_u256(&ext, "123456"));
    assert_uint256_valid(eval_u256(&ext, "1234"));

    // invalid u256 strings
    assert_uint256_err(eval_u256(&ext, "12.34"));
    assert_uint256_err(eval_u256(&ext, "1.0."));
    assert_uint256_err(eval_u256(&ext, "1."));
    assert_uint256_err(eval_u256(&ext, ".1"));
    assert_uint256_err(eval_u256(&ext, "1.a"));
    assert_uint256_err(eval_u256(&ext, "-."));
}

#[test]
fn uint256_equality() {
    let a = uint256("123");
    let b = uint256("123");
    let c = uint256("123");
    let d = uint256("124");
    let e = uint256("1");
    let f = uint256("0");
    let g = uint256("0");

    // a, b, c are all equal
    assert_eq!(values_equal(&a, &a), true);
    assert_eq!(values_equal(&a, &b), true);
    assert_eq!(values_equal(&b, &c), true);
    assert_eq!(values_equal(&c, &a), true);

    // d, e are distinct
    assert_eq!(values_equal(&b, &d), false);
    assert_eq!(values_equal(&a, &e), false);
    assert_eq!(values_equal(&d, &e), false);

    // f (0) and g (0) are equal
    assert_eq!(values_equal(&f, &g), true);

    // other types are not equal
    assert_eq!(
        values_equal(&a, &Value::Lit(Literal::Str("123.0".to_string()))),
        false
    );
    assert_eq!(values_equal(&a, &Value::Lit(Literal::Long(1))), false);
}

fn uint256_ops_helper(op: &str, tests: Vec<((&str, &str), bool)>) {
    let ext = extension();
    let name = Name::parse_unqualified_name(op).expect("should be a valid identifier");
    for ((l, r), res) in tests {
        let lv = uint256(l);
        let rv = uint256(r);
        let out = ext
            .get_func(&name)
            .expect("function should exist")
            .call(&vec![lv, rv]);
        match out {
            Ok(Value::Lit(Literal::Bool(b))) => assert_eq!(b, res),
            other => panic!("Expected a boolean result, got {:?}", other),
        }
    }
}

#[test]
fn uint256_ops() {
    // tests for u256LessThan
    let tests = vec![
        (("123", "124"), true),  // 123 < 124
        (("123", "123"), false), // 123 < 123
    ];
    uint256_ops_helper("u256LessThan", tests);

    // tests for u256LessThanOrEqual
    let tests = vec![
        (("123", "124"), true), // 123 <= 124
        (("123", "123"), true), // 123 <= 123
    ];
    uint256_ops_helper("u256LessThanOrEqual", tests);

    // tests for u256GreaterThan
    let tests = vec![
        (("123", "124"), false), // 123 > 124
        (("123", "123"), false), // 123 > 123
    ];
    uint256_ops_helper("u256GreaterThan", tests);

    // tests for u256GreaterThanOrEqual
    let tests = vec![
        (("123", "124"), false), // 123 >= 124
        (("123", "123"), true),  // 123 >= 123
    ];
    uint256_ops_helper("u256GreaterThanOrEqual", tests);
}

#[test]
fn call_function_by_name() {
    let ext = extension();
    let name = Name::parse_unqualified_name("u256LessThan").expect("should be a valid identifier");
    let out = ext.call_function(&name, &vec![uint256("7"), uint256("9")]);
    match out {
        Ok(Value::Lit(Literal::Bool(b))) => assert!(b),
        other => panic!("Expected a boolean result, got {:?}", other),
    }
}
