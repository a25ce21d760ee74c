use jsonschema_keywords::error::{CompilationContext, CompilationError, ValidationErrorKind};
use jsonschema_keywords::keywords::const_::{
    self, ConstArrayValidator, ConstBooleanValidator, ConstNullValidator, ConstObjectValidator,
    ConstStringValidator,
};
use jsonschema_keywords::keywords::helpers::{equal, equal_arrays, equal_objects};
use jsonschema_keywords::keywords::multiple_of;
use jsonschema_keywords::keywords::KeywordValidator;
use jsonschema_keywords::number::{JsonNumber, NumberRepr};
use jsonschema_keywords::value::{JsonMap, JsonValue};

fn integer(n: i64) -> JsonValue {
    let repr = if n >= 0 { NumberRepr::PosInt(n as u64) } else { NumberRepr::NegInt(n) };
    JsonValue::Number(JsonNumber { repr, f64_bits: (n as f64).to_bits() })
}

fn float(x: f64) -> JsonValue {
    JsonValue::Number(JsonNumber { repr: NumberRepr::Float, f64_bits: x.to_bits() })
}

fn string(s: &str) -> JsonValue {
    JsonValue::String(s.to_string())
}

fn object(members: Vec<(&str, JsonValue)>) -> JsonValue {
    JsonValue::Object(JsonMap {
        entries: members.into_iter().map(|(k, v)| (k.to_string(), v)).collect(),
    })
}

fn empty_map() -> JsonMap {
    JsonMap { entries: vec![] }
}

fn path() -> Vec<String> {
    vec!["const".to_string()]
}

fn context() -> CompilationContext {
    CompilationContext { curr_path: path() }
}

fn compile_const(schema: &JsonValue) -> KeywordValidator {
    const_::compile(&empty_map(), schema, &context()).unwrap().unwrap()
}

fn samples() -> Vec<JsonValue> {
    vec![
        JsonValue::Null,
        JsonValue::Bool(true),
        JsonValue::Bool(false),
        string("a"),
        string(""),
        JsonValue::Array(vec![]),
        JsonValue::Array(vec![integer(1), string("b")]),
        JsonValue::Array(vec![JsonValue::Array(vec![JsonValue::Null])]),
        object(vec![]),
        object(vec![("a", integer(1)), ("b", JsonValue::Array(vec![float(0.5)]))]),
    ]
}

#[test]
fn equality_of_values() {
    assert!(equal(&integer(1), &float(1.0)));
    assert!(equal(&float(0.0), &float(-0.0)));
    assert!(!equal(&integer(1), &integer(2)));
    assert!(!equal(&integer(1), &string("1")));
    assert!(!equal(&JsonValue::Null, &JsonValue::Bool(false)));
    assert!(equal(
        &JsonValue::Array(vec![integer(1), float(2.0)]),
        &JsonValue::Array(vec![float(1.0), integer(2)])
    ));
    assert!(!equal_arrays(&vec![integer(1)], &vec![integer(1), integer(1)]));
    assert!(equal_arrays(&vec![], &vec![]));
    let a = JsonMap { entries: vec![("x".to_string(), integer(1)), ("y".to_string(), JsonValue::Null)] };
    let b = JsonMap { entries: vec![("x".to_string(), float(1.0)), ("y".to_string(), JsonValue::Null)] };
    let c = JsonMap { entries: vec![("x".to_string(), integer(1)), ("z".to_string(), JsonValue::Null)] };
    assert!(equal_objects(&a, &b));
    assert!(!equal_objects(&a, &c));
    assert!(!equal_objects(&a, &empty_map()));
}

#[test]
fn equality_is_reflexive_and_symmetric_on_samples() {
    let values = samples();
    for a in &values {
        assert!(equal(a, a));
        for b in &values {
            assert_eq!(equal(a, b), equal(b, a));
        }
    }
}

#[test]
fn const_accepts_its_own_value() {
    for value in samples() {
        let v = compile_const(&value);
        assert_eq!(v.is_valid(&value), Some(true));
        assert!(v.validate(&value).unwrap().is_empty());
    }
}

#[test]
fn const_acceptance_is_symmetric() {
    let values = samples();
    for a in &values {
        for b in &values {
            let va = compile_const(a);
            let vb = compile_const(b);
            assert_eq!(va.is_valid(b), vb.is_valid(a));
        }
    }
}

#[test]
fn const_compiles_by_kind() {
    assert!(matches!(compile_const(&JsonValue::Null), KeywordValidator::ConstNull(_)));
    assert!(matches!(compile_const(&JsonValue::Bool(true)), KeywordValidator::ConstBoolean(_)));
    assert!(matches!(compile_const(&string("s")), KeywordValidator::ConstString(_)));
    assert!(matches!(compile_const(&JsonValue::Array(vec![])), KeywordValidator::ConstArray(_)));
    assert!(matches!(compile_const(&object(vec![])), KeywordValidator::ConstObject(_)));
    let n = compile_const(&float(1.5));
    assert!(matches!(n, KeywordValidator::ConstNumber(_)));
    assert_eq!(n.is_valid(&float(1.5)), None);
    assert!(n.validate(&float(1.5)).is_none());
}

#[test]
fn const_boolean() {
    let v = ConstBooleanValidator { value: false, path: path() };
    assert!(v.is_valid(&JsonValue::Bool(false)));
    assert!(!v.is_valid(&JsonValue::Bool(true)));
    assert!(!v.is_valid(&integer(0)));
    let errors = v.validate(&JsonValue::Null);
    assert_eq!(errors.len(), 1);
    assert!(matches!(
        errors[0].kind,
        ValidationErrorKind::Constant { expected_value: JsonValue::Bool(false) }
    ));
    assert_eq!(errors[0].schema_path, path());
    assert_eq!(v.to_string(), "const: false");
    assert_eq!(ConstBooleanValidator { value: true, path: path() }.to_string(), "const: true");
}

#[test]
fn const_null() {
    let v = ConstNullValidator { path: path() };
    assert!(v.is_valid(&JsonValue::Null));
    assert!(!v.is_valid(&JsonValue::Bool(false)));
    assert_eq!(v.validate(&string("null")).len(), 1);
    assert_eq!(v.to_string(), "const: null");
}

#[test]
fn const_string() {
    let v = ConstStringValidator { value: "foo".to_string(), path: path() };
    assert!(v.is_valid(&string("foo")));
    assert!(!v.is_valid(&string("Foo")));
    assert!(!v.is_valid(&JsonValue::Null));
    let errors = v.validate(&string("bar"));
    assert_eq!(errors.len(), 1);
    match &errors[0].kind {
        ValidationErrorKind::Constant { expected_value: JsonValue::String(s) } => assert_eq!(s, "foo"),
        _ => panic!("expected a string constant"),
    }
    assert_eq!(v.to_string(), "const: foo");
    let compiled = ConstStringValidator::compile("bär", path()).unwrap();
    assert_eq!(compiled.is_valid(&string("bär")), Some(true));
}

#[test]
fn const_array() {
    let v = ConstArrayValidator { value: vec![integer(1), integer(2)], path: path() };
    assert!(v.is_valid(&JsonValue::Array(vec![integer(1), float(2.0)])));
    assert!(!v.is_valid(&JsonValue::Array(vec![integer(2), integer(1)])));
    assert!(!v.is_valid(&JsonValue::Array(vec![integer(1)])));
    assert!(!v.is_valid(&object(vec![])));
    let errors = v.validate(&JsonValue::Null);
    assert_eq!(errors.len(), 1);
    match &errors[0].kind {
        ValidationErrorKind::Constant { expected_value: JsonValue::Array(items) } => {
            assert_eq!(items.len(), 2)
        }
        _ => panic!("expected an array constant"),
    }
    let compiled = ConstArrayValidator::compile(&vec![string("x")], path()).unwrap();
    assert_eq!(compiled.is_valid(&JsonValue::Array(vec![string("x")])), Some(true));
}

#[test]
fn const_object() {
    let map = JsonMap { entries: vec![("a".to_string(), JsonValue::Null)] };
    let v = ConstObjectValidator { value: map, path: path() };
    assert!(v.is_valid(&object(vec![("a", JsonValue::Null)])));
    assert!(!v.is_valid(&object(vec![("a", JsonValue::Bool(false))])));
    assert!(!v.is_valid(&object(vec![("b", JsonValue::Null)])));
    assert!(!v.is_valid(&object(vec![])));
    assert!(!v.is_valid(&JsonValue::Null));
    assert_eq!(v.validate(&object(vec![])).len(), 1);
    assert!(v.validate(&object(vec![("a", JsonValue::Null)])).is_empty());
}

#[test]
fn multiple_of_compile() {
    let v = multiple_of::compile(&empty_map(), &integer(3), &context()).unwrap().unwrap();
    assert!(matches!(v, KeywordValidator::MultipleOfInteger(_)));
    let w = multiple_of::compile(&empty_map(), &float(4.0), &context()).unwrap().unwrap();
    assert!(matches!(w, KeywordValidator::MultipleOfInteger(_)));
    let f = multiple_of::compile(&empty_map(), &float(0.25), &context()).unwrap().unwrap();
    match &f {
        KeywordValidator::MultipleOfFloat(m) => {
            assert_eq!(m.multiple_of.f64_bits, 0.25f64.to_bits());
            assert_eq!(m.path, path());
        }
        _ => panic!("expected the float check"),
    }
    assert_eq!(f.is_valid(&integer(1)), None);
    assert_eq!(
        multiple_of::compile(&empty_map(), &string("3"), &context()).unwrap().err(),
        Some(CompilationError::SchemaError)
    );
}

#[test]
fn multiple_of_integer_check() {
    let v = multiple_of::compile(&empty_map(), &integer(3), &context()).unwrap().unwrap();
    assert_eq!(v.is_valid(&integer(9)), Some(true));
    assert_eq!(v.is_valid(&integer(-9)), Some(true));
    assert_eq!(v.is_valid(&float(9.0)), Some(true));
    assert_eq!(v.is_valid(&integer(10)), Some(false));
    assert_eq!(v.is_valid(&integer(0)), Some(true));
    assert_eq!(v.is_valid(&float(9.5)), None);
    assert_eq!(v.is_valid(&string("9")), Some(true));
    let errors = v.validate(&integer(10)).unwrap();
    assert_eq!(errors.len(), 1);
    assert!(matches!(errors[0].kind, ValidationErrorKind::MultipleOf { .. }));
    assert!(v.validate(&integer(6)).unwrap().is_empty());
    assert!(v.validate(&float(0.5)).is_none());
    let zero = multiple_of::compile(&empty_map(), &integer(0), &context()).unwrap().unwrap();
    assert!(matches!(zero, KeywordValidator::MultipleOfInteger(_)));
    assert_eq!(zero.is_valid(&integer(0)), Some(false));
    assert_eq!(zero.is_valid(&integer(5)), Some(false));
}

#[test]
fn multiple_of_float_check_leaves_numbers_to_caller() {
    let v = multiple_of::compile(&empty_map(), &float(0.5), &context()).unwrap().unwrap();
    assert_eq!(v.is_valid(&integer(1)), None);
    assert_eq!(v.is_valid(&JsonValue::Null), Some(true));
    assert!(v.validate(&string("x")).unwrap().is_empty());
    assert!(v.validate(&float(1.5)).is_none());
}
