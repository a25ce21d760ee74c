use jsonschema_keywords::error::{CompilationContext, CompilationError, TypeKind, ValidationErrorKind};
use jsonschema_keywords::keywords::legacy::type_draft_4;
use jsonschema_keywords::keywords::type_::{
    self, ArrayTypeValidator, BooleanTypeValidator, IntegerTypeValidator, MultipleTypesValidator,
    NullTypeValidator, NumberTypeValidator, ObjectTypeValidator, StringTypeValidator,
};
use jsonschema_keywords::keywords::KeywordValidator;
use jsonschema_keywords::number::{JsonNumber, NumberRepr};
use jsonschema_keywords::primitive_type::{PrimitiveType, PrimitiveTypesBitMap};
use jsonschema_keywords::value::{JsonMap, JsonValue};

fn integer(n: i64) -> JsonValue {
    let repr = if n >= 0 { NumberRepr::PosInt(n as u64) } else { NumberRepr::NegInt(n) };
    JsonValue::Number(JsonNumber { repr, f64_bits: (n as f64).to_bits() })
}

fn float(x: f64) -> JsonValue {
    JsonValue::Number(JsonNumber { repr: NumberRepr::Float, f64_bits: x.to_bits() })
}

fn string(s: &str) -> JsonValue {
    JsonValue::String(s.to_string())
}

fn empty_map() -> JsonMap {
    JsonMap { entries: vec![] }
}

fn samples() -> Vec<JsonValue> {
    vec![
        JsonValue::Null,
        JsonValue::Bool(true),
        integer(3),
        integer(-3),
        float(2.0),
        float(2.5),
        string("x"),
        JsonValue::Array(vec![integer(1)]),
        JsonValue::Object(empty_map()),
    ]
}

fn path() -> Vec<String> {
    vec!["properties".to_string(), "a".to_string(), "type".to_string()]
}

fn context() -> CompilationContext {
    CompilationContext { curr_path: path() }
}

fn compile_type(schema: &JsonValue) -> Result<KeywordValidator, CompilationError> {
    type_::compile(&empty_map(), schema, &context()).unwrap()
}

fn compile_type_draft4(schema: &JsonValue) -> Result<KeywordValidator, CompilationError> {
    type_draft_4::compile(&empty_map(), schema, &context()).unwrap()
}

fn accepts(v: &KeywordValidator, instance: &JsonValue) -> bool {
    v.is_valid(instance).unwrap()
}

#[test]
fn primitive_type_names() {
    let all = [
        ("array", PrimitiveType::Array),
        ("boolean", PrimitiveType::Boolean),
        ("integer", PrimitiveType::Integer),
        ("null", PrimitiveType::Null),
        ("number", PrimitiveType::Number),
        ("object", PrimitiveType::Object),
        ("string", PrimitiveType::String),
    ];
    for (name, t) in all {
        assert_eq!(PrimitiveType::try_from(name), Ok(t));
        assert_eq!(t.name(), name);
        assert_eq!(t.to_string(), name);
    }
    assert_eq!(PrimitiveType::try_from("Array"), Err(()));
    assert_eq!(PrimitiveType::try_from("int"), Err(()));
    assert_eq!(PrimitiveType::try_from(""), Err(()));
    assert_eq!(PrimitiveType::try_from("nulls"), Err(()));
}

#[test]
fn bitmap_set_semantics() {
    let mut types = PrimitiveTypesBitMap::new();
    assert!(types.to_vec().is_empty());
    types.add_type(PrimitiveType::String);
    types.add_type(PrimitiveType::Array);
    types.add_type(PrimitiveType::String);
    assert!(types.contains_type(PrimitiveType::String));
    assert!(types.contains_type(PrimitiveType::Array));
    assert!(!types.contains_type(PrimitiveType::Null));
    assert_eq!(types.to_vec(), vec![PrimitiveType::Array, PrimitiveType::String]);
}

#[test]
fn single_type_validators() {
    let checks: Vec<(KeywordValidator, Vec<bool>)> = vec![
        (NullTypeValidator::compile(path()).unwrap(), vec![true, false, false, false, false, false, false, false, false]),
        (BooleanTypeValidator::compile(path()).unwrap(), vec![false, true, false, false, false, false, false, false, false]),
        (IntegerTypeValidator::compile(path()).unwrap(), vec![false, false, true, true, true, false, false, false, false]),
        (NumberTypeValidator::compile(path()).unwrap(), vec![false, false, true, true, true, true, false, false, false]),
        (StringTypeValidator::compile(path()).unwrap(), vec![false, false, false, false, false, false, true, false, false]),
        (ArrayTypeValidator::compile(path()).unwrap(), vec![false, false, false, false, false, false, false, true, false]),
        (ObjectTypeValidator::compile(path()).unwrap(), vec![false, false, false, false, false, false, false, false, true]),
    ];
    let values = samples();
    for (validator, expected) in checks {
        for (value, want) in values.iter().zip(expected) {
            assert_eq!(accepts(&validator, value), want);
            let errors = validator.validate(value).unwrap();
            assert_eq!(errors.is_empty(), want);
        }
    }
}

#[test]
fn single_type_error_contents() {
    let validator = StringTypeValidator { path: path() };
    let errors = validator.validate(&integer(5));
    assert_eq!(errors.len(), 1);
    assert_eq!(errors[0].schema_path, path());
    assert!(matches!(errors[0].instance, JsonValue::Number(JsonNumber { repr: NumberRepr::PosInt(5), .. })));
    assert!(matches!(
        errors[0].kind,
        ValidationErrorKind::Type { kind: TypeKind::Single(PrimitiveType::String) }
    ));
    assert!(validator.validate(&string("ok")).is_empty());
}

#[test]
fn single_type_descriptions() {
    assert_eq!(NullTypeValidator { path: path() }.to_string(), "type: null");
    assert_eq!(BooleanTypeValidator { path: path() }.to_string(), "type: boolean");
    assert_eq!(StringTypeValidator { path: path() }.to_string(), "type: string");
    assert_eq!(ArrayTypeValidator { path: path() }.to_string(), "type: array");
    assert_eq!(ObjectTypeValidator { path: path() }.to_string(), "type: object");
    assert_eq!(NumberTypeValidator { path: path() }.to_string(), "type: number");
    assert_eq!(IntegerTypeValidator { path: path() }.to_string(), "type: integer");
    assert_eq!(type_draft_4::IntegerTypeValidator { path: path() }.to_string(), "type: integer");
}

#[test]
fn integer_counts_whole_floats_from_draft6() {
    let v = IntegerTypeValidator { path: path() };
    assert!(v.is_valid(&float(1.0)));
    assert!(v.is_valid(&float(-0.0)));
    assert!(!v.is_valid(&float(1.5)));
    assert!(v.is_valid(&integer(i64::MIN)));
    let d4 = type_draft_4::IntegerTypeValidator { path: path() };
    assert!(!d4.is_valid(&float(1.0)));
    assert!(d4.is_valid(&integer(-2)));
    assert!(!d4.is_valid(&float(1.5)));
    assert!(!d4.is_valid(&string("1")));
}

#[test]
fn compile_type_from_string() {
    let v = compile_type(&string("number")).unwrap();
    assert!(matches!(v, KeywordValidator::NumberType(_)));
    assert!(accepts(&v, &float(0.5)));
    assert!(!accepts(&v, &string("0.5")));
    assert_eq!(compile_type(&string("float")).err(), Some(CompilationError::SchemaError));
    assert_eq!(compile_type(&integer(1)).err(), Some(CompilationError::SchemaError));
    assert_eq!(compile_type(&JsonValue::Null).err(), Some(CompilationError::SchemaError));
}

#[test]
fn compile_type_single_item_list_is_single_type() {
    let listed = compile_type(&JsonValue::Array(vec![string("integer")])).unwrap();
    let named = compile_type(&string("integer")).unwrap();
    assert!(matches!(listed, KeywordValidator::IntegerType(_)));
    assert!(matches!(named, KeywordValidator::IntegerType(_)));
    for value in samples() {
        assert_eq!(accepts(&listed, &value), accepts(&named, &value));
    }
    assert_eq!(
        compile_type(&JsonValue::Array(vec![integer(1)])).err(),
        Some(CompilationError::SchemaError)
    );
    assert_eq!(
        compile_type(&JsonValue::Array(vec![string("bool")])).err(),
        Some(CompilationError::SchemaError)
    );
}

#[test]
fn compile_type_list() {
    let schema = JsonValue::Array(vec![string("string"), string("null")]);
    let v = compile_type(&schema).unwrap();
    match &v {
        KeywordValidator::MultipleTypes(m) => {
            assert_eq!(m.types.to_vec(), vec![PrimitiveType::Null, PrimitiveType::String]);
            assert_eq!(m.path, path());
            assert_eq!(m.to_string(), "type: [null, string]");
        }
        _ => panic!("expected a list of types"),
    }
    assert!(accepts(&v, &JsonValue::Null));
    assert!(accepts(&v, &string("a")));
    assert!(!accepts(&v, &integer(1)));
    let errors = v.validate(&integer(1)).unwrap();
    assert_eq!(errors.len(), 1);
    assert!(matches!(errors[0].kind, ValidationErrorKind::Type { kind: TypeKind::Multiple(_) }));
    assert_eq!(
        compile_type(&JsonValue::Array(vec![string("string"), integer(2)])).err(),
        Some(CompilationError::SchemaError)
    );
    assert_eq!(
        compile_type(&JsonValue::Array(vec![string("string"), string("text")])).err(),
        Some(CompilationError::SchemaError)
    );
}

#[test]
fn compile_empty_type_list_accepts_nothing() {
    let v = compile_type(&JsonValue::Array(vec![])).unwrap();
    match &v {
        KeywordValidator::MultipleTypes(m) => assert_eq!(m.to_string(), "type: []"),
        _ => panic!("expected a list of types"),
    }
    for value in samples() {
        assert!(!accepts(&v, &value));
    }
}

#[test]
fn type_list_is_union_of_types() {
    let names = ["array", "boolean", "integer", "null", "number", "object", "string"];
    for a in names {
        for b in names {
            let list = compile_type(&JsonValue::Array(vec![string(a), string(b)])).unwrap();
            let one = compile_type(&string(a)).unwrap();
            let other = compile_type(&string(b)).unwrap();
            for value in samples() {
                assert_eq!(accepts(&list, &value), accepts(&one, &value) || accepts(&other, &value));
            }
        }
    }
}

#[test]
fn type_list_order_and_repetition_do_not_matter() {
    let a = compile_type(&JsonValue::Array(vec![string("object"), string("integer"), string("object")])).unwrap();
    let b = compile_type(&JsonValue::Array(vec![string("integer"), string("object")])).unwrap();
    for value in samples() {
        assert_eq!(accepts(&a, &value), accepts(&b, &value));
    }
    match (&a, &b) {
        (KeywordValidator::MultipleTypes(x), KeywordValidator::MultipleTypes(y)) => {
            assert_eq!(x.to_string(), "type: [integer, object]");
            assert_eq!(x.to_string(), y.to_string());
        }
        _ => panic!("expected lists of types"),
    }
}

#[test]
fn multiple_types_integer_without_number() {
    let mut types = PrimitiveTypesBitMap::new();
    types.add_type(PrimitiveType::Integer);
    let v = MultipleTypesValidator { types, path: path() };
    assert!(v.is_valid(&integer(4)));
    assert!(v.is_valid(&float(4.0)));
    assert!(!v.is_valid(&float(4.5)));
    let mut types4 = PrimitiveTypesBitMap::new();
    types4.add_type(PrimitiveType::Integer);
    let d4 = type_draft_4::MultipleTypesValidator { types: types4, path: path() };
    assert!(d4.is_valid(&integer(4)));
    assert!(!d4.is_valid(&float(4.0)));
    assert_eq!(d4.validate(&float(4.0)).len(), 1);
    assert!(d4.validate(&integer(4)).is_empty());
}

#[test]
fn draft4_compile() {
    let v = compile_type_draft4(&string("integer")).unwrap();
    assert!(matches!(v, KeywordValidator::IntegerTypeDraft4(_)));
    assert!(accepts(&v, &integer(2)));
    assert!(!accepts(&v, &float(2.0)));
    let n = compile_type_draft4(&JsonValue::Array(vec![string("number")])).unwrap();
    assert!(matches!(n, KeywordValidator::NumberType(_)));
    let list = compile_type_draft4(&JsonValue::Array(vec![string("integer"), string("string")])).unwrap();
    assert!(matches!(list, KeywordValidator::MultipleTypesDraft4(_)));
    assert!(!accepts(&list, &float(2.0)));
    assert!(accepts(&list, &string("s")));
    assert_eq!(compile_type_draft4(&string("decimal")).err(), Some(CompilationError::SchemaError));
    assert_eq!(
        compile_type_draft4(&JsonValue::Bool(true)).err(),
        Some(CompilationError::SchemaError)
    );
}

#[test]
fn draft4_integer_implies_draft6_integer() {
    let d6 = IntegerTypeValidator { path: path() };
    let d4 = type_draft_4::IntegerTypeValidator { path: path() };
    for value in samples() {
        if d4.is_valid(&value) {
            assert!(d6.is_valid(&value));
        }
    }
}

#[test]
fn compile_single_type_directly() {
    let r = type_::compile_single_type("boolean", path()).unwrap().unwrap();
    assert!(matches!(r, KeywordValidator::BooleanType(_)));
    assert_eq!(
        type_::compile_single_type("Boolean", path()).unwrap().err(),
        Some(CompilationError::SchemaError)
    );
    let r4 = type_draft_4::compile_single_type("integer", path()).unwrap().unwrap();
    assert!(matches!(r4, KeywordValidator::IntegerTypeDraft4(_)));
}

#[test]
fn is_integer_helpers() {
    let whole = JsonNumber { repr: NumberRepr::Float, f64_bits: 8.0f64.to_bits() };
    assert!(type_::is_integer(&whole));
    assert!(!type_draft_4::is_integer(&whole));
    let big = JsonNumber { repr: NumberRepr::PosInt(u64::MAX), f64_bits: (u64::MAX as f64).to_bits() };
    assert!(type_::is_integer(&big));
    assert!(type_draft_4::is_integer(&big));
}
