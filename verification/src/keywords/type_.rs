//! The `type` keyword: an instance must be of the named primitive type, or of
//! one of the named types.
use super::{CompilationResult, KeywordValidator, ValidatorData, compiled_as, reported};
use crate::error::{
    CompilationContext, CompilationError, ErrorKindData, TypeKindData, ValidationError,
    ValidationErrorData,
};
use crate::number::{JsonNumber, is_integral_bits, is_integral_f64_bits};
use crate::primitive_type::{
    PrimitiveType, PrimitiveTypesBitMap, join_type_names, joined_names,
    lemma_type_name_round_trip, name_of_type, ordered_types, type_called,
};
use crate::value::{
    JsonData, JsonMap, JsonValue, duplicate_strings, group_json_view, values_view,
};
use vstd::prelude::*;
use vstd::string::StringExecFns;

verus! {

/// A number is an integer when it was given as one, or when its binary64 image
/// has no fractional part.
pub open spec fn is_integer_number(n: JsonNumber) -> bool {
    ||| n.repr is PosInt
    ||| n.repr is NegInt
    ||| is_integral_bits(n.f64_bits)
}

/// The instance is of primitive type `t`.
pub open spec fn instance_is(t: PrimitiveType, v: JsonData) -> bool {
    match t {
        PrimitiveType::Array => v is Array,
        PrimitiveType::Boolean => v is Bool,
        PrimitiveType::Integer => v matches JsonData::Number(n) && is_integer_number(n),
        PrimitiveType::Null => v is Null,
        PrimitiveType::Number => v is Number,
        PrimitiveType::Object => v is Object,
        PrimitiveType::String => v is String,
    }
}

/// What a `type` keyword with the set of types `types` accepts.
pub open spec fn accepted_by_types(types: Set<PrimitiveType>, v: JsonData) -> bool {
    match v {
        JsonData::Array(_) => types.contains(PrimitiveType::Array),
        JsonData::Bool(_) => types.contains(PrimitiveType::Boolean),
        JsonData::Null => types.contains(PrimitiveType::Null),
        JsonData::Number(n) => types.contains(PrimitiveType::Number) || (types.contains(
            PrimitiveType::Integer,
        ) && is_integer_number(n)),
        JsonData::Object(_) => types.contains(PrimitiveType::Object),
        JsonData::String(_) => types.contains(PrimitiveType::String),
    }
}

/// The value is a string that names the primitive type `t`.
pub open spec fn names_type(v: JsonData, t: PrimitiveType) -> bool {
    v matches JsonData::String(s) && type_called(s) == Some(t)
}

/// The value is a string that names a primitive type.
pub open spec fn names_a_type(v: JsonData) -> bool {
    v matches JsonData::String(s) && type_called(s) is Some
}

/// Every item is a string that names a primitive type.
pub open spec fn all_name_types(items: Seq<JsonData>) -> bool {
    forall|i: int|
        0 <= i < items.len() ==> names_a_type(#[trigger] items[i])
}

/// The primitive types that the items name.
pub open spec fn named_types(items: Seq<JsonData>) -> Set<PrimitiveType> {
    Set::new(
        |t: PrimitiveType|
            exists|i: int|
                0 <= i < items.len() && names_type(#[trigger] items[i], t),
    )
}

/// The validator that a `type` keyword naming `name` compiles to.
pub open spec fn single_type(name: Seq<char>, path: Seq<String>) -> Result<
    ValidatorData,
    CompilationError,
> {
    match type_called(name) {
        Some(t) => Ok(ValidatorData::SingleType(t, path)),
        None => Err(CompilationError::SchemaError),
    }
}

/// The validator that a `type` keyword listing `items` (more or fewer than one)
/// compiles to.
pub open spec fn multiple_types(items: Seq<JsonData>, path: Seq<String>) -> Result<
    ValidatorData,
    CompilationError,
> {
    if all_name_types(items) {
        Ok(ValidatorData::MultipleTypes(named_types(items), path))
    } else {
        Err(CompilationError::SchemaError)
    }
}

/// The validator that the `type` keyword with value `schema` compiles to.
pub open spec fn type_keyword(schema: JsonData, path: Seq<String>) -> Result<
    ValidatorData,
    CompilationError,
> {
    match schema {
        JsonData::String(name) => single_type(name, path),
        JsonData::Array(items) => if items.len() == 1 {
            match items[0] {
                JsonData::String(name) => single_type(name, path),
                _ => Err(CompilationError::SchemaError),
            }
        } else {
            multiple_types(items, path)
        },
        _ => Err(CompilationError::SchemaError),
    }
}

/// The `type` keyword naming `null`.
pub struct NullTypeValidator {
    pub path: Vec<String>,
}

impl NullTypeValidator {
    /// A validator that reports `path`.
    pub fn compile(path: Vec<String>) -> (r: CompilationResult)
        ensures
            compiled_as(r, Ok(ValidatorData::SingleType(PrimitiveType::Null, path@))),
    {
        Ok(KeywordValidator::NullType(NullTypeValidator { path }))
    }

    /// Whether the instance is a null.
    pub fn is_valid(&self, instance: &JsonValue) -> (r: bool)
        ensures
            r == instance_is(PrimitiveType::Null, instance@),
    {
        instance.is_null()
    }

    /// No error when the instance is a null, else one type error.
    pub fn validate(&self, instance: &JsonValue) -> (errors: Vec<ValidationError>)
        ensures
            reported(
                errors@,
                instance_is(PrimitiveType::Null, instance@),
                ValidationErrorData {
                    instance: instance@,
                    kind: ErrorKindData::Type(TypeKindData::Single(PrimitiveType::Null)),
                    schema_path: self.path@,
                },
            ),
    {
        if self.is_valid(instance) {
            Vec::new()
        } else {
            let error = ValidationError::single_type_error(
                duplicate_strings(&self.path),
                instance,
                PrimitiveType::Null,
            );
            vec![error]
        }
    }

    /// A description of the keyword.
    pub fn to_string(&self) -> (r: String)
        ensures
            r@ == "type: null"@,
    {
        String::from_str("type: null")
    }
}

/// The `type` keyword naming `boolean`.
pub struct BooleanTypeValidator {
    pub path: Vec<String>,
}

impl BooleanTypeValidator {
    /// A validator that reports `path`.
    pub fn compile(path: Vec<String>) -> (r: CompilationResult)
        ensures
            compiled_as(r, Ok(ValidatorData::SingleType(PrimitiveType::Boolean, path@))),
    {
        Ok(KeywordValidator::BooleanType(BooleanTypeValidator { path }))
    }

    /// Whether the instance is a boolean.
    pub fn is_valid(&self, instance: &JsonValue) -> (r: bool)
        ensures
            r == instance_is(PrimitiveType::Boolean, instance@),
    {
        instance.is_boolean()
    }

    /// No error when the instance is a boolean, else one type error.
    pub fn validate(&self, instance: &JsonValue) -> (errors: Vec<ValidationError>)
        ensures
            reported(
                errors@,
                instance_is(PrimitiveType::Boolean, instance@),
                ValidationErrorData {
                    instance: instance@,
                    kind: ErrorKindData::Type(TypeKindData::Single(PrimitiveType::Boolean)),
                    schema_path: self.path@,
                },
            ),
    {
        if self.is_valid(instance) {
            Vec::new()
        } else {
            let error = ValidationError::single_type_error(
                duplicate_strings(&self.path),
                instance,
                PrimitiveType::Boolean,
            );
            vec![error]
        }
    }

    /// A description of the keyword.
    pub fn to_string(&self) -> (r: String)
        ensures
            r@ == "type: boolean"@,
    {
        String::from_str("type: boolean")
    }
}

/// The `type` keyword naming `string`.
pub struct StringTypeValidator {
    pub path: Vec<String>,
}

impl StringTypeValidator {
    /// A validator that reports `path`.
    pub fn compile(path: Vec<String>) -> (r: CompilationResult)
        ensures
            compiled_as(r, Ok(ValidatorData::SingleType(PrimitiveType::String, path@))),
    {
        Ok(KeywordValidator::StringType(StringTypeValidator { path }))
    }

    /// Whether the instance is a string.
    pub fn is_valid(&self, instance: &JsonValue) -> (r: bool)
        ensures
            r == instance_is(PrimitiveType::String, instance@),
    {
        instance.is_string()
    }

    /// No error when the instance is a string, else one type error.
    pub fn validate(&self, instance: &JsonValue) -> (errors: Vec<ValidationError>)
        ensures
            reported(
                errors@,
                instance_is(PrimitiveType::String, instance@),
                ValidationErrorData {
                    instance: instance@,
                    kind: ErrorKindData::Type(TypeKindData::Single(PrimitiveType::String)),
                    schema_path: self.path@,
                },
            ),
    {
        if self.is_valid(instance) {
            Vec::new()
        } else {
            let error = ValidationError::single_type_error(
                duplicate_strings(&self.path),
                instance,
                PrimitiveType::String,
            );
            vec![error]
        }
    }

    /// A description of the keyword.
    pub fn to_string(&self) -> (r: String)
        ensures
            r@ == "type: string"@,
    {
        String::from_str("type: string")
    }
}

/// The `type` keyword naming `array`.
pub struct ArrayTypeValidator {
    pub path: Vec<String>,
}

impl ArrayTypeValidator {
    /// A validator that reports `path`.
    pub fn compile(path: Vec<String>) -> (r: CompilationResult)
        ensures
            compiled_as(r, Ok(ValidatorData::SingleType(PrimitiveType::Array, path@))),
    {
        Ok(KeywordValidator::ArrayType(ArrayTypeValidator { path }))
    }

    /// Whether the instance is an array.
    pub fn is_valid(&self, instance: &JsonValue) -> (r: bool)
        ensures
            r == instance_is(PrimitiveType::Array, instance@),
    {
        instance.is_array()
    }

    /// No error when the instance is an array, else one type error.
    pub fn validate(&self, instance: &JsonValue) -> (errors: Vec<ValidationError>)
        ensures
            reported(
                errors@,
                instance_is(PrimitiveType::Array, instance@),
                ValidationErrorData {
                    instance: instance@,
                    kind: ErrorKindData::Type(TypeKindData::Single(PrimitiveType::Array)),
                    schema_path: self.path@,
                },
            ),
    {
        if self.is_valid(instance) {
            Vec::new()
        } else {
            let error = ValidationError::single_type_error(
                duplicate_strings(&self.path),
                instance,
                PrimitiveType::Array,
            );
            vec![error]
        }
    }

    /// A description of the keyword.
    pub fn to_string(&self) -> (r: String)
        ensures
            r@ == "type: array"@,
    {
        String::from_str("type: array")
    }
}

/// The `type` keyword naming `object`.
pub struct ObjectTypeValidator {
    pub path: Vec<String>,
}

impl ObjectTypeValidator {
    /// A validator that reports `path`.
    pub fn compile(path: Vec<String>) -> (r: CompilationResult)
        ensures
            compiled_as(r, Ok(ValidatorData::SingleType(PrimitiveType::Object, path@))),
    {
        Ok(KeywordValidator::ObjectType(ObjectTypeValidator { path }))
    }

    /// Whether the instance is an object.
    pub fn is_valid(&self, instance: &JsonValue) -> (r: bool)
        ensures
            r == instance_is(PrimitiveType::Object, instance@),
    {
        instance.is_object()
    }

    /// No error when the instance is an object, else one type error.
    pub fn validate(&self, instance: &JsonValue) -> (errors: Vec<ValidationError>)
        ensures
            reported(
                errors@,
                instance_is(PrimitiveType::Object, instance@),
                ValidationErrorData {
                    instance: instance@,
                    kind: ErrorKindData::Type(TypeKindData::Single(PrimitiveType::Object)),
                    schema_path: self.path@,
                },
            ),
    {
        if self.is_valid(instance) {
            Vec::new()
        } else {
            let error = ValidationError::single_type_error(
                duplicate_strings(&self.path),
                instance,
                PrimitiveType::Object,
            );
            vec![error]
        }
    }

    /// A description of the keyword.
    pub fn to_string(&self) -> (r: String)
        ensures
            r@ == "type: object"@,
    {
        String::from_str("type: object")
    }
}

/// The `type` keyword naming `number`.
pub struct NumberTypeValidator {
    pub path: Vec<String>,
}

impl NumberTypeValidator {
    /// A validator that reports `path`.
    pub fn compile(path: Vec<String>) -> (r: CompilationResult)
        ensures
            compiled_as(r, Ok(ValidatorData::SingleType(PrimitiveType::Number, path@))),
    {
        Ok(KeywordValidator::NumberType(NumberTypeValidator { path }))
    }

    /// Whether the instance is a number.
    pub fn is_valid(&self, instance: &JsonValue) -> (r: bool)
        ensures
            r == instance_is(PrimitiveType::Number, instance@),
    {
        instance.is_number()
    }

    /// No error when the instance is a number, else one type error.
    pub fn validate(&self, instance: &JsonValue) -> (errors: Vec<ValidationError>)
        ensures
            reported(
                errors@,
                instance_is(PrimitiveType::Number, instance@),
                ValidationErrorData {
                    instance: instance@,
                    kind: ErrorKindData::Type(TypeKindData::Single(PrimitiveType::Number)),
                    schema_path: self.path@,
                },
            ),
    {
        if self.is_valid(instance) {
            Vec::new()
        } else {
            let error = ValidationError::single_type_error(
                duplicate_strings(&self.path),
                instance,
                PrimitiveType::Number,
            );
            vec![error]
        }
    }

    /// A description of the keyword.
    pub fn to_string(&self) -> (r: String)
        ensures
            r@ == "type: number"@,
    {
        String::from_str("type: number")
    }
}

/// The `type` keyword naming `integer`.
pub struct IntegerTypeValidator {
    pub path: Vec<String>,
}

impl IntegerTypeValidator {
    /// A validator that reports `path`.
    pub fn compile(path: Vec<String>) -> (r: CompilationResult)
        ensures
            compiled_as(r, Ok(ValidatorData::SingleType(PrimitiveType::Integer, path@))),
    {
        Ok(KeywordValidator::IntegerType(IntegerTypeValidator { path }))
    }

    /// Whether the instance is an integer.
    pub fn is_valid(&self, instance: &JsonValue) -> (r: bool)
        ensures
            r == instance_is(PrimitiveType::Integer, instance@),
    {
        if let JsonValue::Number(num) = instance {
            is_integer(num)
        } else {
            false
        }
    }

    /// No error when the instance is an integer, else one type error.
    pub fn validate(&self, instance: &JsonValue) -> (errors: Vec<ValidationError>)
        ensures
            reported(
                errors@,
                instance_is(PrimitiveType::Integer, instance@),
                ValidationErrorData {
                    instance: instance@,
                    kind: ErrorKindData::Type(TypeKindData::Single(PrimitiveType::Integer)),
                    schema_path: self.path@,
                },
            ),
    {
        if self.is_valid(instance) {
            Vec::new()
        } else {
            let error = ValidationError::single_type_error(
                duplicate_strings(&self.path),
                instance,
                PrimitiveType::Integer,
            );
            vec![error]
        }
    }

    /// A description of the keyword.
    pub fn to_string(&self) -> (r: String)
        ensures
            r@ == "type: integer"@,
    {
        String::from_str("type: integer")
    }
}

/// Whether a number is an integer: given as one, or with a binary64 image that
/// has no fractional part.
pub fn is_integer(num: &JsonNumber) -> (r: bool)
    ensures
        r == is_integer_number(*num),
{
    num.is_u64() || num.is_i64() || is_integral_f64_bits(num.as_f64_bits())
}

/// The `type` keyword naming several types (or none).
pub struct MultipleTypesValidator {
    pub types: PrimitiveTypesBitMap,
    pub path: Vec<String>,
}

impl MultipleTypesValidator {
    /// The validator for a list of type names; refused unless every item is a
    /// string that names a type.
    pub fn compile(items: &Vec<JsonValue>, path: Vec<String>) -> (r: CompilationResult)
        ensures
            compiled_as(r, multiple_types(values_view(items@), path@)),
    {
        let ghost vs = values_view(items@);
        let mut types = PrimitiveTypesBitMap::new();
        let mut i: usize = 0;
        while i < items.len()
            invariant
                i <= items@.len(),
                vs == values_view(items@),
                forall|j: int|
                    0 <= j < i ==> names_a_type(#[trigger] vs[j]),
                forall|t: PrimitiveType|
                    types@.contains(t) <==> exists|j: int|
                        0 <= j < i && names_type(#[trigger] vs[j], t),
            decreases items@.len() - i,
        {
            match &items[i] {
                JsonValue::String(string) => {
                    match PrimitiveType::try_from(string.as_str()) {
                        Ok(primitive_type) => {
                            let ghost before = types@;
                            types.add_type(primitive_type);
                            assert forall|t: PrimitiveType|
                                types@.contains(t) <==> exists|j: int|
                                    0 <= j < i + 1 && names_type(#[trigger] vs[j], t) by {
                                if t == primitive_type {
                                    assert(names_type(vs[i as int], t));
                                }
                            }
                        },
                        Err(()) => {
                            proof {
                                assert(!names_a_type(vs[i as int]));
                            }
                            return Err(CompilationError::SchemaError);
                        },
                    }
                },
                _ => {
                    assert(!(vs[i as int] is String));
                    return Err(CompilationError::SchemaError);
                },
            }
            i = i + 1;
        }
        assert(types@ =~= named_types(vs));
        Ok(KeywordValidator::MultipleTypes(MultipleTypesValidator { types, path }))
    }

    /// Whether the instance is of one of the types.
    pub fn is_valid(&self, instance: &JsonValue) -> (r: bool)
        ensures
            r == accepted_by_types(self.types@, instance@),
    {
        broadcast use group_json_view;

        match instance {
            JsonValue::Array(_) => self.types.contains_type(PrimitiveType::Array),
            JsonValue::Bool(_) => self.types.contains_type(PrimitiveType::Boolean),
            JsonValue::Null => self.types.contains_type(PrimitiveType::Null),
            JsonValue::Number(num) => {
                self.types.contains_type(PrimitiveType::Number) || (self.types.contains_type(
                    PrimitiveType::Integer,
                ) && is_integer(num))
            },
            JsonValue::Object(_) => self.types.contains_type(PrimitiveType::Object),
            JsonValue::String(_) => self.types.contains_type(PrimitiveType::String),
        }
    }

    /// No error when the instance is of one of the types, else one type error.
    pub fn validate(&self, instance: &JsonValue) -> (errors: Vec<ValidationError>)
        ensures
            reported(
                errors@,
                accepted_by_types(self.types@, instance@),
                ValidationErrorData {
                    instance: instance@,
                    kind: ErrorKindData::Type(TypeKindData::Multiple(self.types@)),
                    schema_path: self.path@,
                },
            ),
    {
        if self.is_valid(instance) {
            Vec::new()
        } else {
            let error = ValidationError::multiple_type_error(
                duplicate_strings(&self.path),
                instance,
                self.types,
            );
            vec![error]
        }
    }

    /// A description of the keyword: `type: [` and the type names in the order
    /// of `all_types`, separated by `", "`, then `]`.
    pub fn to_string(&self) -> (r: String)
        ensures
            r@ == "type: ["@ + joined_names(ordered_types(self.types@)) + "]"@,
    {
        let names = join_type_names(&self.types.to_vec());
        let mut out = String::from_str("type: [");
        out.append(names.as_str());
        out.append("]");
        out
    }
}

/// Compiles the `type` keyword with value `schema`: a string names one type; an
/// array of exactly one item must hold a string that names one type; any other
/// array lists several types; any other value is refused.
pub fn compile(_parent: &JsonMap, schema: &JsonValue, context: &CompilationContext) -> (r: Option<
    CompilationResult,
>)
    ensures
        r matches Some(res) && compiled_as(res, type_keyword(schema@, context.curr_path@)),
{
    broadcast use group_json_view;

    let path = context.path();
    match schema {
        JsonValue::String(item) => compile_single_type(item.as_str(), path),
        JsonValue::Array(items) => {
            if items.len() == 1 {
                if let JsonValue::String(item) = &items[0] {
                    compile_single_type(item.as_str(), path)
                } else {
                    Some(Err(CompilationError::SchemaError))
                }
            } else {
                Some(MultipleTypesValidator::compile(items, path))
            }
        },
        _ => Some(Err(CompilationError::SchemaError)),
    }
}

/// Compiles a `type` keyword that names one type; an unknown name is refused.
pub fn compile_single_type(item: &str, path: Vec<String>) -> (r: Option<CompilationResult>)
    ensures
        r matches Some(res) && compiled_as(res, single_type(item@, path@)),
{
    match PrimitiveType::try_from(item) {
        Ok(PrimitiveType::Array) => Some(ArrayTypeValidator::compile(path)),
        Ok(PrimitiveType::Boolean) => Some(BooleanTypeValidator::compile(path)),
        Ok(PrimitiveType::Integer) => Some(IntegerTypeValidator::compile(path)),
        Ok(PrimitiveType::Null) => Some(NullTypeValidator::compile(path)),
        Ok(PrimitiveType::Number) => Some(NumberTypeValidator::compile(path)),
        Ok(PrimitiveType::Object) => Some(ObjectTypeValidator::compile(path)),
        Ok(PrimitiveType::String) => Some(StringTypeValidator::compile(path)),
        Err(()) => Some(Err(CompilationError::SchemaError)),
    }
}

/// A list that holds a single type name compiles as that name alone does.
pub proof fn lemma_single_item_list_is_single_type(name: Seq<char>, path: Seq<String>)
    ensures
        type_keyword(JsonData::Array(seq![JsonData::String(name)]), path) == type_keyword(
            JsonData::String(name),
            path,
        ),
{
}

/// A list of types accepts exactly the instances that one of its types accepts.
pub proof fn lemma_types_accept_union(types: Set<PrimitiveType>, v: JsonData)
    ensures
        accepted_by_types(types, v) <==> exists|t: PrimitiveType|
            types.contains(t) && #[trigger] instance_is(t, v),
{
    if accepted_by_types(types, v) {
        match v {
            JsonData::Array(_) => assert(instance_is(PrimitiveType::Array, v)),
            JsonData::Bool(_) => assert(instance_is(PrimitiveType::Boolean, v)),
            JsonData::Null => assert(instance_is(PrimitiveType::Null, v)),
            JsonData::Number(n) => {
                assert(instance_is(PrimitiveType::Number, v));
                assert(instance_is(PrimitiveType::Integer, v) == is_integer_number(n));
            },
            JsonData::Object(_) => assert(instance_is(PrimitiveType::Object, v)),
            JsonData::String(_) => assert(instance_is(PrimitiveType::String, v)),
        }
    }
}

/// Every integer is a number.
pub proof fn lemma_integer_is_number(v: JsonData)
    ensures
        instance_is(PrimitiveType::Integer, v) ==> instance_is(PrimitiveType::Number, v),
{
}

/// The type list that a `type` keyword compiles to depends on the names it
/// holds, not on their order or repetition.
pub proof fn lemma_type_list_order_irrelevant(
    items1: Seq<JsonData>,
    items2: Seq<JsonData>,
    path: Seq<String>,
)
    requires
        forall|x: JsonData| items1.contains(x) <==> items2.contains(x),
    ensures
        multiple_types(items1, path) == multiple_types(items2, path),
{
    assert(all_name_types(items1) == all_name_types(items2)) by {
        if all_name_types(items1) {
            assert forall|i: int| 0 <= i < items2.len() implies names_a_type(
                #[trigger] items2[i],
            ) by {
                assert(items2.contains(items2[i]));
                let j = choose|j: int| 0 <= j < items1.len() && items1[j] == items2[i];
                assert(names_a_type(items1[j]));
            }
        }
        if all_name_types(items2) {
            assert forall|i: int| 0 <= i < items1.len() implies names_a_type(
                #[trigger] items1[i],
            ) by {
                assert(items1.contains(items1[i]));
                let j = choose|j: int| 0 <= j < items2.len() && items2[j] == items1[i];
                assert(names_a_type(items2[j]));
            }
        }
    }
    assert forall|t: PrimitiveType| named_types(items1).contains(t) <==> named_types(
        items2,
    ).contains(t) by {
        if named_types(items1).contains(t) {
            let i = choose|i: int| 0 <= i < items1.len() && names_type(#[trigger] items1[i], t);
            assert(items1.contains(items1[i]));
            let j = choose|j: int| 0 <= j < items2.len() && items2[j] == items1[i];
            assert(names_type(items2[j], t));
        }
        if named_types(items2).contains(t) {
            let i = choose|i: int| 0 <= i < items2.len() && names_type(#[trigger] items2[i], t);
            assert(items2.contains(items2[i]));
            let j = choose|j: int| 0 <= j < items1.len() && items1[j] == items2[i];
            assert(names_type(items1[j], t));
        }
    }
    assert(named_types(items1) =~= named_types(items2));
}

/// Each primitive type other than `integer` is decided by the kind of the
/// instance alone, whatever its value; `integer` accepts a number exactly when
/// it was given as an integer or its double has no fractional part.
pub proof fn lemma_type_by_kind(v: JsonData)
    ensures
        instance_is(PrimitiveType::Array, v) <==> v is Array,
        instance_is(PrimitiveType::Boolean, v) <==> v is Bool,
        instance_is(PrimitiveType::Null, v) <==> v is Null,
        instance_is(PrimitiveType::Number, v) <==> v is Number,
        instance_is(PrimitiveType::Object, v) <==> v is Object,
        instance_is(PrimitiveType::String, v) <==> v is String,
        instance_is(PrimitiveType::Integer, v) <==> (v is Number && (v->Number_0.repr is PosInt
            || v->Number_0.repr is NegInt || is_integral_bits(v->Number_0.f64_bits))),
        forall|b: bool| #[trigger] instance_is(PrimitiveType::Boolean, JsonData::Bool(b)),
{
}

/// An item names a type exactly when it is the string that is that type's
/// name; the named set holds exactly the types whose names occur among the
/// items.
pub proof fn lemma_named_types_by_name(items: Seq<JsonData>)
    ensures
        all_name_types(items) <==> forall|i: int|
            0 <= i < items.len() ==> exists|t: PrimitiveType|
                #[trigger] items[i] == JsonData::String(name_of_type(t)),
        forall|t: PrimitiveType|
            named_types(items).contains(t) <==> exists|i: int|
                0 <= i < items.len() && #[trigger] items[i] == JsonData::String(name_of_type(t)),
{
    assert forall|i: int, t: PrimitiveType| 0 <= i < items.len() implies #[trigger] names_type(
        items[i],
        t,
    ) == (items[i] == JsonData::String(name_of_type(t))) by {
        if let JsonData::String(s) = items[i] {
            lemma_type_name_round_trip(t, s);
        }
    }
    assert forall|i: int| 0 <= i < items.len() implies names_a_type(#[trigger] items[i]) == exists|
        t: PrimitiveType,
    | items[i] == JsonData::String(name_of_type(t)) by {
        if names_a_type(items[i]) {
            let t = type_called(items[i]->String_0).unwrap();
            assert(names_type(items[i], t));
        }
        if exists|t: PrimitiveType| items[i] == JsonData::String(name_of_type(t)) {
            let t = choose|t: PrimitiveType| items[i] == JsonData::String(name_of_type(t));
            assert(names_type(items[i], t));
        }
    }
    assert forall|t: PrimitiveType| named_types(items).contains(t) <==> exists|i: int|
        0 <= i < items.len() && #[trigger] items[i] == JsonData::String(name_of_type(t)) by {
        if named_types(items).contains(t) {
            let i = choose|i: int| 0 <= i < items.len() && names_type(#[trigger] items[i], t);
            assert(items[i] == JsonData::String(name_of_type(t)));
        }
        if exists|i: int|
            0 <= i < items.len() && #[trigger] items[i] == JsonData::String(name_of_type(t)) {
            let i = choose|i: int|
                0 <= i < items.len() && #[trigger] items[i] == JsonData::String(name_of_type(t));
            assert(names_type(items[i], t));
        }
    }
}

/// A list of type names (other than exactly one) compiles exactly when every
/// item is the name of a type, and then to the set of every type that some
/// item names, reporting `path`.
pub proof fn lemma_type_list_compiles_to_named_set(items: Seq<JsonData>, path: Seq<String>)
    ensures
        multiple_types(items, path) is Ok <==> forall|i: int|
            0 <= i < items.len() ==> exists|t: PrimitiveType|
                #[trigger] items[i] == JsonData::String(name_of_type(t)),
        multiple_types(items, path) matches Ok(d) ==> (d matches ValidatorData::MultipleTypes(
            set,
            p,
        ) && p == path && forall|t: PrimitiveType|
            set.contains(t) <==> exists|i: int|
                0 <= i < items.len() && #[trigger] items[i] == JsonData::String(name_of_type(t))),
        multiple_types(items, path) matches Err(e) ==> e == CompilationError::SchemaError,
        items.len() != 1 ==> type_keyword(JsonData::Array(items), path) == multiple_types(
            items,
            path,
        ),
{
    lemma_named_types_by_name(items);
}

/// A string compiles to the validator of the type it names, and is refused when
/// it names none; a one-item list compiles as its item does when that is a
/// string, and is refused otherwise; a value that is neither a string nor a list
/// is refused.
pub proof fn lemma_type_keyword_outcomes(schema: JsonData, path: Seq<String>, t: PrimitiveType)
    ensures
        schema == JsonData::String(name_of_type(t)) ==> type_keyword(schema, path) == Ok::<
            ValidatorData,
            CompilationError,
        >(ValidatorData::SingleType(t, path)),
        schema == JsonData::Array(seq![JsonData::String(name_of_type(t))]) ==> type_keyword(
            schema,
            path,
        ) == Ok::<ValidatorData, CompilationError>(ValidatorData::SingleType(t, path)),
        (schema is String && forall|u: PrimitiveType| schema->String_0 != name_of_type(u))
            ==> type_keyword(schema, path) == Err::<ValidatorData, CompilationError>(
            CompilationError::SchemaError,
        ),
        (schema is Array && schema->Array_0.len() == 1 && !(schema->Array_0[0] is String))
            ==> type_keyword(schema, path) == Err::<ValidatorData, CompilationError>(
            CompilationError::SchemaError,
        ),
        !(schema is String || schema is Array) ==> type_keyword(schema, path) == Err::<
            ValidatorData,
            CompilationError,
        >(CompilationError::SchemaError),
{
    lemma_type_name_round_trip(t, name_of_type(t));
    if let JsonData::String(s) = schema {
        if type_called(s) is Some {
            lemma_type_name_round_trip(type_called(s).unwrap(), s);
        }
    }
    if let JsonData::Array(items) = schema {
        if items.len() == 1 {
            if let JsonData::String(s) = items[0] {
                if type_called(s) is Some {
                    lemma_type_name_round_trip(type_called(s).unwrap(), s);
                }
            }
        }
    }
}

} // verus!
