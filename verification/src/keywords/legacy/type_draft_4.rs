//! The `type` keyword as draft 4 defines it: an integer is a number given as an
//! integer, whatever its value.
use crate::keywords::type_::{
    ArrayTypeValidator, BooleanTypeValidator, NullTypeValidator, NumberTypeValidator,
    ObjectTypeValidator, StringTypeValidator, all_name_types, instance_is, lemma_type_by_kind, lemma_named_types_by_name,
    lemma_type_list_order_irrelevant, named_types, single_type, names_a_type, names_type,
};
use crate::keywords::{CompilationResult, KeywordValidator, ValidatorData, compiled_as, reported};
use crate::error::{
    CompilationContext, CompilationError, ErrorKindData, TypeKindData, ValidationError,
    ValidationErrorData,
};
use crate::number::JsonNumber;
use crate::primitive_type::{
    PrimitiveType, PrimitiveTypesBitMap, join_type_names, joined_names, lemma_type_name_round_trip,
    name_of_type, ordered_types, type_called,
};
use crate::value::{JsonData, JsonMap, JsonValue, duplicate_strings, group_json_view, values_view};
use vstd::prelude::*;
use vstd::string::StringExecFns;

verus! {

/// A number is a draft-4 integer when it was given as an integer.
pub open spec fn is_integer_number_draft4(n: JsonNumber) -> bool {
    n.repr is PosInt || n.repr is NegInt
}

/// The instance is of primitive type `t`, as draft 4 counts integers.
pub open spec fn instance_is_draft4(t: PrimitiveType, v: JsonData) -> bool {
    if t == PrimitiveType::Integer {
        v matches JsonData::Number(n) && is_integer_number_draft4(n)
    } else {
        instance_is(t, v)
    }
}

/// What a draft-4 `type` keyword with the set of types `types` accepts.
pub open spec fn accepted_by_types_draft4(types: Set<PrimitiveType>, v: JsonData) -> bool {
    match v {
        JsonData::Array(_) => types.contains(PrimitiveType::Array),
        JsonData::Bool(_) => types.contains(PrimitiveType::Boolean),
        JsonData::Null => types.contains(PrimitiveType::Null),
        JsonData::Number(n) => types.contains(PrimitiveType::Number) || (types.contains(
            PrimitiveType::Integer,
        ) && is_integer_number_draft4(n)),
        JsonData::Object(_) => types.contains(PrimitiveType::Object),
        JsonData::String(_) => types.contains(PrimitiveType::String),
    }
}

/// The validator that a draft-4 `type` keyword naming `name` compiles to.
pub open spec fn single_type_draft4(name: Seq<char>, path: Seq<String>) -> Result<
    ValidatorData,
    CompilationError,
> {
    match type_called(name) {
        Some(PrimitiveType::Integer) => Ok(ValidatorData::IntegerTypeDraft4(path)),
        Some(t) => Ok(ValidatorData::SingleType(t, path)),
        None => Err(CompilationError::SchemaError),
    }
}

/// The validator that a draft-4 `type` keyword listing `items` (more or fewer
/// than one) compiles to.
pub open spec fn multiple_types_draft4(items: Seq<JsonData>, path: Seq<String>) -> Result<
    ValidatorData,
    CompilationError,
> {
    if all_name_types(items) {
        Ok(ValidatorData::MultipleTypesDraft4(named_types(items), path))
    } else {
        Err(CompilationError::SchemaError)
    }
}

/// The validator that the draft-4 `type` keyword with value `schema` compiles to.
pub open spec fn type_keyword_draft4(schema: JsonData, path: Seq<String>) -> Result<
    ValidatorData,
    CompilationError,
> {
    match schema {
        JsonData::String(name) => single_type_draft4(name, path),
        JsonData::Array(items) => if items.len() == 1 {
            match items[0] {
                JsonData::String(name) => single_type_draft4(name, path),
                _ => Err(CompilationError::SchemaError),
            }
        } else {
            multiple_types_draft4(items, path)
        },
        _ => Err(CompilationError::SchemaError),
    }
}

/// The draft-4 `type` keyword naming several types (or none).
pub struct MultipleTypesValidator {
    pub types: PrimitiveTypesBitMap,
    pub path: Vec<String>,
}

impl MultipleTypesValidator {
    /// The validator for a list of type names; refused unless every item is a
    /// string that names a type.
    pub fn compile(items: &Vec<JsonValue>, path: Vec<String>) -> (r: CompilationResult)
        ensures
            compiled_as(r, multiple_types_draft4(values_view(items@), path@)),
    {
        let ghost vs = values_view(items@);
        let mut types = PrimitiveTypesBitMap::new();
        let mut i: usize = 0;
        while i < items.len()
            invariant
                i <= items@.len(),
                vs == values_view(items@),
                forall|j: int|
                    0 <= j < i ==> names_a_type(#[trigger] vs[j]),
                forall|t: PrimitiveType|
                    types@.contains(t) <==> exists|j: int|
                        0 <= j < i && names_type(#[trigger] vs[j], t),
            decreases items@.len() - i,
        {
            match &items[i] {
                JsonValue::String(string) => {
                    match PrimitiveType::try_from(string.as_str()) {
                        Ok(primitive_type) => {
                            types.add_type(primitive_type);
                            assert forall|t: PrimitiveType|
                                types@.contains(t) <==> exists|j: int|
                                    0 <= j < i + 1 && names_type(#[trigger] vs[j], t) by {
                                if t == primitive_type {
                                    assert(names_type(vs[i as int], t));
                                }
                            }
                        },
                        Err(()) => {
                            proof {
                                assert(!names_a_type(vs[i as int]));
                            }
                            return Err(CompilationError::SchemaError);
                        },
                    }
                },
                _ => {
                    assert(!(vs[i as int] is String));
                    return Err(CompilationError::SchemaError);
                },
            }
            i = i + 1;
        }
        assert(types@ =~= named_types(vs));
        Ok(KeywordValidator::MultipleTypesDraft4(MultipleTypesValidator { types, path }))
    }

    /// Whether the instance is of one of the types.
    pub fn is_valid(&self, instance: &JsonValue) -> (r: bool)
        ensures
            r == accepted_by_types_draft4(self.types@, instance@),
    {
        broadcast use group_json_view;

        match instance {
            JsonValue::Array(_) => self.types.contains_type(PrimitiveType::Array),
            JsonValue::Bool(_) => self.types.contains_type(PrimitiveType::Boolean),
            JsonValue::Null => self.types.contains_type(PrimitiveType::Null),
            JsonValue::Number(num) => {
                self.types.contains_type(PrimitiveType::Number) || (self.types.contains_type(
                    PrimitiveType::Integer,
                ) && is_integer(num))
            },
            JsonValue::Object(_) => self.types.contains_type(PrimitiveType::Object),
            JsonValue::String(_) => self.types.contains_type(PrimitiveType::String),
        }
    }

    /// No error when the instance is of one of the types, else one type error.
    pub fn validate(&self, instance: &JsonValue) -> (errors: Vec<ValidationError>)
        ensures
            reported(
                errors@,
                accepted_by_types_draft4(self.types@, instance@),
                ValidationErrorData {
                    instance: instance@,
                    kind: ErrorKindData::Type(TypeKindData::Multiple(self.types@)),
                    schema_path: self.path@,
                },
            ),
    {
        if self.is_valid(instance) {
            Vec::new()
        } else {
            let error = ValidationError::multiple_type_error(
                duplicate_strings(&self.path),
                instance,
                self.types,
            );
            vec![error]
        }
    }

    /// A description of the keyword: `type: [` and the type names in the order
    /// of `all_types`, separated by `", "`, then `]`.
    pub fn to_string(&self) -> (r: String)
        ensures
            r@ == "type: ["@ + joined_names(ordered_types(self.types@)) + "]"@,
    {
        let names = join_type_names(&self.types.to_vec());
        let mut out = String::from_str("type: [");
        out.append(names.as_str());
        out.append("]");
        out
    }
}

/// The draft-4 `type` keyword naming `integer`.
pub struct IntegerTypeValidator {
    pub path: Vec<String>,
}

impl IntegerTypeValidator {
    /// A validator that reports `path`.
    pub fn compile(path: Vec<String>) -> (r: CompilationResult)
        ensures
            compiled_as(r, Ok(ValidatorData::IntegerTypeDraft4(path@))),
    {
        Ok(KeywordValidator::IntegerTypeDraft4(IntegerTypeValidator { path }))
    }

    /// Whether the instance is a number given as an integer.
    pub fn is_valid(&self, instance: &JsonValue) -> (r: bool)
        ensures
            r == instance_is_draft4(PrimitiveType::Integer, instance@),
    {
        if let JsonValue::Number(num) = instance {
            is_integer(num)
        } else {
            false
        }
    }

    /// No error when the instance is a number given as an integer, else one type
    /// error.
    pub fn validate(&self, instance: &JsonValue) -> (errors: Vec<ValidationError>)
        ensures
            reported(
                errors@,
                instance_is_draft4(PrimitiveType::Integer, instance@),
                ValidationErrorData {
                    instance: instance@,
                    kind: ErrorKindData::Type(TypeKindData::Single(PrimitiveType::Integer)),
                    schema_path: self.path@,
                },
            ),
    {
        if self.is_valid(instance) {
            Vec::new()
        } else {
            let error = ValidationError::single_type_error(
                duplicate_strings(&self.path),
                instance,
                PrimitiveType::Integer,
            );
            vec![error]
        }
    }

    /// A description of the keyword.
    pub fn to_string(&self) -> (r: String)
        ensures
            r@ == "type: integer"@,
    {
        String::from_str("type: integer")
    }
}

/// Whether a number was given as an integer.
pub fn is_integer(num: &JsonNumber) -> (r: bool)
    ensures
        r == is_integer_number_draft4(*num),
{
    num.is_u64() || num.is_i64()
}

/// Compiles the draft-4 `type` keyword with value `schema`: a string names one
/// type; an array of exactly one item must hold a string that names one type;
/// any other array lists several types; any other value is refused.
pub fn compile(_parent: &JsonMap, schema: &JsonValue, context: &CompilationContext) -> (r: Option<
    CompilationResult,
>)
    ensures
        r matches Some(res) && compiled_as(res, type_keyword_draft4(schema@, context.curr_path@)),
{
    broadcast use group_json_view;

    let path = context.path();
    match schema {
        JsonValue::String(item) => compile_single_type(item.as_str(), path),
        JsonValue::Array(items) => {
            if items.len() == 1 {
                if let JsonValue::String(item) = &items[0] {
                    compile_single_type(item.as_str(), path)
                } else {
                    Some(Err(CompilationError::SchemaError))
                }
            } else {
                Some(MultipleTypesValidator::compile(items, path))
            }
        },
        _ => Some(Err(CompilationError::SchemaError)),
    }
}

/// Compiles a draft-4 `type` keyword that names one type; an unknown name is
/// refused.
pub fn compile_single_type(item: &str, path: Vec<String>) -> (r: Option<CompilationResult>)
    ensures
        r matches Some(res) && compiled_as(res, single_type_draft4(item@, path@)),
{
    match PrimitiveType::try_from(item) {
        Ok(PrimitiveType::Array) => Some(ArrayTypeValidator::compile(path)),
        Ok(PrimitiveType::Boolean) => Some(BooleanTypeValidator::compile(path)),
        Ok(PrimitiveType::Integer) => Some(IntegerTypeValidator::compile(path)),
        Ok(PrimitiveType::Null) => Some(NullTypeValidator::compile(path)),
        Ok(PrimitiveType::Number) => Some(NumberTypeValidator::compile(path)),
        Ok(PrimitiveType::Object) => Some(ObjectTypeValidator::compile(path)),
        Ok(PrimitiveType::String) => Some(StringTypeValidator::compile(path)),
        Err(()) => Some(Err(CompilationError::SchemaError)),
    }
}

/// A list that holds a single type name compiles as that name alone does.
pub proof fn lemma_single_item_list_is_single_type_draft4(name: Seq<char>, path: Seq<String>)
    ensures
        type_keyword_draft4(JsonData::Array(seq![JsonData::String(name)]), path)
            == type_keyword_draft4(JsonData::String(name), path),
{
}

/// A list of types accepts exactly the instances that one of its types accepts.
pub proof fn lemma_types_accept_union_draft4(types: Set<PrimitiveType>, v: JsonData)
    ensures
        accepted_by_types_draft4(types, v) <==> exists|t: PrimitiveType|
            types.contains(t) && #[trigger] instance_is_draft4(t, v),
{
    if accepted_by_types_draft4(types, v) {
        match v {
            JsonData::Array(_) => assert(instance_is_draft4(PrimitiveType::Array, v)),
            JsonData::Bool(_) => assert(instance_is_draft4(PrimitiveType::Boolean, v)),
            JsonData::Null => assert(instance_is_draft4(PrimitiveType::Null, v)),
            JsonData::Number(n) => {
                assert(instance_is_draft4(PrimitiveType::Number, v));
                assert(instance_is_draft4(PrimitiveType::Integer, v) == is_integer_number_draft4(n));
            },
            JsonData::Object(_) => assert(instance_is_draft4(PrimitiveType::Object, v)),
            JsonData::String(_) => assert(instance_is_draft4(PrimitiveType::String, v)),
        }
    }
}

/// What draft 4 counts as an integer, later drafts count as one too; and every
/// draft-4 integer is a number.
pub proof fn lemma_draft4_integer_is_integer(v: JsonData)
    ensures
        instance_is_draft4(PrimitiveType::Integer, v) ==> instance_is(PrimitiveType::Integer, v),
        instance_is_draft4(PrimitiveType::Integer, v) ==> instance_is_draft4(
            PrimitiveType::Number,
            v,
        ),
{
}

/// The drafts differ only on `integer`: a name other than `integer` compiles
/// to the same validator under both.
pub proof fn lemma_drafts_agree_except_integer(name: Seq<char>, path: Seq<String>)
    requires
        type_called(name) != Some(PrimitiveType::Integer),
    ensures
        single_type_draft4(name, path) == single_type(name, path),
{
}

/// The type list that a draft-4 `type` keyword compiles to depends on the names
/// it holds, not on their order or repetition.
pub proof fn lemma_type_list_order_irrelevant_draft4(
    items1: Seq<JsonData>,
    items2: Seq<JsonData>,
    path: Seq<String>,
)
    requires
        forall|x: JsonData| items1.contains(x) <==> items2.contains(x),
    ensures
        multiple_types_draft4(items1, path) == multiple_types_draft4(items2, path),
{
    lemma_type_list_order_irrelevant(items1, items2, path);
}

/// Under draft 4 each primitive type other than `integer` is decided as in later
/// drafts, by the kind of the instance alone; `integer` accepts a number exactly
/// when it was given as an integer (of any value, zero included), whatever its
/// double.
pub proof fn lemma_type_by_kind_draft4(v: JsonData)
    ensures
        instance_is_draft4(PrimitiveType::Array, v) <==> v is Array,
        instance_is_draft4(PrimitiveType::Boolean, v) <==> v is Bool,
        instance_is_draft4(PrimitiveType::Null, v) <==> v is Null,
        instance_is_draft4(PrimitiveType::Number, v) <==> v is Number,
        instance_is_draft4(PrimitiveType::Object, v) <==> v is Object,
        instance_is_draft4(PrimitiveType::String, v) <==> v is String,
        instance_is_draft4(PrimitiveType::Integer, v) <==> (v is Number && (v->Number_0.repr is PosInt
            || v->Number_0.repr is NegInt)),
        forall|n: JsonNumber|
            #![trigger instance_is_draft4(PrimitiveType::Integer, JsonData::Number(n))]
            (n.repr is PosInt || n.repr is NegInt) ==> instance_is_draft4(
                PrimitiveType::Integer,
                JsonData::Number(n),
            ),
{
    lemma_type_by_kind(v);
}

/// A draft-4 list of type names (other than exactly one) compiles exactly when
/// every item is the name of a type, and then to the set of every type that
/// some item names, reporting `path`.
pub proof fn lemma_type_list_compiles_to_named_set_draft4(items: Seq<JsonData>, path: Seq<String>)
    ensures
        multiple_types_draft4(items, path) is Ok <==> forall|i: int|
            0 <= i < items.len() ==> exists|t: PrimitiveType|
                #[trigger] items[i] == JsonData::String(name_of_type(t)),
        multiple_types_draft4(items, path) matches Ok(d) ==> (
        d matches ValidatorData::MultipleTypesDraft4(set, p) && p == path && forall|
            t: PrimitiveType,
        |
            set.contains(t) <==> exists|i: int|
                0 <= i < items.len() && #[trigger] items[i] == JsonData::String(name_of_type(t))),
        multiple_types_draft4(items, path) matches Err(e) ==> e == CompilationError::SchemaError,
        items.len() != 1 ==> type_keyword_draft4(JsonData::Array(items), path)
            == multiple_types_draft4(items, path),
{
    lemma_named_types_by_name(items);
}

/// Under draft 4 a string compiles to the validator of the type it names
/// (`integer` to the draft-4 integer check) and is refused when it names none;
/// a one-item list compiles as its item does when that is a string, and is
/// refused otherwise; a value that is neither a string nor a list is refused.
pub proof fn lemma_type_keyword_outcomes_draft4(
    schema: JsonData,
    path: Seq<String>,
    t: PrimitiveType,
)
    ensures
        schema == JsonData::String(name_of_type(t)) ==> type_keyword_draft4(schema, path) == Ok::<
            ValidatorData,
            CompilationError,
        >(
            if t == PrimitiveType::Integer {
                ValidatorData::IntegerTypeDraft4(path)
            } else {
                ValidatorData::SingleType(t, path)
            },
        ),
        schema == JsonData::Array(seq![JsonData::String(name_of_type(t))]) ==> type_keyword_draft4(
            schema,
            path,
        ) == type_keyword_draft4(JsonData::String(name_of_type(t)), path),
        (schema is String && forall|u: PrimitiveType| schema->String_0 != name_of_type(u))
            ==> type_keyword_draft4(schema, path) == Err::<ValidatorData, CompilationError>(
            CompilationError::SchemaError,
        ),
        (schema is Array && schema->Array_0.len() == 1 && !(schema->Array_0[0] is String))
            ==> type_keyword_draft4(schema, path) == Err::<ValidatorData, CompilationError>(
            CompilationError::SchemaError,
        ),
        !(schema is String || schema is Array) ==> type_keyword_draft4(schema, path) == Err::<
            ValidatorData,
            CompilationError,
        >(CompilationError::SchemaError),
{
    lemma_type_name_round_trip(t, name_of_type(t));
    if let JsonData::String(s) = schema {
        if type_called(s) is Some {
            lemma_type_name_round_trip(type_called(s).unwrap(), s);
        }
    }
}

} // verus!
