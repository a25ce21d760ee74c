//! What compiling a keyword and validating an instance can report.
use crate::number::JsonNumber;
use crate::primitive_type::{PrimitiveType, PrimitiveTypesBitMap};
use crate::value::{
    JsonData, JsonMap, JsonValue, duplicate_strings, duplicate_values, group_json_view, values_view,
};
use vstd::prelude::*;

verus! {

/// A keyword's value in a schema is not one that the keyword accepts.
#[derive(Clone, Copy, Debug, PartialEq, Eq, Structural)]
pub enum CompilationError {
    SchemaError,
}

/// The types that a `type` keyword expected.
#[derive(Clone, Copy, Debug)]
pub enum TypeKind {
    Single(PrimitiveType),
    Multiple(PrimitiveTypesBitMap),
}

/// The model of a `TypeKind`.
pub ghost enum TypeKindData {
    Single(PrimitiveType),
    Multiple(Set<PrimitiveType>),
}

impl View for TypeKind {
    type V = TypeKindData;

    open spec fn view(&self) -> TypeKindData {
        match self {
            TypeKind::Single(t) => TypeKindData::Single(*t),
            TypeKind::Multiple(types) => TypeKindData::Multiple(types@),
        }
    }
}

/// Why an instance was refused.
pub enum ValidationErrorKind {
    /// The instance is not of the expected type(s).
    Type { kind: TypeKind },
    /// The instance is not the constant that `const` expects.
    Constant { expected_value: JsonValue },
    /// The instance is not a multiple of the number that `multipleOf` holds.
    MultipleOf { multiple_of: JsonNumber },
}

/// The model of a `ValidationErrorKind`.
pub ghost enum ErrorKindData {
    Type(TypeKindData),
    Constant(JsonData),
    MultipleOf(JsonNumber),
}

impl View for ValidationErrorKind {
    type V = ErrorKindData;

    open spec fn view(&self) -> ErrorKindData {
        match self {
            ValidationErrorKind::Type { kind } => ErrorKindData::Type(kind@),
            ValidationErrorKind::Constant { expected_value } => ErrorKindData::Constant(
                expected_value@,
            ),
            ValidationErrorKind::MultipleOf { multiple_of } => ErrorKindData::MultipleOf(
                *multiple_of,
            ),
        }
    }
}

/// An instance refused by a keyword.
pub struct ValidationError {
    /// The refused instance.
    pub instance: JsonValue,
    /// Why it was refused.
    pub kind: ValidationErrorKind,
    /// Where, in the schema, the refusing keyword stands.
    pub schema_path: Vec<String>,
}

/// The model of a `ValidationError`.
pub ghost struct ValidationErrorData {
    pub instance: JsonData,
    pub kind: ErrorKindData,
    pub schema_path: Seq<String>,
}

impl View for ValidationError {
    type V = ValidationErrorData;

    open spec fn view(&self) -> ValidationErrorData {
        ValidationErrorData {
            instance: self.instance@,
            kind: self.kind@,
            schema_path: self.schema_path@,
        }
    }
}

impl ValidationError {
    /// The instance is not of type `expected`.
    pub fn single_type_error(
        schema_path: Vec<String>,
        instance: &JsonValue,
        expected: PrimitiveType,
    ) -> (r: ValidationError)
        ensures
            r@ == (ValidationErrorData {
                instance: instance@,
                kind: ErrorKindData::Type(TypeKindData::Single(expected)),
                schema_path: schema_path@,
            }),
    {
        ValidationError {
            instance: instance.duplicate(),
            kind: ValidationErrorKind::Type { kind: TypeKind::Single(expected) },
            schema_path,
        }
    }

    /// The instance is of none of the types in `types`.
    pub fn multiple_type_error(
        schema_path: Vec<String>,
        instance: &JsonValue,
        types: PrimitiveTypesBitMap,
    ) -> (r: ValidationError)
        ensures
            r@ == (ValidationErrorData {
                instance: instance@,
                kind: ErrorKindData::Type(TypeKindData::Multiple(types@)),
                schema_path: schema_path@,
            }),
    {
        ValidationError {
            instance: instance.duplicate(),
            kind: ValidationErrorKind::Type { kind: TypeKind::Multiple(types) },
            schema_path,
        }
    }

    /// The instance is not the array constant `expected`.
    pub fn constant_array(
        schema_path: Vec<String>,
        instance: &JsonValue,
        expected: &Vec<JsonValue>,
    ) -> (r: ValidationError)
        ensures
            r@ == (ValidationErrorData {
                instance: instance@,
                kind: ErrorKindData::Constant(JsonValue::Array(*expected)@),
                schema_path: schema_path@,
            }),
    {
        broadcast use group_json_view;

        let copy = JsonValue::Array(duplicate_values(expected));
        assert(values_view(copy->Array_0@) =~= values_view(expected@));
        ValidationError {
            instance: instance.duplicate(),
            kind: ValidationErrorKind::Constant { expected_value: copy },
            schema_path,
        }
    }

    /// The instance is not the boolean constant `expected`.
    pub fn constant_boolean(schema_path: Vec<String>, instance: &JsonValue, expected: bool) -> (r:
        ValidationError)
        ensures
            r@ == (ValidationErrorData {
                instance: instance@,
                kind: ErrorKindData::Constant(JsonData::Bool(expected)),
                schema_path: schema_path@,
            }),
    {
        ValidationError {
            instance: instance.duplicate(),
            kind: ValidationErrorKind::Constant { expected_value: JsonValue::Bool(expected) },
            schema_path,
        }
    }

    /// The instance is not `null`.
    pub fn constant_null(schema_path: Vec<String>, instance: &JsonValue) -> (r: ValidationError)
        ensures
            r@ == (ValidationErrorData {
                instance: instance@,
                kind: ErrorKindData::Constant(JsonData::Null),
                schema_path: schema_path@,
            }),
    {
        ValidationError {
            instance: instance.duplicate(),
            kind: ValidationErrorKind::Constant { expected_value: JsonValue::Null },
            schema_path,
        }
    }

    /// The instance is not the number constant `expected`.
    pub fn constant_number(
        schema_path: Vec<String>,
        instance: &JsonValue,
        expected: &JsonNumber,
    ) -> (r: ValidationError)
        ensures
            r@ == (ValidationErrorData {
                instance: instance@,
                kind: ErrorKindData::Constant(JsonData::Number(*expected)),
                schema_path: schema_path@,
            }),
    {
        ValidationError {
            instance: instance.duplicate(),
            kind: ValidationErrorKind::Constant { expected_value: JsonValue::Number(*expected) },
            schema_path,
        }
    }

    /// The instance is not the object constant `expected`.
    pub fn constant_object(schema_path: Vec<String>, instance: &JsonValue, expected: &JsonMap) -> (r:
        ValidationError)
        ensures
            r@ == (ValidationErrorData {
                instance: instance@,
                kind: ErrorKindData::Constant(JsonData::Object(expected@)),
                schema_path: schema_path@,
            }),
    {
        ValidationError {
            instance: instance.duplicate(),
            kind: ValidationErrorKind::Constant { expected_value: JsonValue::Object(expected.duplicate()) },
            schema_path,
        }
    }

    /// The instance is not the string constant `expected`.
    pub fn constant_string(schema_path: Vec<String>, instance: &JsonValue, expected: &String) -> (r:
        ValidationError)
        ensures
            r@ == (ValidationErrorData {
                instance: instance@,
                kind: ErrorKindData::Constant(JsonData::String(expected@)),
                schema_path: schema_path@,
            }),
    {
        ValidationError {
            instance: instance.duplicate(),
            kind: ValidationErrorKind::Constant { expected_value: JsonValue::String(expected.clone()) },
            schema_path,
        }
    }

    /// The instance is not a multiple of `multiple_of`.
    pub fn multiple_of(schema_path: Vec<String>, instance: &JsonValue, multiple_of: JsonNumber) -> (r:
        ValidationError)
        ensures
            r@ == (ValidationErrorData {
                instance: instance@,
                kind: ErrorKindData::MultipleOf(multiple_of),
                schema_path: schema_path@,
            }),
    {
        ValidationError {
            instance: instance.duplicate(),
            kind: ValidationErrorKind::MultipleOf { multiple_of },
            schema_path,
        }
    }
}

/// Where, in the schema, compilation currently stands.
pub struct CompilationContext {
    pub curr_path: Vec<String>,
}

impl CompilationContext {
    /// A copy of the current schema path.
    pub fn path(&self) -> (r: Vec<String>)
        ensures
            r@ == self.curr_path@,
    {
        duplicate_strings(&self.curr_path)
    }
}

} // verus!
