//! The keywords `type`, `const` and `multipleOf`, compiled from a schema into validators.
pub mod const_;
pub mod helpers;
pub mod legacy;
pub mod multiple_of;
pub mod type_;

use crate::error::{
    CompilationError, ErrorKindData, TypeKindData, ValidationError, ValidationErrorData,
};
use crate::number::{JsonNumber, is_integral_bits, is_integral_f64_bits};
use multiple_of::{multiple_of_float_accepts, multiple_of_integer_accepts};
use crate::primitive_type::PrimitiveType;
use crate::value::{
    JsonData, JsonValue, json_equal, json_wf, lemma_json_equal_reflexive,
    lemma_json_equal_symmetric,
};
use legacy::type_draft_4::{accepted_by_types_draft4, instance_is_draft4};
use type_::{accepted_by_types, instance_is};
use vstd::prelude::*;

verus! {

/// A validator compiled from one keyword of a schema.
pub enum KeywordValidator {
    ArrayType(type_::ArrayTypeValidator),
    BooleanType(type_::BooleanTypeValidator),
    IntegerType(type_::IntegerTypeValidator),
    NullType(type_::NullTypeValidator),
    NumberType(type_::NumberTypeValidator),
    ObjectType(type_::ObjectTypeValidator),
    StringType(type_::StringTypeValidator),
    MultipleTypes(type_::MultipleTypesValidator),
    IntegerTypeDraft4(legacy::type_draft_4::IntegerTypeValidator),
    MultipleTypesDraft4(legacy::type_draft_4::MultipleTypesValidator),
    ConstArray(const_::ConstArrayValidator),
    ConstBoolean(const_::ConstBooleanValidator),
    ConstNull(const_::ConstNullValidator),
    ConstNumber(const_::ConstNumberValidator),
    ConstObject(const_::ConstObjectValidator),
    ConstString(const_::ConstStringValidator),
    MultipleOfFloat(multiple_of::MultipleOfFloatValidator),
    MultipleOfInteger(multiple_of::MultipleOfIntegerValidator),
}

/// The model of a compiled validator: its kind, what it was compiled from, and
/// the schema path it reports.
pub ghost enum ValidatorData {
    /// A `type` keyword naming one type.
    SingleType(PrimitiveType, Seq<String>),
    /// A `type` keyword naming several types.
    MultipleTypes(Set<PrimitiveType>, Seq<String>),
    /// A draft-4 `type` keyword naming `integer`.
    IntegerTypeDraft4(Seq<String>),
    /// A draft-4 `type` keyword naming several types.
    MultipleTypesDraft4(Set<PrimitiveType>, Seq<String>),
    /// A `const` keyword and its value.
    Const(JsonData, Seq<String>),
    /// A `multipleOf` keyword whose number has a fractional part.
    MultipleOfFloat(JsonNumber, Seq<String>),
    /// A `multipleOf` keyword whose number is whole.
    MultipleOfInteger(JsonNumber, Seq<String>),
}

impl View for KeywordValidator {
    type V = ValidatorData;

    open spec fn view(&self) -> ValidatorData {
        match self {
            KeywordValidator::ArrayType(v) => ValidatorData::SingleType(
                PrimitiveType::Array,
                v.path@,
            ),
            KeywordValidator::BooleanType(v) => ValidatorData::SingleType(
                PrimitiveType::Boolean,
                v.path@,
            ),
            KeywordValidator::IntegerType(v) => ValidatorData::SingleType(
                PrimitiveType::Integer,
                v.path@,
            ),
            KeywordValidator::NullType(v) => ValidatorData::SingleType(
                PrimitiveType::Null,
                v.path@,
            ),
            KeywordValidator::NumberType(v) => ValidatorData::SingleType(
                PrimitiveType::Number,
                v.path@,
            ),
            KeywordValidator::ObjectType(v) => ValidatorData::SingleType(
                PrimitiveType::Object,
                v.path@,
            ),
            KeywordValidator::StringType(v) => ValidatorData::SingleType(
                PrimitiveType::String,
                v.path@,
            ),
            KeywordValidator::MultipleTypes(v) => ValidatorData::MultipleTypes(v.types@, v.path@),
            KeywordValidator::IntegerTypeDraft4(v) => ValidatorData::IntegerTypeDraft4(v.path@),
            KeywordValidator::MultipleTypesDraft4(v) => ValidatorData::MultipleTypesDraft4(
                v.types@,
                v.path@,
            ),
            KeywordValidator::ConstArray(v) => ValidatorData::Const(v.expected(), v.path@),
            KeywordValidator::ConstBoolean(v) => ValidatorData::Const(
                JsonData::Bool(v.value),
                v.path@,
            ),
            KeywordValidator::ConstNull(v) => ValidatorData::Const(JsonData::Null, v.path@),
            KeywordValidator::ConstNumber(v) => ValidatorData::Const(
                JsonData::Number(v.original_value),
                v.path@,
            ),
            KeywordValidator::ConstObject(v) => ValidatorData::Const(
                JsonData::Object(v.value@),
                v.path@,
            ),
            KeywordValidator::ConstString(v) => ValidatorData::Const(
                JsonData::String(v.value@),
                v.path@,
            ),
            KeywordValidator::MultipleOfFloat(v) => ValidatorData::MultipleOfFloat(
                v.multiple_of,
                v.path@,
            ),
            KeywordValidator::MultipleOfInteger(v) => ValidatorData::MultipleOfInteger(
                v.multiple_of,
                v.path@,
            ),
        }
    }
}

/// What compiling a keyword gives: a validator, or the reason the keyword's
/// value was refused.
pub type CompilationResult = Result<KeywordValidator, CompilationError>;

/// `r` is the validator, or the error, that `expected` describes.
pub open spec fn compiled_as(r: CompilationResult, expected: Result<ValidatorData, CompilationError>) -> bool {
    match r {
        Ok(v) => expected == Ok::<ValidatorData, CompilationError>(v@),
        Err(e) => expected == Err::<ValidatorData, CompilationError>(e),
    }
}

/// What `validate` reports: nothing when the instance is accepted, else the
/// one error `rejection`.
pub open spec fn reported(
    errors: Seq<ValidationError>,
    accepted: bool,
    rejection: ValidationErrorData,
) -> bool {
    if accepted {
        errors.len() == 0
    } else {
        errors.len() == 1 && errors[0]@ == rejection
    }
}

/// Whether a compiled validator accepts an instance; `None` where that is
/// decided by subtracting or dividing doubles (`const` with a number, and
/// `multipleOf` on numbers that the integer check cannot decide), which this
/// library leaves to its caller.
pub open spec fn validator_accepts(d: ValidatorData, v: JsonData) -> Option<bool> {
    match d {
        ValidatorData::SingleType(t, _) => Some(instance_is(t, v)),
        ValidatorData::MultipleTypes(types, _) => Some(accepted_by_types(types, v)),
        ValidatorData::IntegerTypeDraft4(_) => Some(
            instance_is_draft4(PrimitiveType::Integer, v),
        ),
        ValidatorData::MultipleTypesDraft4(types, _) => Some(accepted_by_types_draft4(types, v)),
        ValidatorData::Const(c, _) => if c is Number {
            None
        } else {
            Some(json_equal(c, v))
        },
        ValidatorData::MultipleOfFloat(..) => multiple_of_float_accepts(v),
        ValidatorData::MultipleOfInteger(m, _) => if is_integral_bits(m.f64_bits) {
            multiple_of_integer_accepts(m, v)
        } else {
            None
        },
    }
}

/// The error a compiled validator reports for an instance it refuses.
pub open spec fn rejection(d: ValidatorData, v: JsonData) -> ValidationErrorData {
    match d {
        ValidatorData::SingleType(t, path) => ValidationErrorData {
            instance: v,
            kind: ErrorKindData::Type(TypeKindData::Single(t)),
            schema_path: path,
        },
        ValidatorData::MultipleTypes(types, path) => ValidationErrorData {
            instance: v,
            kind: ErrorKindData::Type(TypeKindData::Multiple(types)),
            schema_path: path,
        },
        ValidatorData::IntegerTypeDraft4(path) => ValidationErrorData {
            instance: v,
            kind: ErrorKindData::Type(TypeKindData::Single(PrimitiveType::Integer)),
            schema_path: path,
        },
        ValidatorData::MultipleTypesDraft4(types, path) => ValidationErrorData {
            instance: v,
            kind: ErrorKindData::Type(TypeKindData::Multiple(types)),
            schema_path: path,
        },
        ValidatorData::Const(c, path) => ValidationErrorData {
            instance: v,
            kind: ErrorKindData::Constant(c),
            schema_path: path,
        },
        ValidatorData::MultipleOfFloat(n, path) => ValidationErrorData {
            instance: v,
            kind: ErrorKindData::MultipleOf(n),
            schema_path: path,
        },
        ValidatorData::MultipleOfInteger(n, path) => ValidationErrorData {
            instance: v,
            kind: ErrorKindData::MultipleOf(n),
            schema_path: path,
        },
    }
}

impl KeywordValidator {
    /// Whether the validator accepts the instance; `None` where the check is
    /// decided on binary64 arithmetic.
    pub fn is_valid(&self, instance: &JsonValue) -> (r: Option<bool>)
        ensures
            r == validator_accepts(self@, instance@),
    {
        match self {
            KeywordValidator::ArrayType(v) => Some(v.is_valid(instance)),
            KeywordValidator::BooleanType(v) => Some(v.is_valid(instance)),
            KeywordValidator::IntegerType(v) => Some(v.is_valid(instance)),
            KeywordValidator::NullType(v) => Some(v.is_valid(instance)),
            KeywordValidator::NumberType(v) => Some(v.is_valid(instance)),
            KeywordValidator::ObjectType(v) => Some(v.is_valid(instance)),
            KeywordValidator::StringType(v) => Some(v.is_valid(instance)),
            KeywordValidator::MultipleTypes(v) => Some(v.is_valid(instance)),
            KeywordValidator::IntegerTypeDraft4(v) => Some(v.is_valid(instance)),
            KeywordValidator::MultipleTypesDraft4(v) => Some(v.is_valid(instance)),
            KeywordValidator::ConstArray(v) => Some(v.is_valid(instance)),
            KeywordValidator::ConstBoolean(v) => Some(v.is_valid(instance)),
            KeywordValidator::ConstNull(v) => Some(v.is_valid(instance)),
            KeywordValidator::ConstNumber(_) => None,
            KeywordValidator::ConstObject(v) => Some(v.is_valid(instance)),
            KeywordValidator::ConstString(v) => Some(v.is_valid(instance)),
            KeywordValidator::MultipleOfFloat(v) => v.is_valid(instance),
            KeywordValidator::MultipleOfInteger(v) => {
                if is_integral_f64_bits(v.multiple_of.as_f64_bits()) {
                    v.is_valid(instance)
                } else {
                    None
                }
            },
        }
    }

    /// The errors the validator reports for the instance; `None` where the check
    /// is decided on binary64 arithmetic.
    pub fn validate(&self, instance: &JsonValue) -> (r: Option<Vec<ValidationError>>)
        ensures
            match r {
                Some(errors) => validator_accepts(self@, instance@) matches Some(accepted)
                    && reported(errors@, accepted, rejection(self@, instance@)),
                None => validator_accepts(self@, instance@) is None,
            },
    {
        match self {
            KeywordValidator::ArrayType(v) => Some(v.validate(instance)),
            KeywordValidator::BooleanType(v) => Some(v.validate(instance)),
            KeywordValidator::IntegerType(v) => Some(v.validate(instance)),
            KeywordValidator::NullType(v) => Some(v.validate(instance)),
            KeywordValidator::NumberType(v) => Some(v.validate(instance)),
            KeywordValidator::ObjectType(v) => Some(v.validate(instance)),
            KeywordValidator::StringType(v) => Some(v.validate(instance)),
            KeywordValidator::MultipleTypes(v) => Some(v.validate(instance)),
            KeywordValidator::IntegerTypeDraft4(v) => Some(v.validate(instance)),
            KeywordValidator::MultipleTypesDraft4(v) => Some(v.validate(instance)),
            KeywordValidator::ConstArray(v) => Some(v.validate(instance)),
            KeywordValidator::ConstBoolean(v) => Some(v.validate(instance)),
            KeywordValidator::ConstNull(v) => Some(v.validate(instance)),
            KeywordValidator::ConstNumber(_) => None,
            KeywordValidator::ConstObject(v) => Some(v.validate(instance)),
            KeywordValidator::ConstString(v) => Some(v.validate(instance)),
            KeywordValidator::MultipleOfFloat(v) => v.validate(instance),
            KeywordValidator::MultipleOfInteger(v) => {
                if is_integral_f64_bits(v.multiple_of.as_f64_bits()) {
                    v.validate(instance)
                } else {
                    None
                }
            },
        }
    }
}

/// A `const` validator accepts the (well-formed, non-numeric) value it was
/// compiled from, and `const a` accepts `b` exactly when `const b` accepts `a`.
pub proof fn lemma_const_accepts_own_value(a: JsonData, b: JsonData, path: Seq<String>)
    requires
        json_wf(a),
        !(a is Number),
        !(b is Number),
    ensures
        validator_accepts(ValidatorData::Const(a, path), a) == Some(true),
        validator_accepts(ValidatorData::Const(a, path), b) == validator_accepts(
            ValidatorData::Const(b, path),
            a,
        ),
{
    lemma_json_equal_reflexive(a);
    if json_equal(a, b) {
        lemma_json_equal_symmetric(a, b);
    }
    if json_equal(b, a) {
        lemma_json_equal_symmetric(b, a);
    }
}

} // verus!
