//! The `multipleOf` keyword: a numeric instance must be a multiple of the
//! keyword's number. Compilation chooses between two checks by whether that
//! number is whole. The check for a whole number decides whole instances by
//! exact integer arithmetic; what divides doubles (the float check, and the
//! whole-number check on instances with a fractional part) is left to the
//! caller.
use crate::keywords::{CompilationResult, KeywordValidator, ValidatorData, compiled_as, reported};
use crate::error::{
    CompilationContext, CompilationError, ErrorKindData, ValidationError, ValidationErrorData,
};
use crate::number::{
    JsonNumber, is_integral_bits, is_integral_f64_bits, is_whole_multiple,
    is_whole_multiple_bits, lemma_sign_is_irrelevant, whole_magnitude,
};
use crate::value::{JsonData, JsonMap, JsonValue, duplicate_strings};
use vstd::prelude::*;

verus! {

/// The validator that the `multipleOf` keyword with value `schema` compiles to:
/// a whole number gives the integer check, any other number the float check,
/// and anything else is refused.
pub open spec fn multiple_of_keyword(schema: JsonData, path: Seq<String>) -> Result<
    ValidatorData,
    CompilationError,
> {
    match schema {
        JsonData::Number(n) => if is_integral_bits(n.f64_bits) {
            Ok(ValidatorData::MultipleOfInteger(n, path))
        } else {
            Ok(ValidatorData::MultipleOfFloat(n, path))
        },
        _ => Err(CompilationError::SchemaError),
    }
}

/// What the check for a fractional `multipleOf` decides without dividing
/// doubles: anything but a number passes; a number is left to the caller.
pub open spec fn multiple_of_float_accepts(v: JsonData) -> Option<bool> {
    if v is Number {
        None
    } else {
        Some(true)
    }
}

/// What the check for a whole `multipleOf` number `m` decides without dividing
/// doubles: anything but a number passes; a number with no fractional part
/// passes exactly when it is a whole multiple of `m`; a number with a
/// fractional part is left to the caller.
pub open spec fn multiple_of_integer_accepts(m: JsonNumber, v: JsonData) -> Option<bool> {
    match v {
        JsonData::Number(n) => if is_integral_bits(n.f64_bits) {
            Some(is_whole_multiple(n.f64_bits, m.f64_bits))
        } else {
            None
        },
        _ => Some(true),
    }
}

/// `multipleOf` with a number that has a fractional part.
pub struct MultipleOfFloatValidator {
    pub multiple_of: JsonNumber,
    pub path: Vec<String>,
}

impl MultipleOfFloatValidator {
    /// A validator for multiples of `multiple_of`.
    pub fn compile(multiple_of: JsonNumber, path: Vec<String>) -> (r: CompilationResult)
        ensures
            compiled_as(r, Ok(ValidatorData::MultipleOfFloat(multiple_of, path@))),
    {
        Ok(KeywordValidator::MultipleOfFloat(MultipleOfFloatValidator { multiple_of, path }))
    }

    /// Whether the instance passes, where that is decided without dividing
    /// doubles.
    pub fn is_valid(&self, instance: &JsonValue) -> (r: Option<bool>)
        ensures
            r == multiple_of_float_accepts(instance@),
    {
        if instance.is_number() {
            None
        } else {
            Some(true)
        }
    }

    /// The errors for the instance, where that is decided without dividing
    /// doubles.
    pub fn validate(&self, instance: &JsonValue) -> (r: Option<Vec<ValidationError>>)
        ensures
            match r {
                Some(errors) => multiple_of_float_accepts(instance@) matches Some(accepted)
                    && reported(
                    errors@,
                    accepted,
                    ValidationErrorData {
                        instance: instance@,
                        kind: ErrorKindData::MultipleOf(self.multiple_of),
                        schema_path: self.path@,
                    },
                ),
                None => multiple_of_float_accepts(instance@) is None,
            },
    {
        match self.is_valid(instance) {
            Some(_) => Some(Vec::new()),
            None => None,
        }
    }
}

/// `multipleOf` with a whole number.
pub struct MultipleOfIntegerValidator {
    pub multiple_of: JsonNumber,
    pub path: Vec<String>,
}

impl MultipleOfIntegerValidator {
    /// A validator for multiples of `multiple_of`.
    pub fn compile(multiple_of: JsonNumber, path: Vec<String>) -> (r: CompilationResult)
        ensures
            compiled_as(r, Ok(ValidatorData::MultipleOfInteger(multiple_of, path@))),
    {
        Ok(KeywordValidator::MultipleOfInteger(MultipleOfIntegerValidator { multiple_of, path }))
    }

    /// Whether the instance passes, where that is decided without dividing
    /// doubles.
    pub fn is_valid(&self, instance: &JsonValue) -> (r: Option<bool>)
        requires
            is_integral_bits(self.multiple_of.f64_bits),
        ensures
            r == multiple_of_integer_accepts(self.multiple_of, instance@),
    {
        if let JsonValue::Number(item) = instance {
            if is_integral_f64_bits(item.as_f64_bits()) {
                Some(is_whole_multiple_bits(item.as_f64_bits(), self.multiple_of.as_f64_bits()))
            } else {
                None
            }
        } else {
            Some(true)
        }
    }

    /// The errors for the instance, where that is decided without dividing
    /// doubles.
    pub fn validate(&self, instance: &JsonValue) -> (r: Option<Vec<ValidationError>>)
        requires
            is_integral_bits(self.multiple_of.f64_bits),
        ensures
            match r {
                Some(errors) => multiple_of_integer_accepts(self.multiple_of, instance@) matches Some(
                    accepted,
                ) && reported(
                    errors@,
                    accepted,
                    ValidationErrorData {
                        instance: instance@,
                        kind: ErrorKindData::MultipleOf(self.multiple_of),
                        schema_path: self.path@,
                    },
                ),
                None => multiple_of_integer_accepts(self.multiple_of, instance@) is None,
            },
    {
        match self.is_valid(instance) {
            Some(true) => Some(Vec::new()),
            Some(false) => {
                let error = ValidationError::multiple_of(
                    duplicate_strings(&self.path),
                    instance,
                    self.multiple_of,
                );
                Some(vec![error])
            },
            None => None,
        }
    }
}

/// Compiles the `multipleOf` keyword with value `schema`.
pub fn compile(_parent: &JsonMap, schema: &JsonValue, context: &CompilationContext) -> (r: Option<
    CompilationResult,
>)
    ensures
        r matches Some(res) && compiled_as(res, multiple_of_keyword(schema@, context.curr_path@)),
{
    let path = context.path();
    if let JsonValue::Number(multiple_of) = schema {
        if is_integral_f64_bits(multiple_of.as_f64_bits()) {
            Some(MultipleOfIntegerValidator::compile(*multiple_of, path))
        } else {
            Some(MultipleOfFloatValidator::compile(*multiple_of, path))
        }
    } else {
        Some(Err(CompilationError::SchemaError))
    }
}

/// The integer `multipleOf` check decides a number with no fractional part by
/// divisibility of magnitudes alone, whatever form the number was given in and
/// whatever its sign: it passes exactly when the magnitude of `m` is positive
/// and the magnitude of the number is a whole multiple of it. Anything but a
/// number passes, and a number with a fractional part is left to the caller.
pub proof fn lemma_multiple_of_integer_decision(m: JsonNumber, n: JsonNumber, v: JsonData)
    ensures
        is_integral_bits(n.f64_bits) ==> multiple_of_integer_accepts(m, JsonData::Number(n))
            == Some(
            whole_magnitude(m.f64_bits) > 0 && whole_magnitude(n.f64_bits) % whole_magnitude(
                m.f64_bits,
            ) == 0,
        ),
        !is_integral_bits(n.f64_bits) ==> multiple_of_integer_accepts(m, JsonData::Number(n))
            is None,
        !(v is Number) ==> multiple_of_integer_accepts(m, v) == Some(true),
        !(v is Number) ==> multiple_of_float_accepts(v) == Some(true),
        forall|n2: JsonNumber|
            #![trigger multiple_of_integer_accepts(m, JsonData::Number(n2))]
            n2.f64_bits == n.f64_bits ==> multiple_of_integer_accepts(m, JsonData::Number(n2))
                == multiple_of_integer_accepts(m, JsonData::Number(n)),
        multiple_of_integer_accepts(
            m,
            JsonData::Number(JsonNumber { f64_bits: n.f64_bits ^ 0x8000_0000_0000_0000u64, ..n }),
        ) == multiple_of_integer_accepts(m, JsonData::Number(n)),
{
    lemma_sign_is_irrelevant(n.f64_bits, m.f64_bits);
}

} // verus!
