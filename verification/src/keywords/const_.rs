//! The `const` keyword: an instance must equal the keyword's value.
use crate::keywords::helpers::{equal_arrays, equal_objects};
use crate::keywords::{CompilationResult, KeywordValidator, ValidatorData, compiled_as, reported};
use crate::error::{
    CompilationContext, ErrorKindData, ValidationError, ValidationErrorData,
};
use crate::number::JsonNumber;
use crate::value::{
    JsonData, JsonMap, JsonValue, duplicate_strings, duplicate_values, group_json_view,
    json_equal, values_view,
};
use vstd::prelude::*;
use vstd::string::StringExecFns;

verus! {

/// `const` with an array value.
pub struct ConstArrayValidator {
    pub value: Vec<JsonValue>,
    pub path: Vec<String>,
}

impl ConstArrayValidator {
    /// The constant this validator expects.
    pub open spec fn expected(&self) -> JsonData {
        JsonData::Array(values_view(self.value@))
    }

    /// A validator that expects a copy of `value`.
    pub fn compile(value: &Vec<JsonValue>, path: Vec<String>) -> (r: CompilationResult)
        ensures
            compiled_as(r, Ok(ValidatorData::Const(JsonData::Array(values_view(value@)), path@))),
    {
        let copy = duplicate_values(value);
        assert(values_view(copy@) =~= values_view(value@));
        Ok(KeywordValidator::ConstArray(ConstArrayValidator { value: copy, path }))
    }

    /// Whether the instance equals the constant.
    pub fn is_valid(&self, instance: &JsonValue) -> (r: bool)
        ensures
            r == json_equal(self.expected(), instance@),
    {
        broadcast use group_json_view;

        if let JsonValue::Array(instance_value) = instance {
            equal_arrays(&self.value, instance_value)
        } else {
            false
        }
    }

    /// No error when the instance equals the constant, else one error.
    pub fn validate(&self, instance: &JsonValue) -> (errors: Vec<ValidationError>)
        ensures
            reported(
                errors@,
                json_equal(self.expected(), instance@),
                ValidationErrorData {
                    instance: instance@,
                    kind: ErrorKindData::Constant(self.expected()),
                    schema_path: self.path@,
                },
            ),
    {
        broadcast use group_json_view;

        if self.is_valid(instance) {
            Vec::new()
        } else {
            let error = ValidationError::constant_array(
                duplicate_strings(&self.path),
                instance,
                &self.value,
            );
            vec![error]
        }
    }
}

/// `const` with a boolean value.
pub struct ConstBooleanValidator {
    pub value: bool,
    pub path: Vec<String>,
}

impl ConstBooleanValidator {
    /// A validator that expects `value`.
    pub fn compile(value: bool, path: Vec<String>) -> (r: CompilationResult)
        ensures
            compiled_as(r, Ok(ValidatorData::Const(JsonData::Bool(value), path@))),
    {
        Ok(KeywordValidator::ConstBoolean(ConstBooleanValidator { value, path }))
    }

    /// Whether the instance is the boolean `value`.
    pub fn is_valid(&self, instance: &JsonValue) -> (r: bool)
        ensures
            r == json_equal(JsonData::Bool(self.value), instance@),
    {
        if let JsonValue::Bool(instance_value) = instance {
            self.value == *instance_value
        } else {
            false
        }
    }

    /// No error when the instance is the boolean `value`, else one error.
    pub fn validate(&self, instance: &JsonValue) -> (errors: Vec<ValidationError>)
        ensures
            reported(
                errors@,
                json_equal(JsonData::Bool(self.value), instance@),
                ValidationErrorData {
                    instance: instance@,
                    kind: ErrorKindData::Constant(JsonData::Bool(self.value)),
                    schema_path: self.path@,
                },
            ),
    {
        if self.is_valid(instance) {
            Vec::new()
        } else {
            let error = ValidationError::constant_boolean(
                duplicate_strings(&self.path),
                instance,
                self.value,
            );
            vec![error]
        }
    }

    /// A description of the keyword.
    pub fn to_string(&self) -> (r: String)
        ensures
            r@ == if self.value {
                "const: true"@
            } else {
                "const: false"@
            },
    {
        if self.value {
            String::from_str("const: true")
        } else {
            String::from_str("const: false")
        }
    }
}

/// `const` with the value `null`.
pub struct ConstNullValidator {
    pub path: Vec<String>,
}

impl ConstNullValidator {
    /// A validator that expects `null`.
    pub fn compile(path: Vec<String>) -> (r: CompilationResult)
        ensures
            compiled_as(r, Ok(ValidatorData::Const(JsonData::Null, path@))),
    {
        Ok(KeywordValidator::ConstNull(ConstNullValidator { path }))
    }

    /// Whether the instance is `null`.
    pub fn is_valid(&self, instance: &JsonValue) -> (r: bool)
        ensures
            r == json_equal(JsonData::Null, instance@),
    {
        instance.is_null()
    }

    /// No error when the instance is `null`, else one error.
    pub fn validate(&self, instance: &JsonValue) -> (errors: Vec<ValidationError>)
        ensures
            reported(
                errors@,
                json_equal(JsonData::Null, instance@),
                ValidationErrorData {
                    instance: instance@,
                    kind: ErrorKindData::Constant(JsonData::Null),
                    schema_path: self.path@,
                },
            ),
    {
        if self.is_valid(instance) {
            Vec::new()
        } else {
            let error = ValidationError::constant_null(duplicate_strings(&self.path), instance);
            vec![error]
        }
    }

    /// A description of the keyword.
    pub fn to_string(&self) -> (r: String)
        ensures
            r@ == "const: null"@,
    {
        String::from_str("const: null")
    }
}

/// `const` with a number value. Whether an instance matches it is decided on
/// binary64 values, with a tolerance, outside this library.
pub struct ConstNumberValidator {
    pub original_value: JsonNumber,
    pub path: Vec<String>,
}

impl ConstNumberValidator {
    /// A validator that expects `original_value`.
    pub fn compile(original_value: &JsonNumber, path: Vec<String>) -> (r: CompilationResult)
        ensures
            compiled_as(r, Ok(ValidatorData::Const(JsonData::Number(*original_value), path@))),
    {
        Ok(
            KeywordValidator::ConstNumber(
                ConstNumberValidator { original_value: *original_value, path },
            ),
        )
    }
}

/// `const` with an object value.
pub struct ConstObjectValidator {
    pub value: JsonMap,
    pub path: Vec<String>,
}

impl ConstObjectValidator {
    /// A validator that expects a copy of `value`.
    pub fn compile(value: &JsonMap, path: Vec<String>) -> (r: CompilationResult)
        ensures
            compiled_as(r, Ok(ValidatorData::Const(JsonData::Object(value@), path@))),
    {
        Ok(KeywordValidator::ConstObject(ConstObjectValidator { value: value.duplicate(), path }))
    }

    /// Whether the instance equals the constant.
    pub fn is_valid(&self, instance: &JsonValue) -> (r: bool)
        ensures
            r == json_equal(JsonData::Object(self.value@), instance@),
    {
        broadcast use group_json_view;

        if let JsonValue::Object(item) = instance {
            equal_objects(&self.value, item)
        } else {
            false
        }
    }

    /// No error when the instance equals the constant, else one error.
    pub fn validate(&self, instance: &JsonValue) -> (errors: Vec<ValidationError>)
        ensures
            reported(
                errors@,
                json_equal(JsonData::Object(self.value@), instance@),
                ValidationErrorData {
                    instance: instance@,
                    kind: ErrorKindData::Constant(JsonData::Object(self.value@)),
                    schema_path: self.path@,
                },
            ),
    {
        if self.is_valid(instance) {
            Vec::new()
        } else {
            let error = ValidationError::constant_object(
                duplicate_strings(&self.path),
                instance,
                &self.value,
            );
            vec![error]
        }
    }
}

/// `const` with a string value.
pub struct ConstStringValidator {
    pub value: String,
    pub path: Vec<String>,
}

impl ConstStringValidator {
    /// A validator that expects `value`.
    pub fn compile(value: &str, path: Vec<String>) -> (r: CompilationResult)
        ensures
            compiled_as(r, Ok(ValidatorData::Const(JsonData::String(value@), path@))),
    {
        Ok(KeywordValidator::ConstString(ConstStringValidator { value: value.to_owned(), path }))
    }

    /// Whether the instance is the string `value`.
    pub fn is_valid(&self, instance: &JsonValue) -> (r: bool)
        ensures
            r == json_equal(JsonData::String(self.value@), instance@),
    {
        if let JsonValue::String(item) = instance {
            self.value.eq(item)
        } else {
            false
        }
    }

    /// No error when the instance is the string `value`, else one error.
    pub fn validate(&self, instance: &JsonValue) -> (errors: Vec<ValidationError>)
        ensures
            reported(
                errors@,
                json_equal(JsonData::String(self.value@), instance@),
                ValidationErrorData {
                    instance: instance@,
                    kind: ErrorKindData::Constant(JsonData::String(self.value@)),
                    schema_path: self.path@,
                },
            ),
    {
        if self.is_valid(instance) {
            Vec::new()
        } else {
            let error = ValidationError::constant_string(
                duplicate_strings(&self.path),
                instance,
                &self.value,
            );
            vec![error]
        }
    }

    /// A description of the keyword: `const: ` and the string, unquoted.
    pub fn to_string(&self) -> (r: String)
        ensures
            r@ == "const: "@ + self.value@,
    {
        let mut out = String::from_str("const: ");
        out.append(self.value.as_str());
        out
    }
}

/// Compiles the `const` keyword with value `schema`; every JSON value is a
/// constant, so this never fails.
pub fn compile(_parent: &JsonMap, schema: &JsonValue, context: &CompilationContext) -> (r: Option<
    CompilationResult,
>)
    ensures
        r matches Some(res) && compiled_as(
            res,
            Ok(ValidatorData::Const(schema@, context.curr_path@)),
        ),
{
    broadcast use group_json_view;

    match schema {
        JsonValue::Array(items) => Some(ConstArrayValidator::compile(items, context.path())),
        JsonValue::Bool(item) => Some(ConstBooleanValidator::compile(*item, context.path())),
        JsonValue::Null => Some(ConstNullValidator::compile(context.path())),
        JsonValue::Number(item) => Some(ConstNumberValidator::compile(item, context.path())),
        JsonValue::Object(map) => Some(ConstObjectValidator::compile(map, context.path())),
        JsonValue::String(string) => Some(
            ConstStringValidator::compile(string.as_str(), context.path()),
        ),
    }
}

} // verus!
