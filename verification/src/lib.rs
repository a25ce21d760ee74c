//! The `type`, `const` and `multipleOf` keywords of JSON Schema validation.
pub mod number;
pub mod value;
pub mod primitive_type;
pub mod error;
pub mod keywords;
