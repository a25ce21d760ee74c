//! Keywords as earlier drafts of JSON Schema define them.
pub mod type_draft_4;
