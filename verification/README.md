# jsonschema_keywords

Three JSON Schema validation keywords — `type` (with its draft-4 variant),
`const` and `multipleOf` — written in Verus and proved against their
specifications.

## Layout

- `src/number.rs` — JSON numbers. Each number keeps the bit pattern of its
  binary64 image. The checks that compare numbers as doubles, test whether a
  double has a fractional part, or test whether one whole double divides
  another all work on those bits with integer operations only.
- `src/value.rs` — the JSON document model (`JsonValue`), its mathematical
  view (`JsonData`), and the equality that `const` uses, which is proved to be
  an equivalence.
- `src/primitive_type.rs` — the seven primitive types, their names, and a
  bit set of them.
- `src/error.rs` — compilation and validation errors.
- `src/keywords/` — compiling each keyword into a validator, and validating
  instances with it. `keywords/mod.rs` says which validator each schema value
  compiles to, and what each validator accepts.
- `app/` — conversion to and from `serde_json::Value`, and the checks that need
  floating-point arithmetic: `const` on numbers, and `multipleOf` on instances
  that are not whole.
- `tests/` — runtime tests of the library.
