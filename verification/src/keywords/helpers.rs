//! The equality of JSON values that the `const` keyword decides by.
use crate::value::{JsonData, JsonMap, JsonValue, group_json_view, json_equal, values_view};
use vstd::prelude::*;

verus! {

/// Decides `json_equal` of two values.
pub fn equal(left: &JsonValue, right: &JsonValue) -> (r: bool)
    ensures
        r == json_equal(left@, right@),
    decreases left,
{
    broadcast use group_json_view;

    match (left, right) {
        (JsonValue::String(l), JsonValue::String(r)) => l.eq(r),
        (JsonValue::Bool(l), JsonValue::Bool(r)) => *l == *r,
        (JsonValue::Null, JsonValue::Null) => true,
        (JsonValue::Number(l), JsonValue::Number(r)) => l.f64_equals(r),
        (JsonValue::Array(l), JsonValue::Array(r)) => equal_arrays(l, r),
        (JsonValue::Object(l), JsonValue::Object(r)) => equal_objects(l, r),
        (_, _) => false,
    }
}

/// Decides `json_equal` of two arrays: same length, and equal element by element.
pub fn equal_arrays(left: &Vec<JsonValue>, right: &Vec<JsonValue>) -> (r: bool)
    ensures
        r == json_equal(
            JsonData::Array(values_view(left@)),
            JsonData::Array(values_view(right@)),
        ),
    decreases left,
{
    broadcast use group_json_view;

    if left.len() != right.len() {
        return false;
    }
    let mut idx: usize = 0;
    while idx < left.len()
        invariant
            left@.len() == right@.len(),
            idx <= left@.len(),
            forall|j: int|
                0 <= j < idx ==> json_equal(#[trigger] left@[j]@, right@[j]@),
        decreases left@.len() - idx,
    {
        assert(decreases_to!(left => left@[idx as int]));
        if !equal(&left[idx], &right[idx]) {
            assert(values_view(left@)[idx as int] == left@[idx as int]@);
            return false;
        }
        idx = idx + 1;
    }
    assert forall|j: int| 0 <= j < left@.len() implies json_equal(
        #[trigger] values_view(left@)[j],
        values_view(right@)[j],
    ) by {
        assert(json_equal(left@[j]@, right@[j]@));
    }
    true
}

/// Decides `json_equal` of two objects: same size, and equal member by member
/// (key and value) in iteration order.
pub fn equal_objects(left: &JsonMap, right: &JsonMap) -> (r: bool)
    ensures
        r == json_equal(JsonData::Object(left@), JsonData::Object(right@)),
    decreases left,
{
    broadcast use group_json_view;

    if left.entries.len() != right.entries.len() {
        return false;
    }
    let mut idx: usize = 0;
    while idx < left.entries.len()
        invariant
            left.entries@.len() == right.entries@.len(),
            idx <= left.entries@.len(),
            forall|j: int|
                0 <= j < idx ==> {
                    &&& (#[trigger] left@[j]).0 == right@[j].0
                    &&& json_equal(left@[j].1, right@[j].1)
                },
        decreases left.entries@.len() - idx,
    {
        assert(decreases_to!(left => left.entries));
        assert(decreases_to!(left.entries => left.entries@[idx as int]));
        let same_key = left.entries[idx].0 == right.entries[idx].0;
        if !same_key || !equal(&left.entries[idx].1, &right.entries[idx].1) {
            assert(left@[idx as int] == (left.entries@[idx as int].0@, left.entries@[idx as int].1@));
            return false;
        }
        idx = idx + 1;
    }
    true
}

} // verus!
