//! The JSON document model that schemas and instances are written in.
use crate::number::{
    JsonNumber, f64_equal_bits, lemma_f64_equal_equivalence, lemma_f64_equality_by_bits,
};
use vstd::prelude::*;

verus! {

/// A JSON value.
pub enum JsonValue {
    Null,
    Bool(bool),
    Number(JsonNumber),
    String(String),
    Array(Vec<JsonValue>),
    Object(JsonMap),
}

/// A JSON object: its members in iteration order.
pub struct JsonMap {
    pub entries: Vec<(String, JsonValue)>,
}

/// The mathematical model of a JSON value.
pub ghost enum JsonData {
    Null,
    Bool(bool),
    Number(JsonNumber),
    String(Seq<char>),
    Array(Seq<JsonData>),
    Object(Seq<(Seq<char>, JsonData)>),
}

impl View for JsonValue {
    type V = JsonData;

    open spec fn view(&self) -> JsonData
        decreases self,
    {
        match self {
            JsonValue::Null => JsonData::Null,
            JsonValue::Bool(b) => JsonData::Bool(*b),
            JsonValue::Number(n) => JsonData::Number(*n),
            JsonValue::String(s) => JsonData::String(s@),
            JsonValue::Array(items) => JsonData::Array(
                Seq::new(
                    items@.len(),
                    |i: int|
                        if 0 <= i < items@.len() {
                            items@[i].view()
                        } else {
                            JsonData::Null
                        },
                ),
            ),
            JsonValue::Object(map) => JsonData::Object(map.members()),
        }
    }
}

impl JsonMap {
    /// The members of the object, in iteration order.
    pub open spec fn members(&self) -> Seq<(Seq<char>, JsonData)>
        decreases self,
    {
        Seq::new(
            self.entries@.len(),
            |i: int|
                if 0 <= i < self.entries@.len() {
                    (self.entries@[i].0@, self.entries@[i].1.view())
                } else {
                    (Seq::empty(), JsonData::Null)
                },
        )
    }
}

impl View for JsonMap {
    type V = Seq<(Seq<char>, JsonData)>;

    open spec fn view(&self) -> Seq<(Seq<char>, JsonData)> {
        self.members()
    }
}

/// The models of a sequence of values, in order.
pub open spec fn values_view(items: Seq<JsonValue>) -> Seq<JsonData> {
    Seq::new(items.len(), |i: int| items[i]@)
}

/// The model of an array holds the models of its elements, in order.
pub broadcast proof fn lemma_array_view(v: JsonValue)
    requires
        v is Array,
    ensures
        #[trigger] v@ == JsonData::Array(values_view(v->Array_0@)),
{
    reveal_with_fuel(<JsonValue as View>::view, 2);
    assert(v@->Array_0 =~= values_view(v->Array_0@));
}

/// The model of an object holds its keys and the models of its values, in order.
pub broadcast proof fn lemma_map_view(m: JsonMap)
    ensures
        (#[trigger] m@).len() == m.entries@.len(),
        forall|i: int|
            0 <= i < m.entries@.len() ==> #[trigger] m@[i] == (m.entries@[i].0@, m.entries@[i].1@),
{
}

/// The model of an object value is the model of its map.
pub broadcast proof fn lemma_object_view(v: JsonValue)
    requires
        v is Object,
    ensures
        #[trigger] v@ == JsonData::Object(v->Object_0@),
{
}

/// The view lemmas, for use where models of arrays and objects are unfolded.
pub broadcast group group_json_view {
    lemma_array_view,
    lemma_map_view,
    lemma_object_view,
}

/// Every number is a JSON number (finite), and no object holds a key twice.
pub open spec fn json_wf(v: JsonData) -> bool
    decreases v,
{
    match v {
        JsonData::Number(n) => n.wf(),
        JsonData::Array(items) => forall|i: int|
            0 <= i < items.len() ==> json_wf(#[trigger] items[i]),
        JsonData::Object(members) => {
            &&& forall|i: int| 0 <= i < members.len() ==> json_wf(#[trigger] members[i].1)
            &&& forall|i: int, j: int|
                0 <= i < j < members.len() ==> #[trigger] members[i].0 != #[trigger] members[j].0
        },
        _ => true,
    }
}

/// The equality that `const` uses: strings, booleans and null compare by
/// value, numbers by their binary64 images, arrays element by element, and
/// objects member by member in iteration order (key and value).
pub open spec fn json_equal(a: JsonData, b: JsonData) -> bool
    decreases a,
{
    match a {
        JsonData::Null => b is Null,
        JsonData::Bool(x) => b matches JsonData::Bool(y) && x == y,
        JsonData::Number(x) => b matches JsonData::Number(y) && f64_equal_bits(
            x.f64_bits,
            y.f64_bits,
        ),
        JsonData::String(x) => b matches JsonData::String(y) && x == y,
        JsonData::Array(xs) => match b {
            JsonData::Array(ys) => {
                &&& xs.len() == ys.len()
                &&& forall|i: int| 0 <= i < xs.len() ==> json_equal(#[trigger] xs[i], ys[i])
            },
            _ => false,
        },
        JsonData::Object(xm) => match b {
            JsonData::Object(ym) => {
                &&& xm.len() == ym.len()
                &&& forall|i: int|
                    0 <= i < xm.len() ==> {
                        &&& (#[trigger] xm[i]).0 == ym[i].0
                        &&& json_equal(xm[i].1, ym[i].1)
                    }
            },
            _ => false,
        },
    }
}

/// `json_equal` holds between a well-formed value and itself.
pub proof fn lemma_json_equal_reflexive(a: JsonData)
    requires
        json_wf(a),
    ensures
        json_equal(a, a),
    decreases a,
{
    match a {
        JsonData::Number(x) => {
            lemma_f64_equal_equivalence(x.f64_bits, x.f64_bits, x.f64_bits);
        },
        JsonData::Array(xs) => {
            assert forall|i: int| 0 <= i < xs.len() implies json_equal(
                #[trigger] xs[i],
                xs[i],
            ) by {
                lemma_json_equal_reflexive(xs[i]);
            }
        },
        JsonData::Object(xm) => {
            assert forall|i: int| 0 <= i < xm.len() implies json_equal(
                (#[trigger] xm[i]).1,
                xm[i].1,
            ) by {
                lemma_json_equal_reflexive(xm[i].1);
            }
        },
        _ => {},
    }
}

/// `json_equal` is symmetric.
pub proof fn lemma_json_equal_symmetric(a: JsonData, b: JsonData)
    requires
        json_equal(a, b),
    ensures
        json_equal(b, a),
    decreases a,
{
    match a {
        JsonData::Number(x) => {
            let y = b->Number_0;
            lemma_f64_equal_equivalence(x.f64_bits, y.f64_bits, y.f64_bits);
        },
        JsonData::Array(xs) => {
            let ys = b->Array_0;
            assert forall|i: int| 0 <= i < ys.len() implies json_equal(
                #[trigger] ys[i],
                xs[i],
            ) by {
                lemma_json_equal_symmetric(xs[i], ys[i]);
            }
        },
        JsonData::Object(xm) => {
            let ym = b->Object_0;
            assert forall|i: int| 0 <= i < ym.len() implies {
                &&& (#[trigger] ym[i]).0 == xm[i].0
                &&& json_equal(ym[i].1, xm[i].1)
            } by {
                lemma_json_equal_symmetric(xm[i].1, ym[i].1);
            }
        },
        _ => {},
    }
}

/// `json_equal` is transitive.
pub proof fn lemma_json_equal_transitive(a: JsonData, b: JsonData, c: JsonData)
    requires
        json_equal(a, b),
        json_equal(b, c),
    ensures
        json_equal(a, c),
    decreases a,
{
    match a {
        JsonData::Number(x) => {
            lemma_f64_equal_equivalence(x.f64_bits, b->Number_0.f64_bits, c->Number_0.f64_bits);
        },
        JsonData::Array(xs) => {
            let ys = b->Array_0;
            let zs = c->Array_0;
            assert forall|i: int| 0 <= i < xs.len() implies json_equal(
                #[trigger] xs[i],
                zs[i],
            ) by {
                lemma_json_equal_transitive(xs[i], ys[i], zs[i]);
            }
        },
        JsonData::Object(xm) => {
            let ym = b->Object_0;
            let zm = c->Object_0;
            assert forall|i: int| 0 <= i < xm.len() implies {
                &&& (#[trigger] xm[i]).0 == zm[i].0
                &&& json_equal(xm[i].1, zm[i].1)
            } by {
                lemma_json_equal_transitive(xm[i].1, ym[i].1, zm[i].1);
            }
        },
        _ => {},
    }
}

/// What `json_equal` decides of values of the same kind: booleans and strings
/// are equal when they are the same, `null` equals only `null`, numbers are
/// equal when their doubles are (same bits unless both are zeros, never a NaN),
/// arrays of different lengths differ, arrays that agree element by element are
/// equal, and values of different kinds are never equal.
pub proof fn lemma_json_equal_cases(a: JsonData, b: JsonData)
    ensures
        a matches JsonData::Bool(x) ==> (json_equal(a, b) <==> b == JsonData::Bool(x)),
        a matches JsonData::String(x) ==> (json_equal(a, b) <==> b == JsonData::String(x)),
        a is Null ==> (json_equal(a, b) <==> b is Null),
        (a is Number && b is Number) ==> (json_equal(a, b) <==> f64_equal_bits(
            a->Number_0.f64_bits,
            b->Number_0.f64_bits,
        )),
        (a is Number && b is Number && a->Number_0.f64_bits & 0x7fff_ffff_ffff_ffffu64 != 0) ==> (
        json_equal(a, b) ==> a->Number_0.f64_bits == b->Number_0.f64_bits),
        (a is Number && !(b is Number)) ==> !json_equal(a, b),
        (a is Array && !(b is Array)) ==> !json_equal(a, b),
        (a is Object && !(b is Object)) ==> !json_equal(a, b),
        (a is Array && b is Array && a->Array_0.len() != b->Array_0.len()) ==> !json_equal(a, b),
        (a is Array && b is Array && json_equal(a, b)) ==> forall|i: int|
            0 <= i < a->Array_0.len() ==> json_equal(#[trigger] a->Array_0[i], b->Array_0[i]),
        (a is Array && b is Array && a->Array_0.len() == b->Array_0.len() && forall|i: int|
            0 <= i < a->Array_0.len() ==> json_equal(#[trigger] a->Array_0[i], b->Array_0[i]))
            ==> json_equal(a, b),
        (a is Object && b is Object && a->Object_0.len() != b->Object_0.len()) ==> !json_equal(
            a,
            b,
        ),
        (a is Object && b is Object && json_equal(a, b)) ==> forall|i: int|
            0 <= i < a->Object_0.len() ==> (#[trigger] a->Object_0[i]).0 == b->Object_0[i].0
                && json_equal(a->Object_0[i].1, b->Object_0[i].1),
        (a is Object && b is Object && a->Object_0.len() == b->Object_0.len() && forall|i: int|
            0 <= i < a->Object_0.len() ==> (#[trigger] a->Object_0[i]).0 == b->Object_0[i].0
                && json_equal(a->Object_0[i].1, b->Object_0[i].1)) ==> json_equal(a, b),
{
    if let JsonData::Number(x) = a {
        if let JsonData::Number(y) = b {
            lemma_f64_equality_by_bits(x.f64_bits, y.f64_bits);
        }
    }
}

impl JsonValue {
    /// A copy of the value.
    pub fn duplicate(&self) -> (r: JsonValue)
        ensures
            r@ == self@,
        decreases self,
    {
        broadcast use group_json_view;

        match self {
            JsonValue::Null => JsonValue::Null,
            JsonValue::Bool(b) => JsonValue::Bool(*b),
            JsonValue::Number(n) => JsonValue::Number(*n),
            JsonValue::String(s) => JsonValue::String(s.clone()),
            JsonValue::Array(items) => {
                let copy = duplicate_values(items);
                let r = JsonValue::Array(copy);
                proof {
                    assert(values_view(copy@) =~= values_view(items@));
                }
                r
            },
            JsonValue::Object(map) => {
                let copy = map.duplicate();
                let r = JsonValue::Object(copy);
                r
            },
        }
    }

    /// The value is `null`.
    pub fn is_null(&self) -> (r: bool)
        ensures
            r == (self@ is Null),
    {
        match self {
            JsonValue::Null => true,
            _ => false,
        }
    }

    /// The value is a boolean.
    pub fn is_boolean(&self) -> (r: bool)
        ensures
            r == (self@ is Bool),
    {
        match self {
            JsonValue::Bool(_) => true,
            _ => false,
        }
    }

    /// The value is a number.
    pub fn is_number(&self) -> (r: bool)
        ensures
            r == (self@ is Number),
    {
        match self {
            JsonValue::Number(_) => true,
            _ => false,
        }
    }

    /// The value is a string.
    pub fn is_string(&self) -> (r: bool)
        ensures
            r == (self@ is String),
    {
        match self {
            JsonValue::String(_) => true,
            _ => false,
        }
    }

    /// The value is an array.
    pub fn is_array(&self) -> (r: bool)
        ensures
            r == (self@ is Array),
    {
        match self {
            JsonValue::Array(_) => true,
            _ => false,
        }
    }

    /// The value is an object.
    pub fn is_object(&self) -> (r: bool)
        ensures
            r == (self@ is Object),
    {
        match self {
            JsonValue::Object(_) => true,
            _ => false,
        }
    }
}

/// A copy of a sequence of values.
pub fn duplicate_values(items: &Vec<JsonValue>) -> (r: Vec<JsonValue>)
    ensures
        r@.len() == items@.len(),
        forall|i: int| 0 <= i < items@.len() ==> (#[trigger] r@[i])@ == items@[i]@,
    decreases items,
{
    let mut out: Vec<JsonValue> = Vec::new();
    let mut i: usize = 0;
    while i < items.len()
        invariant
            i <= items@.len(),
            out@.len() == i,
            forall|j: int| 0 <= j < i ==> (#[trigger] out@[j])@ == items@[j]@,
        decreases items@.len() - i,
    {
        assert(decreases_to!(items => items@[i as int]));
        let item = items[i].duplicate();
        out.push(item);
        i = i + 1;
    }
    out
}

impl JsonMap {
    /// A copy of the object.
    pub fn duplicate(&self) -> (r: JsonMap)
        ensures
            r@ == self@,
        decreases self,
    {
        let mut out: Vec<(String, JsonValue)> = Vec::new();
        let mut i: usize = 0;
        while i < self.entries.len()
            invariant
                i <= self.entries@.len(),
                out@.len() == i,
                forall|j: int|
                    0 <= j < i ==> (#[trigger] out@[j]).0@ == self.entries@[j].0@ && out@[j].1@
                        == self.entries@[j].1@,
            decreases self.entries@.len() - i,
        {
            assert(decreases_to!(self => self.entries));
            assert(decreases_to!(self.entries => self.entries@[i as int]));
            let key = self.entries[i].0.clone();
            let value = self.entries[i].1.duplicate();
            out.push((key, value));
            i = i + 1;
        }
        let r = JsonMap { entries: out };
        assert(r@ =~= self@);
        r
    }

    /// The number of members.
    pub fn len(&self) -> (r: usize)
        ensures
            r == self.entries@.len(),
    {
        self.entries.len()
    }
}

/// A copy of a sequence of strings (a schema path).
pub fn duplicate_strings(items: &Vec<String>) -> (r: Vec<String>)
    ensures
        r@ == items@,
{
    let mut out: Vec<String> = Vec::new();
    let mut i: usize = 0;
    while i < items.len()
        invariant
            i <= items@.len(),
            out@ == items@.subrange(0, i as int),
        decreases items@.len() - i,
    {
        out.push(items[i].clone());
        i = i + 1;
        assert(out@ =~= items@.subrange(0, i as int));
    }
    assert(items@.subrange(0, items@.len() as int) =~= items@);
    out
}

} // verus!
