//! The seven primitive types of JSON Schema, and sets of them.
use vstd::prelude::*;
use vstd::string::{StrSliceExecFns, StringExecFns};

verus! {

/// A primitive type that the `type` keyword can name.
#[derive(Clone, Copy, Debug, PartialEq, Eq, Structural)]
pub enum PrimitiveType {
    Array,
    Boolean,
    Integer,
    Null,
    Number,
    Object,
    String,
}

/// The name by which a schema refers to a primitive type.
pub open spec fn name_of_type(t: PrimitiveType) -> Seq<char> {
    match t {
        PrimitiveType::Array => "array"@,
        PrimitiveType::Boolean => "boolean"@,
        PrimitiveType::Integer => "integer"@,
        PrimitiveType::Null => "null"@,
        PrimitiveType::Number => "number"@,
        PrimitiveType::Object => "object"@,
        PrimitiveType::String => "string"@,
    }
}

/// The primitive type that a name refers to, if any.
pub open spec fn type_called(name: Seq<char>) -> Option<PrimitiveType> {
    if name == "array"@ {
        Some(PrimitiveType::Array)
    } else if name == "boolean"@ {
        Some(PrimitiveType::Boolean)
    } else if name == "integer"@ {
        Some(PrimitiveType::Integer)
    } else if name == "null"@ {
        Some(PrimitiveType::Null)
    } else if name == "number"@ {
        Some(PrimitiveType::Number)
    } else if name == "object"@ {
        Some(PrimitiveType::Object)
    } else if name == "string"@ {
        Some(PrimitiveType::String)
    } else {
        None
    }
}

/// Each primitive type is found again by its name, and by no other name.
pub proof fn lemma_type_name_round_trip(t: PrimitiveType, name: Seq<char>)
    ensures
        type_called(name_of_type(t)) == Some(t),
        type_called(name) == Some(t) <==> name == name_of_type(t),
{
    reveal_strlit("array");
    reveal_strlit("boolean");
    reveal_strlit("integer");
    reveal_strlit("null");
    reveal_strlit("number");
    reveal_strlit("object");
    reveal_strlit("string");
    assert("array"@.len() == 5 && "array"@[0] == 'a');
    assert("boolean"@.len() == 7 && "boolean"@[0] == 'b');
    assert("integer"@.len() == 7 && "integer"@[0] == 'i');
    assert("null"@.len() == 4 && "null"@[0] == 'n');
    assert("number"@.len() == 6 && "number"@[0] == 'n');
    assert("object"@.len() == 6 && "object"@[0] == 'o');
    assert("string"@.len() == 6 && "string"@[0] == 's');
}

/// Decides whether two strings hold the same characters.
fn str_equals(a: &str, b: &str) -> (r: bool)
    ensures
        r == (a@ == b@),
{
    let n = a.unicode_len();
    if n != b.unicode_len() {
        return false;
    }
    let mut i: usize = 0;
    while i < n
        invariant
            n == a@.len(),
            n == b@.len(),
            i <= n,
            forall|j: int| 0 <= j < i ==> a@[j] == b@[j],
        decreases n - i,
    {
        if a.get_char(i) != b.get_char(i) {
            return false;
        }
        i = i + 1;
    }
    assert(a@ =~= b@);
    true
}

impl PrimitiveType {
    /// The primitive type that `name` refers to; an unknown name is refused.
    pub fn try_from(name: &str) -> (r: Result<PrimitiveType, ()>)
        ensures
            r == match type_called(name@) {
                Some(t) => Ok(t),
                None => Err(()),
            },
    {
        if str_equals(name, "array") {
            Ok(PrimitiveType::Array)
        } else if str_equals(name, "boolean") {
            Ok(PrimitiveType::Boolean)
        } else if str_equals(name, "integer") {
            Ok(PrimitiveType::Integer)
        } else if str_equals(name, "null") {
            Ok(PrimitiveType::Null)
        } else if str_equals(name, "number") {
            Ok(PrimitiveType::Number)
        } else if str_equals(name, "object") {
            Ok(PrimitiveType::Object)
        } else if str_equals(name, "string") {
            Ok(PrimitiveType::String)
        } else {
            Err(())
        }
    }

    /// The name of the type, as a schema writes it.
    pub fn name(&self) -> (r: &'static str)
        ensures
            r@ == name_of_type(*self),
    {
        match self {
            PrimitiveType::Array => "array",
            PrimitiveType::Boolean => "boolean",
            PrimitiveType::Integer => "integer",
            PrimitiveType::Null => "null",
            PrimitiveType::Number => "number",
            PrimitiveType::Object => "object",
            PrimitiveType::String => "string",
        }
    }

    /// The name of the type, as an owned string.
    pub fn to_string(&self) -> (r: String)
        ensures
            r@ == name_of_type(*self),
    {
        self.name().to_owned()
    }
}

/// The bit that stands for a primitive type in a set of types.
pub open spec fn type_bit(t: PrimitiveType) -> u8 {
    match t {
        PrimitiveType::Array => 1,
        PrimitiveType::Boolean => 2,
        PrimitiveType::Integer => 4,
        PrimitiveType::Null => 8,
        PrimitiveType::Number => 16,
        PrimitiveType::Object => 32,
        PrimitiveType::String => 64,
    }
}

/// The primitive types in the order in which a set of them is listed.
pub open spec fn all_types() -> Seq<PrimitiveType> {
    seq![
        PrimitiveType::Array,
        PrimitiveType::Boolean,
        PrimitiveType::Integer,
        PrimitiveType::Null,
        PrimitiveType::Number,
        PrimitiveType::Object,
        PrimitiveType::String,
    ]
}

/// `t` as a one-element sequence when `s` holds it, else empty.
pub open spec fn listed_if_in(s: Set<PrimitiveType>, t: PrimitiveType) -> Seq<PrimitiveType> {
    if s.contains(t) {
        seq![t]
    } else {
        seq![]
    }
}

/// The members of a set of types, listed in the order of `all_types`.
pub open spec fn ordered_types(s: Set<PrimitiveType>) -> Seq<PrimitiveType> {
    listed_if_in(s, PrimitiveType::Array) + listed_if_in(s, PrimitiveType::Boolean)
        + listed_if_in(s, PrimitiveType::Integer) + listed_if_in(s, PrimitiveType::Null)
        + listed_if_in(s, PrimitiveType::Number) + listed_if_in(s, PrimitiveType::Object)
        + listed_if_in(s, PrimitiveType::String)
}

/// A set of primitive types, one bit per type.
#[derive(Clone, Copy, Debug)]
pub struct PrimitiveTypesBitMap {
    inner: u8,
}

proof fn lemma_bit_or(x: u8, b: u8, c: u8)
    by (bit_vector)
    ensures
        ((x | b) & c != 0) == ((x & c != 0) || (b & c != 0)),
        x & 0 == 0,
        0u8 & c == 0,
{
}

proof fn lemma_type_bits_distinct(t: PrimitiveType, u: PrimitiveType)
    ensures
        (type_bit(t) & type_bit(u) != 0) == (t == u),
{
    assert(1u8 & 1u8 == 1 && 1u8 & 2u8 == 0 && 1u8 & 4u8 == 0 && 1u8 & 8u8 == 0 && 1u8 & 16u8 == 0
        && 1u8 & 32u8 == 0 && 1u8 & 64u8 == 0) by (bit_vector);
    assert(2u8 & 1u8 == 0 && 2u8 & 2u8 == 2 && 2u8 & 4u8 == 0 && 2u8 & 8u8 == 0 && 2u8 & 16u8 == 0
        && 2u8 & 32u8 == 0 && 2u8 & 64u8 == 0) by (bit_vector);
    assert(4u8 & 1u8 == 0 && 4u8 & 2u8 == 0 && 4u8 & 4u8 == 4 && 4u8 & 8u8 == 0 && 4u8 & 16u8 == 0
        && 4u8 & 32u8 == 0 && 4u8 & 64u8 == 0) by (bit_vector);
    assert(8u8 & 1u8 == 0 && 8u8 & 2u8 == 0 && 8u8 & 4u8 == 0 && 8u8 & 8u8 == 8 && 8u8 & 16u8 == 0
        && 8u8 & 32u8 == 0 && 8u8 & 64u8 == 0) by (bit_vector);
    assert(16u8 & 1u8 == 0 && 16u8 & 2u8 == 0 && 16u8 & 4u8 == 0 && 16u8 & 8u8 == 0 && 16u8 & 16u8
        == 16 && 16u8 & 32u8 == 0 && 16u8 & 64u8 == 0) by (bit_vector);
    assert(32u8 & 1u8 == 0 && 32u8 & 2u8 == 0 && 32u8 & 4u8 == 0 && 32u8 & 8u8 == 0 && 32u8 & 16u8
        == 0 && 32u8 & 32u8 == 32 && 32u8 & 64u8 == 0) by (bit_vector);
    assert(64u8 & 1u8 == 0 && 64u8 & 2u8 == 0 && 64u8 & 4u8 == 0 && 64u8 & 8u8 == 0 && 64u8 & 16u8
        == 0 && 64u8 & 32u8 == 0 && 64u8 & 64u8 == 64) by (bit_vector);
}

impl View for PrimitiveTypesBitMap {
    type V = Set<PrimitiveType>;

    closed spec fn view(&self) -> Set<PrimitiveType> {
        Set::new(|t: PrimitiveType| self.inner & type_bit(t) != 0)
    }
}

impl PrimitiveType {
    /// The bit that stands for this type in a set of types.
    pub fn bit(&self) -> (r: u8)
        ensures
            r == type_bit(*self),
    {
        match self {
            PrimitiveType::Array => 1,
            PrimitiveType::Boolean => 2,
            PrimitiveType::Integer => 4,
            PrimitiveType::Null => 8,
            PrimitiveType::Number => 16,
            PrimitiveType::Object => 32,
            PrimitiveType::String => 64,
        }
    }
}

impl PrimitiveTypesBitMap {
    /// The empty set of types.
    pub fn new() -> (r: PrimitiveTypesBitMap)
        ensures
            r@ == Set::<PrimitiveType>::empty(),
    {
        let r = PrimitiveTypesBitMap { inner: 0 };
        proof {
            assert forall|t: PrimitiveType| !r@.contains(t) by {
                lemma_bit_or(0, 0, type_bit(t));
            }
            assert(r@ =~= Set::<PrimitiveType>::empty());
        }
        r
    }

    /// Adds a type to the set.
    pub fn add_type(&mut self, t: PrimitiveType)
        ensures
            final(self)@ == old(self)@.insert(t),
    {
        let ghost before = self.inner;
        self.inner = self.inner | t.bit();
        proof {
            assert forall|u: PrimitiveType| #[trigger] self@.contains(u) == old(self)@.insert(t).contains(u) by {
                lemma_bit_or(before, type_bit(t), type_bit(u));
                lemma_type_bits_distinct(t, u);
            }
            assert(self@ =~= old(self)@.insert(t));
        }
    }

    /// Whether the set holds a type.
    pub fn contains_type(&self, t: PrimitiveType) -> (r: bool)
        ensures
            r == self@.contains(t),
    {
        self.inner & t.bit() != 0
    }

    /// The types in the set, in the order of `all_types`.
    pub fn to_vec(&self) -> (r: Vec<PrimitiveType>)
        ensures
            r@ == ordered_types(self@),
    {
        let mut out: Vec<PrimitiveType> = Vec::new();
        if self.contains_type(PrimitiveType::Array) {
            out.push(PrimitiveType::Array);
        }
        assert(out@ =~= listed_if_in(self@, PrimitiveType::Array));
        let ghost so_far = out@;
        if self.contains_type(PrimitiveType::Boolean) {
            out.push(PrimitiveType::Boolean);
        }
        assert(out@ =~= so_far + listed_if_in(self@, PrimitiveType::Boolean));
        let ghost so_far = out@;
        if self.contains_type(PrimitiveType::Integer) {
            out.push(PrimitiveType::Integer);
        }
        assert(out@ =~= so_far + listed_if_in(self@, PrimitiveType::Integer));
        let ghost so_far = out@;
        if self.contains_type(PrimitiveType::Null) {
            out.push(PrimitiveType::Null);
        }
        assert(out@ =~= so_far + listed_if_in(self@, PrimitiveType::Null));
        let ghost so_far = out@;
        if self.contains_type(PrimitiveType::Number) {
            out.push(PrimitiveType::Number);
        }
        assert(out@ =~= so_far + listed_if_in(self@, PrimitiveType::Number));
        let ghost so_far = out@;
        if self.contains_type(PrimitiveType::Object) {
            out.push(PrimitiveType::Object);
        }
        assert(out@ =~= so_far + listed_if_in(self@, PrimitiveType::Object));
        let ghost so_far = out@;
        if self.contains_type(PrimitiveType::String) {
            out.push(PrimitiveType::String);
        }
        assert(out@ =~= so_far + listed_if_in(self@, PrimitiveType::String));
        out
    }
}

/// The names of a sequence of types, separated by `", "`.
pub open spec fn joined_names(ts: Seq<PrimitiveType>) -> Seq<char>
    decreases ts.len(),
{
    if ts.len() == 0 {
        seq![]
    } else if ts.len() == 1 {
        name_of_type(ts[0])
    } else {
        joined_names(ts.drop_last()) + ", "@ + name_of_type(ts.last())
    }
}

/// The names of `types`, separated by `", "`.
pub fn join_type_names(types: &Vec<PrimitiveType>) -> (r: String)
    ensures
        r@ == joined_names(types@),
{
    let mut out = String::new();
    let mut i: usize = 0;
    while i < types.len()
        invariant
            i <= types@.len(),
            out@ == joined_names(types@.take(i as int)),
        decreases types@.len() - i,
    {
        if i > 0 {
            out.append(", ");
        }
        out.append(types[i].name());
        assert(types@.take(i + 1).drop_last() =~= types@.take(i as int));
        i = i + 1;
    }
    assert(types@.take(types@.len() as int) =~= types@);
    out
}

} // verus!
