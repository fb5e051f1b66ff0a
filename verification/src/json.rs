//! JSON values as Signal K messages carry them.

use vstd::prelude::*;

use crate::text::same_text;

verus! {

/// The largest magnitude that is a number: an infinity. What lies above it, without
/// the sign, is not a number.
pub const INFINITE: u64 = 0x7ff0_0000_0000_0000;

/// The weight of the sign bit.
pub const SIGN: u64 = 0x8000_0000_0000_0000;

/// A double, held by its IEEE 754 bits.
#[derive(Clone, Copy, Debug)]
pub struct Number {
    pub bits: u64,
}

impl Number {
    /// The bits without the sign.
    pub open spec fn magnitude(self) -> u64 {
        self.bits % SIGN
    }

    /// Whether the value is not a number.
    pub open spec fn nan(self) -> bool {
        self.magnitude() > INFINITE
    }

    /// Whether two doubles compare as equal: neither is a NaN, and they are the same
    /// or both zero.
    pub open spec fn same(self, other: Number) -> bool {
        &&& !self.nan()
        &&& !other.nan()
        &&& self.bits == other.bits || (self.magnitude() == 0 && other.magnitude() == 0)
    }

    /// Whether the value is not a number.
    pub fn is_nan(&self) -> (r: bool)
        ensures
            r == self.nan(),
    {
        self.bits % SIGN > INFINITE
    }
}

impl PartialEq for Number {
    fn eq(&self, other: &Number) -> (r: bool) {
        !self.is_nan() && !other.is_nan() && (self.bits == other.bits || (self.bits % SIGN == 0
            && other.bits % SIGN == 0))
    }
}

impl vstd::std_specs::cmp::PartialEqSpecImpl for Number {
    open spec fn obeys_eq_spec() -> bool {
        true
    }

    open spec fn eq_spec(&self, other: &Number) -> bool {
        self.same(*other)
    }
}

/// One member of an object.
pub struct Member {
    pub key: String,
    pub value: Json,
}

/// A JSON value.
pub enum Json {
    Null,
    Bool(bool),
    Number(Number),
    Text(String),
    Array(Vec<Json>),
    Object(Vec<Member>),
}

/// The position of the first member with the key, or the number of members.
pub open spec fn key_position(members: Seq<Member>, key: Seq<char>) -> int
    decreases members.len(),
{
    if members.len() == 0 {
        0
    } else {
        let before = key_position(members.drop_last(), key);
        if before < members.len() - 1 || members.last().key@ == key {
            before
        } else {
            members.len() as int
        }
    }
}

impl Json {
    /// The elements of an array.
    pub open spec fn elements(self) -> Option<Seq<Json>> {
        match self {
            Json::Array(elements) => Some(elements@),
            _ => None,
        }
    }

    /// The value of the first member of an object with the key.
    pub open spec fn member(self, key: Seq<char>) -> Option<Json> {
        match self {
            Json::Object(members) => {
                let i = key_position(members@, key);
                if i < members@.len() {
                    Some(members@[i].value)
                } else {
                    None
                }
            },
            _ => None,
        }
    }

    /// The text of a string.
    pub open spec fn text(self) -> Option<Seq<char>> {
        match self {
            Json::Text(text) => Some(text@),
            _ => None,
        }
    }

    /// The number.
    pub open spec fn number(self) -> Option<Number> {
        match self {
            Json::Number(number) => Some(number),
            _ => None,
        }
    }

    /// The elements, if the value is an array.
    pub fn as_array(&self) -> (r: Option<&Vec<Json>>)
        ensures
            r is Some == self.elements() is Some,
            r matches Some(v) ==> self.elements() == Some(v@),
    {
        match self {
            Json::Array(elements) => Some(elements),
            _ => None,
        }
    }

    /// The member with the key, if the value is an object that has it.
    pub fn get(&self, key: &str) -> (r: Option<&Json>)
        ensures
            r is Some == self.member(key@) is Some,
            r matches Some(v) ==> self.member(key@) == Some(*v),
    {
        match self {
            Json::Object(members) => {
                let mut i: usize = 0;
                while i < members.len()
                    invariant
                        i <= members@.len(),
                        key_position(members@.take(i as int), key@) == i,
                        *self == Json::Object(*members),
                    decreases members@.len() - i,
                {
                    assert(members@.take(i + 1).drop_last() =~= members@.take(i as int));
                    if same_text(members[i].key.as_str(), key) {
                        proof {
                            lemma_key_position(members@, key@, i + 1);
                        }
                        return Some(&members[i].value);
                    }
                    i += 1;
                }
                assert(members@.take(i as int) =~= members@);
                None
            },
            _ => None,
        }
    }

    /// The text, if the value is a string.
    pub fn as_str(&self) -> (r: Option<&str>)
        ensures
            r is Some == self.text() is Some,
            r matches Some(v) ==> self.text() == Some(v@),
    {
        match self {
            Json::Text(text) => Some(text.as_str()),
            _ => None,
        }
    }

    /// The number, if the value is one.
    pub fn as_number(&self) -> (r: Option<Number>)
        ensures
            r == self.number(),
    {
        match self {
            Json::Number(number) => Some(*number),
            _ => None,
        }
    }
}

/// A key that is found among the first members is found there among all.
proof fn lemma_key_position(members: Seq<Member>, key: Seq<char>, n: int)
    requires
        0 <= n <= members.len(),
        key_position(members.take(n), key) < n,
    ensures
        key_position(members, key) == key_position(members.take(n), key),
    decreases members.len(),
{
    if n < members.len() {
        assert(members.drop_last().take(n) =~= members.take(n));
        lemma_key_position(members.drop_last(), key, n);
    } else {
        assert(members.take(n) =~= members);
    }
}

/// Numbers compare as IEEE 754 has it: a number equals itself and only itself, but for
/// the two zeros; what is not a number equals nothing.
pub proof fn law_numbers_compare(a: Number, b: Number)
    ensures
        a.same(b) == b.same(a),
        a.same(a) <==> !a.nan(),
        a.same(b) && a.bits != b.bits ==> (a.bits == 0 || a.bits == 0x8000_0000_0000_0000) && (
        b.bits == 0 || b.bits == 0x8000_0000_0000_0000),
        (Number { bits: 0 }).same(Number { bits: 0x8000_0000_0000_0000 }),
        !(Number { bits: 0x7ff0_0000_0000_0000 }).nan(),
        (Number { bits: 0x7ff8_0000_0000_0000 }).nan(),
        (Number { bits: 0xfff8_0000_0000_0000 }).nan(),
{
}

/// The member of an object is the first with its key; without one there is none.
pub proof fn law_first_member_counts(members: Vec<Member>, key: Seq<char>, i: int)
    requires
        0 <= i <= members@.len(),
        forall|k: int| 0 <= k < i ==> (#[trigger] members@[k]).key@ != key,
        i < members@.len() ==> members@[i].key@ == key,
    ensures
        Json::Object(members).member(key) == if i < members@.len() {
            Some(members@[i].value)
        } else {
            None
        },
{
    lemma_none_before(members@, key, i);
    if i < members@.len() {
        assert(members@.take(i + 1).drop_last() =~= members@.take(i));
        lemma_key_position(members@, key, i + 1);
    } else {
        assert(members@.take(i) =~= members@);
    }
}

proof fn lemma_none_before(members: Seq<Member>, key: Seq<char>, n: int)
    requires
        0 <= n <= members.len(),
        forall|k: int| 0 <= k < n ==> (#[trigger] members[k]).key@ != key,
    ensures
        key_position(members.take(n), key) == n,
    decreases n,
{
    if n > 0 {
        lemma_none_before(members, key, n - 1);
        assert(members.take(n).drop_last() =~= members.take(n - 1));
        assert(members.take(n).last() == members[n - 1]);
    }
}

} // verus!
