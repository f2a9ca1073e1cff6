//! JSON documents as plain data, and typed reads of the members of an object.
//!
//! An object is an ordered list of named members. A name that occurs more than once is
//! read at its first occurrence. A member that holds `null` counts as absent wherever a
//! member is optional.

use crate::text::str_eq;
use vstd::prelude::*;

verus! {

/// A JSON number.
#[derive(Clone, Copy, Debug, PartialEq, Eq)]
pub enum Number {
    /// An integer within the signed 64-bit range.
    Int(i64),
    /// An integer within the unsigned 64-bit range.
    Uint(u64),
    /// Any other number, as the bit pattern of its IEEE 754 binary64 value.
    Float(u64),
}

/// A JSON value.
#[derive(Debug, PartialEq, Eq)]
pub enum Json {
    Null,
    Bool(bool),
    Number(Number),
    Text(String),
    Array(Vec<Json>),
    Object(Vec<Member>),
}

/// A named member of an object.
pub type Member = (String, Json);

/// What a JSON value says, apart from how it is held in memory.
pub enum JsonValue {
    Null,
    Bool(bool),
    Number(Number),
    Text(Seq<char>),
    Array(Seq<JsonValue>),
    Object(Seq<(Seq<char>, JsonValue)>),
}

/// What `json` says.
pub open spec fn value_of(json: Json) -> JsonValue
    decreases json,
{
    match json {
        Json::Null => JsonValue::Null,
        Json::Bool(b) => JsonValue::Bool(b),
        Json::Number(n) => JsonValue::Number(n),
        Json::Text(s) => JsonValue::Text(s@),
        Json::Array(items) => JsonValue::Array(
            Seq::new(
                items@.len(),
                |i: int|
                    if 0 <= i < items@.len() {
                        value_of(items@[i])
                    } else {
                        JsonValue::Null
                    },
            ),
        ),
        Json::Object(members) => JsonValue::Object(
            Seq::new(
                members@.len(),
                |i: int|
                    if 0 <= i < members@.len() {
                        (members@[i].0@, value_of(members@[i].1))
                    } else {
                        (Seq::empty(), JsonValue::Null)
                    },
            ),
        ),
    }
}

impl View for Json {
    type V = JsonValue;

    open spec fn view(&self) -> JsonValue {
        value_of(*self)
    }
}

impl Clone for Json {
    /// A copy that says what `self` says.
    fn clone(&self) -> (copy: Self)
        ensures
            copy@ == self@,
        decreases self,
    {
        match self {
            Json::Null => Json::Null,
            Json::Bool(b) => Json::Bool(*b),
            Json::Number(n) => Json::Number(*n),
            Json::Text(s) => Json::Text(s.clone()),
            Json::Array(items) => {
                let mut copies: Vec<Json> = Vec::new();
                let mut i: usize = 0;
                while i < items.len()
                    invariant
                        i <= items.len(),
                        decreases_to!(*self => *items),
                        *self == Json::Array(*items),
                        copies@.len() == i,
                        forall|j: int| 0 <= j < i ==> (#[trigger] copies@[j])@ == items@[j]@,
                    decreases items.len() - i,
                {
                    proof {
                        vstd::std_specs::vec::axiom_vec_index_decreases(*items, i as int);
                    }
                    copies.push(items[i].clone());
                    i += 1;
                }
                let copy = Json::Array(copies);
                proof {
                    assert(copy@->Array_0 =~= self@->Array_0);
                }
                copy
            },
            Json::Object(members) => {
                let mut copies: Vec<Member> = Vec::new();
                let mut i: usize = 0;
                while i < members.len()
                    invariant
                        i <= members.len(),
                        decreases_to!(*self => *members),
                        *self == Json::Object(*members),
                        copies@.len() == i,
                        forall|j: int|
                            0 <= j < i ==> (#[trigger] copies@[j]).0@ == members@[j].0@
                                && copies@[j].1@ == members@[j].1@,
                    decreases members.len() - i,
                {
                    proof {
                        vstd::std_specs::vec::axiom_vec_index_decreases(*members, i as int);
                    }
                    copies.push((members[i].0.clone(), members[i].1.clone()));
                    i += 1;
                }
                let copy = Json::Object(copies);
                proof {
                    assert(copy@->Object_0 =~= self@->Object_0);
                }
                copy
            },
        }
    }
}

impl Number {
    /// The integer this number denotes, if it is written as one.
    pub open spec fn as_int(self) -> Option<int> {
        match self {
            Number::Int(n) => Some(n as int),
            Number::Uint(n) => Some(n as int),
            Number::Float(_) => None,
        }
    }

    /// The number as a signed 64-bit integer, if it is an integer in that range.
    pub open spec fn as_i64(self) -> Option<i64> {
        match self.as_int() {
            Some(v) => if i64::MIN <= v <= i64::MAX {
                Some(v as i64)
            } else {
                None
            },
            None => None,
        }
    }

    /// The number as a signed 32-bit integer, if it is an integer in that range.
    pub open spec fn as_i32(self) -> Option<i32> {
        match self.as_int() {
            Some(v) => if i32::MIN <= v <= i32::MAX {
                Some(v as i32)
            } else {
                None
            },
            None => None,
        }
    }

    /// The number as a signed 64-bit integer, if it is an integer in that range.
    pub fn to_i64(&self) -> (r: Option<i64>)
        ensures
            r == self.as_i64(),
    {
        match self {
            Number::Int(n) => Some(*n),
            Number::Uint(n) => if *n <= 0x7fff_ffff_ffff_ffff {
                Some(*n as i64)
            } else {
                None
            },
            Number::Float(_) => None,
        }
    }

    /// The number as a signed 32-bit integer, if it is an integer in that range.
    pub fn to_i32(&self) -> (r: Option<i32>)
        ensures
            r == self.as_i32(),
    {
        match self {
            Number::Int(n) => if -0x8000_0000 <= *n && *n <= 0x7fff_ffff {
                Some(*n as i32)
            } else {
                None
            },
            Number::Uint(n) => if *n <= 0x7fff_ffff {
                Some(*n as i32)
            } else {
                None
            },
            Number::Float(_) => None,
        }
    }
}

/// `i` is the first position in `members` whose name is `key`.
pub open spec fn first_named(members: Seq<Member>, key: Seq<char>, i: int) -> bool {
    &&& 0 <= i < members.len()
    &&& members[i].0@ == key
    &&& forall|j: int| 0 <= j < i ==> (#[trigger] members[j]).0@ != key
}

/// No member of `members` is named `key`.
pub open spec fn unnamed(members: Seq<Member>, key: Seq<char>) -> bool {
    forall|j: int| 0 <= j < members.len() ==> (#[trigger] members[j]).0@ != key
}

/// The value of the first member named `key`.
pub open spec fn member(members: Seq<Member>, key: Seq<char>) -> Option<Json> {
    if exists|i: int| first_named(members, key, i) {
        Some(members[choose|i: int| first_named(members, key, i)].1)
    } else {
        None
    }
}

/// The first member named `key` stands at exactly one position.
pub proof fn lemma_member_at(members: Seq<Member>, key: Seq<char>, i: int)
    requires
        first_named(members, key, i),
    ensures
        member(members, key) == Some(members[i].1),
{
}

/// Where no member is named `key`, none is found.
pub proof fn lemma_member_none(members: Seq<Member>, key: Seq<char>)
    requires
        unnamed(members, key),
    ensures
        member(members, key) is None,
{
}

/// A member that must be a string.
pub open spec fn text_at(members: Seq<Member>, key: Seq<char>) -> Option<String> {
    match member(members, key) {
        Some(Json::Text(s)) => Some(s),
        _ => None,
    }
}

/// A member that must be an integer in the signed 64-bit range.
pub open spec fn i64_at(members: Seq<Member>, key: Seq<char>) -> Option<i64> {
    match member(members, key) {
        Some(Json::Number(n)) => n.as_i64(),
        _ => None,
    }
}

/// A member that may be absent, and is a string where it is present. The outer `None`
/// says that it is present and no string.
pub open spec fn opt_text_at(members: Seq<Member>, key: Seq<char>) -> Option<
    Option<String>,
> {
    match member(members, key) {
        None => Some(None),
        Some(Json::Null) => Some(None),
        Some(Json::Text(s)) => Some(Some(s)),
        _ => None,
    }
}

/// A member that may be absent, and is an integer in the signed 64-bit range where it
/// is present.
pub open spec fn opt_i64_at(members: Seq<Member>, key: Seq<char>) -> Option<Option<i64>> {
    match member(members, key) {
        None => Some(None),
        Some(Json::Null) => Some(None),
        Some(Json::Number(n)) => match n.as_i64() {
            Some(v) => Some(Some(v)),
            None => None,
        },
        _ => None,
    }
}

/// A member that may be absent, and is an integer in the signed 32-bit range where it
/// is present.
pub open spec fn opt_i32_at(members: Seq<Member>, key: Seq<char>) -> Option<Option<i32>> {
    match member(members, key) {
        None => Some(None),
        Some(Json::Null) => Some(None),
        Some(Json::Number(n)) => match n.as_i32() {
            Some(v) => Some(Some(v)),
            None => None,
        },
        _ => None,
    }
}

/// A member that may be absent, and is a number of any kind where it is present.
pub open spec fn opt_number_at(members: Seq<Member>, key: Seq<char>) -> Option<
    Option<Number>,
> {
    match member(members, key) {
        None => Some(None),
        Some(Json::Null) => Some(None),
        Some(Json::Number(n)) => Some(Some(n)),
        _ => None,
    }
}

/// A member that may be absent, and is `true` or `false` where it is present.
pub open spec fn opt_bool_at(members: Seq<Member>, key: Seq<char>) -> Option<Option<bool>> {
    match member(members, key) {
        None => Some(None),
        Some(Json::Null) => Some(None),
        Some(Json::Bool(b)) => Some(Some(b)),
        _ => None,
    }
}

/// A member of any shape, which may be absent.
pub open spec fn opt_any_at(members: Seq<Member>, key: Seq<char>) -> Option<Json> {
    match member(members, key) {
        None => None,
        Some(Json::Null) => None,
        Some(v) => Some(v),
    }
}

/// The position of the first member named `key`.
pub fn find(members: &Vec<Member>, key: &str) -> (r: Option<usize>)
    ensures
        match r {
            Some(i) => first_named(members@, key@, i as int),
            None => unnamed(members@, key@),
        },
{
    let n: usize = members.len();
    let mut i: usize = 0;
    while i < n
        invariant
            i <= n,
            n == members@.len(),
            forall|j: int| 0 <= j < i ==> (#[trigger] members@[j]).0@ != key@,
        decreases n - i,
    {
        if str_eq(members[i].0.as_str(), key) {
            return Some(i);
        }
        i += 1;
    }
    None
}

/// The value of the first member named `key`.
pub fn get<'a>(members: &'a Vec<Member>, key: &str) -> (r: Option<&'a Json>)
    ensures
        match r {
            Some(v) => member(members@, key@) == Some(*v),
            None => member(members@, key@) is None,
        },
{
    match find(members, key) {
        Some(i) => {
            proof {
                lemma_member_at(members@, key@, i as int);
            }
            Some(&members[i].1)
        },
        None => {
            proof {
                lemma_member_none(members@, key@);
            }
            None
        },
    }
}

/// Reads a member that must be a string. `None` says that it is missing or no string.
pub fn read_text(members: &Vec<Member>, key: &str) -> (r: Option<String>)
    ensures
        r == text_at(members@, key@),
{
    match get(members, key) {
        Some(Json::Text(s)) => Some(s.clone()),
        _ => None,
    }
}

/// Reads a member that must be an integer in the signed 64-bit range. `None` says that
/// it is missing or no such integer.
pub fn read_i64(members: &Vec<Member>, key: &str) -> (r: Option<i64>)
    ensures
        r == i64_at(members@, key@),
{
    match get(members, key) {
        Some(Json::Number(n)) => n.to_i64(),
        _ => None,
    }
}

/// Reads a member that may be absent, and is a string where it is present. The outer
/// `None` says that it is present and no string.
pub fn read_opt_text(members: &Vec<Member>, key: &str) -> (r: Option<Option<String>>)
    ensures
        r == opt_text_at(members@, key@),
{
    match get(members, key) {
        None => Some(None),
        Some(Json::Null) => Some(None),
        Some(Json::Text(s)) => Some(Some(s.clone())),
        _ => None,
    }
}

/// Reads a member that may be absent, and is an integer in the signed 64-bit range
/// where it is present. The outer `None` says that it is present and no such integer.
pub fn read_opt_i64(members: &Vec<Member>, key: &str) -> (r: Option<Option<i64>>)
    ensures
        r == opt_i64_at(members@, key@),
{
    match get(members, key) {
        None => Some(None),
        Some(Json::Null) => Some(None),
        Some(Json::Number(n)) => match n.to_i64() {
            Some(v) => Some(Some(v)),
            None => None,
        },
        _ => None,
    }
}

/// Reads a member that may be absent, and is an integer in the signed 32-bit range
/// where it is present. The outer `None` says that it is present and no such integer.
pub fn read_opt_i32(members: &Vec<Member>, key: &str) -> (r: Option<Option<i32>>)
    ensures
        r == opt_i32_at(members@, key@),
{
    match get(members, key) {
        None => Some(None),
        Some(Json::Null) => Some(None),
        Some(Json::Number(n)) => match n.to_i32() {
            Some(v) => Some(Some(v)),
            None => None,
        },
        _ => None,
    }
}

/// Reads a member that may be absent, and is a number of any kind where it is present.
/// The outer `None` says that it is present and no number.
pub fn read_opt_number(members: &Vec<Member>, key: &str) -> (r: Option<Option<Number>>)
    ensures
        r == opt_number_at(members@, key@),
{
    match get(members, key) {
        None => Some(None),
        Some(Json::Null) => Some(None),
        Some(Json::Number(n)) => Some(Some(*n)),
        _ => None,
    }
}

/// Reads a member that may be absent, and is `true` or `false` where it is present.
/// The outer `None` says that it is present and neither.
pub fn read_opt_bool(members: &Vec<Member>, key: &str) -> (r: Option<Option<bool>>)
    ensures
        r == opt_bool_at(members@, key@),
{
    match get(members, key) {
        None => Some(None),
        Some(Json::Null) => Some(None),
        Some(Json::Bool(b)) => Some(Some(*b)),
        _ => None,
    }
}

/// The members without the first one named `key`.
pub open spec fn without(members: Seq<Member>, key: Seq<char>) -> Seq<Member> {
    if exists|i: int| first_named(members, key, i) {
        members.remove(choose|i: int| first_named(members, key, i))
    } else {
        members
    }
}

/// Takes the first member named `key` out of `members` and hands over its value, or
/// `None` where that value is `null`. Nothing is taken where no member has that name.
pub fn take_opt_any(members: &mut Vec<Member>, key: &str) -> (r: Option<Json>)
    ensures
        r == opt_any_at(old(members)@, key@),
        final(members)@ == without(old(members)@, key@),
{
    match find(members, key) {
        Some(i) => {
            proof {
                lemma_member_at(members@, key@, i as int);
            }
            let taken = members.remove(i);
            match taken.1 {
                Json::Null => None,
                v => Some(v),
            }
        },
        None => {
            proof {
                lemma_member_none(members@, key@);
            }
            None
        },
    }
}

} // verus!
