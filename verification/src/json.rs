//! JSON values as plain data, and what the client reads out of them and
//! writes into them.
//!
//! Reading bytes into a value and writing a value out is the caller's; a
//! value here is already a tree.

use crate::http::number::{i64_of, parse_i64};
use crate::text::{decimal, decimal_u64};
use vstd::pervasive::VecAdditionalExecFns;
use vstd::prelude::*;
use vstd::string::{StrSliceExecFns, StringExecFns, StringSliceAdditionalSpecFns};
use vstd::utf8::encode_utf8;

verus! {

/// A JSON value.
#[derive(Debug)]
pub enum JsonValue {
    Null,
    Bool(bool),
    /// A number, as the text that it is written as.
    Number(String),
    Text(String),
    Array(Vec<JsonValue>),
    /// An object: its members in order. No name occurs twice.
    Object(Vec<(String, JsonValue)>),
}

/// The position of the first member with the name among the members of an
/// object, or the number of members if there is none.
pub open spec fn member_position(members: Seq<(String, JsonValue)>, name: Seq<char>) -> int
    decreases members.len(),
{
    if members.len() == 0 {
        0
    } else if members[0].0@ == name {
        0
    } else {
        1 + member_position(members.skip(1), name)
    }
}

proof fn lemma_member_position(members: Seq<(String, JsonValue)>, name: Seq<char>)
    ensures
        0 <= member_position(members, name) <= members.len(),
        forall|i: int| 0 <= i < member_position(members, name)
            ==> (#[trigger] members[i]).0@ != name,
        member_position(members, name) < members.len() ==> members[member_position(
            members,
            name,
        )].0@ == name,
    decreases members.len(),
{
    if members.len() > 0 && members[0].0@ != name {
        lemma_member_position(members.skip(1), name);
        assert forall|i: int| 0 <= i < member_position(members, name) implies (
            #[trigger] members[i]
        ).0@ != name by {
            if i > 0 {
                assert(members.skip(1)[i - 1] == members[i]);
            }
        }
    }
}

proof fn lemma_member_position_is(members: Seq<(String, JsonValue)>, name: Seq<char>, p: int)
    requires
        0 <= p <= members.len(),
        forall|i: int| 0 <= i < p ==> (#[trigger] members[i]).0@ != name,
        p < members.len() ==> members[p].0@ == name,
    ensures
        member_position(members, name) == p,
{
    lemma_member_position(members, name);
    let d = member_position(members, name);
    if d < p {
        assert(members[d].0@ != name);
    } else if p < d {
        assert(members[p].0@ != name);
    }
}

fn find_member(members: &Vec<(String, JsonValue)>, name: &str) -> (p: usize)
    ensures
        p == member_position(members@, name@),
        p <= members@.len(),
{
    let wanted = String::from_str(name);
    let mut i: usize = 0;
    while i < members.len()
        invariant
            0 <= i <= members.len(),
            wanted@ == name@,
            forall|j: int| 0 <= j < i ==> (#[trigger] members@[j]).0@ != name@,
        decreases members.len() - i,
    {
        if members[i].0 == wanted {
            proof {
                lemma_member_position_is(members@, name@, i as int);
            }
            return i;
        }
        i += 1;
    }
    proof {
        lemma_member_position_is(members@, name@, members.len() as int);
    }
    i
}

impl JsonValue {
    /// The member of an object with the given name, if the value is an object
    /// and has one.
    pub open spec fn member(self, name: Seq<char>) -> Option<JsonValue> {
        match self {
            JsonValue::Object(members) => if member_position(members@, name) < members@.len() {
                Some(members@[member_position(members@, name)].1)
            } else {
                None
            },
            _ => None,
        }
    }

    /// The text of a value that is a text.
    pub open spec fn text(self) -> Option<Seq<char>> {
        match self {
            JsonValue::Text(t) => Some(t@),
            _ => None,
        }
    }

    /// The number of a value that is a whole number within `i64`.
    pub open spec fn integer(self) -> Option<i64> {
        match self {
            JsonValue::Number(t) => i64_of(encode_utf8(t@)),
            _ => None,
        }
    }

    /// Whether `after` is this value with the member `name` set to the
    /// number written as `digits`. A value that is no object stays as it is.
    /// In an object the member is replaced where it stands if there is one,
    /// and added at the end if there is none; every other member stays.
    pub open spec fn with_number(
        self,
        after: JsonValue,
        name: Seq<char>,
        digits: Seq<char>,
    ) -> bool {
        match self {
            JsonValue::Object(members) => {
                let p = member_position(members@, name);
                &&& after matches JsonValue::Object(set)
                &&& set@.len() == (if p < members@.len() {
                    members@.len()
                } else {
                    members@.len() + 1
                })
                &&& forall|i: int| 0 <= i < members@.len() && i != p ==> set@[i] == members@[i]
                &&& set@[p].0@ == name
                &&& set@[p].1 matches JsonValue::Number(t) && t@ == digits
            },
            _ => after == self,
        }
    }

    /// Whether `after` is this value with the member `name` set to the
    /// number written as `digits` in each of its elements. A value that is no
    /// array stays as it is; an element that is no object stays as it is.
    pub open spec fn with_number_in_each(
        self,
        after: JsonValue,
        name: Seq<char>,
        digits: Seq<char>,
    ) -> bool {
        match self {
            JsonValue::Array(items) => {
                &&& after matches JsonValue::Array(set)
                &&& set@.len() == items@.len()
                &&& forall|i: int|
                    0 <= i < items@.len()
                        ==> (#[trigger] items@[i]).with_number(set@[i], name, digits)
            },
            _ => after == self,
        }
    }

    /// Gives the member of an object with the given name.
    pub fn field(&self, name: &str) -> (m: Option<&JsonValue>)
        ensures
            match m {
                Some(v) => self.member(name@) == Some(*v),
                None => self.member(name@) is None,
            },
    {
        match self {
            JsonValue::Object(members) => {
                let p = find_member(members, name);
                if p < members.len() {
                    Some(&members[p].1)
                } else {
                    None
                }
            },
            _ => None,
        }
    }

    /// Gives the text of a value that is a text.
    pub fn as_text(&self) -> (t: Option<&str>)
        ensures
            match t {
                Some(s) => self.text() == Some(s@),
                None => self.text() is None,
            },
    {
        match self {
            JsonValue::Text(t) => Some(t.as_str()),
            _ => None,
        }
    }

    /// Gives the number of a value that is a whole number within `i64`.
    pub fn as_i64(&self) -> (n: Option<i64>)
        ensures
            n == self.integer(),
    {
        match self {
            JsonValue::Number(t) => parse_i64(t.as_str().as_bytes()),
            _ => None,
        }
    }

    /// Sets the member `name` of an object to the number `n`. A value that is
    /// no object is given back as it is.
    pub fn insert_u64(self, name: &str, n: u64) -> (after: JsonValue)
        ensures
            self.with_number(after, name@, decimal(n as nat)),
    {
        match self {
            JsonValue::Object(members) => {
                let ghost before = members@;
                let mut set = members;
                let p = find_member(&set, name);
                proof {
                    lemma_member_position(before, name@);
                }
                let number = JsonValue::Number(decimal_u64(n));
                if p < set.len() {
                    let (key, _) = set.remove(p);
                    set.insert(p, (key, number));
                    assert(set@ =~= before.update(p as int, (key, number)));
                } else {
                    set.push((String::from_str(name), number));
                }
                JsonValue::Object(set)
            },
            other => other,
        }
    }

    /// Sets the member `name` to the number `n` in each element of an array
    /// that is an object. A value that is no array is given back as it is.
    pub fn insert_u64_in_each(self, name: &str, n: u64) -> (after: JsonValue)
        ensures
            self.with_number_in_each(after, name@, decimal(n as nat)),
    {
        match self {
            JsonValue::Array(items) => {
                let ghost before = items@;
                let mut set = items;
                let mut i: usize = 0;
                while i < set.len()
                    invariant
                        0 <= i <= set@.len(),
                        set@.len() == before.len(),
                        forall|k: int|
                            0 <= k < i ==> (#[trigger] before[k]).with_number(
                                set@[k],
                                name@,
                                decimal(n as nat),
                            ),
                        forall|k: int| i <= k < set@.len() ==> set@[k] == before[k],
                    decreases set@.len() - i,
                {
                    let mut item = JsonValue::Null;
                    set.set_and_swap(i, &mut item);
                    let patched = item.insert_u64(name, n);
                    set.set(i, patched);
                    i += 1;
                }
                JsonValue::Array(set)
            },
            other => other,
        }
    }
}

} // verus!
