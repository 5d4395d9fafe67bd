//! Header fields of a response, and their lookup by name without regard to
//! case.

use vstd::prelude::*;

verus! {

/// One header field: its name and its value, as bytes.
#[derive(Clone, Debug)]
pub struct HeaderField {
    pub name: Vec<u8>,
    pub value: Vec<u8>,
}

/// An ASCII byte in lower case; other bytes unchanged.
pub open spec fn lower(b: u8) -> u8 {
    if 0x41 <= b <= 0x5a {
        (b + 0x20) as u8
    } else {
        b
    }
}

/// Whether `name` is `wanted` but for the case of its ASCII letters. `wanted`
/// is in lower case already.
pub open spec fn names_match(name: Seq<u8>, wanted: Seq<u8>) -> bool {
    &&& name.len() == wanted.len()
    &&& forall|i: int| 0 <= i < name.len() ==> lower(#[trigger] name[i]) == wanted[i]
}

/// The index of the first field named `wanted`, or the number of fields if
/// there is none.
pub open spec fn first_named(fields: Seq<HeaderField>, wanted: Seq<u8>) -> int
    decreases fields.len(),
{
    if fields.len() == 0 {
        0
    } else if names_match(fields[0].name@, wanted) {
        0
    } else {
        1 + first_named(fields.skip(1), wanted)
    }
}

/// The value of the first field named `wanted`, if any.
pub open spec fn header_value(fields: Seq<HeaderField>, wanted: Seq<u8>) -> Option<Seq<u8>> {
    if first_named(fields, wanted) < fields.len() {
        Some(fields[first_named(fields, wanted)].value@)
    } else {
        None
    }
}

/// Where the first field named `wanted` stands: no field before it has that
/// name, and it has it unless it is the end.
pub proof fn lemma_first_named(fields: Seq<HeaderField>, wanted: Seq<u8>)
    ensures
        0 <= first_named(fields, wanted) <= fields.len(),
        forall|i: int|
            0 <= i < first_named(fields, wanted)
                ==> !names_match((#[trigger] fields[i]).name@, wanted),
        first_named(fields, wanted) < fields.len() ==> names_match(
            fields[first_named(fields, wanted)].name@,
            wanted,
        ),
    decreases fields.len(),
{
    if fields.len() > 0 && !names_match(fields[0].name@, wanted) {
        lemma_first_named(fields.skip(1), wanted);
        assert forall|i: int| 0 <= i < first_named(fields, wanted) implies !names_match(
            (#[trigger] fields[i]).name@,
            wanted,
        ) by {
            if i > 0 {
                assert(fields.skip(1)[i - 1] == fields[i]);
            }
        }
    }
}

/// A position with no field named `wanted` before it that holds one, or is
/// the end, is where the first such field stands.
pub proof fn lemma_first_named_is(fields: Seq<HeaderField>, wanted: Seq<u8>, p: int)
    requires
        0 <= p <= fields.len(),
        forall|i: int| 0 <= i < p ==> !names_match((#[trigger] fields[i]).name@, wanted),
        p < fields.len() ==> names_match(fields[p].name@, wanted),
    ensures
        first_named(fields, wanted) == p,
{
    lemma_first_named(fields, wanted);
    let d = first_named(fields, wanted);
    if d < p {
        assert(!names_match(fields[d].name@, wanted));
    } else if p < d {
        assert(!names_match(fields[p].name@, wanted));
    }
}

/// Compares a field name with a wanted name, which is in lower case, without
/// regard to the case of ASCII letters.
pub fn name_is(name: &[u8], wanted: &[u8]) -> (r: bool)
    ensures
        r == names_match(name@, wanted@),
{
    if name.len() != wanted.len() {
        return false;
    }
    let mut i: usize = 0;
    while i < name.len()
        invariant
            0 <= i <= name.len(),
            name.len() == wanted.len(),
            forall|j: int| 0 <= j < i ==> lower(#[trigger] name@[j]) == wanted@[j],
        decreases name.len() - i,
    {
        let b: u8 = name[i];
        let folded: u8 = if 0x41 <= b && b <= 0x5a {
            b + 0x20
        } else {
            b
        };
        if folded != wanted[i] {
            assert(lower(name@[i as int]) != wanted@[i as int]);
            return false;
        }
        i += 1;
    }
    true
}

/// Finds the value of the first field with the wanted name.
pub fn find_header<'a>(fields: &'a Vec<HeaderField>, wanted: &[u8]) -> (r: Option<&'a Vec<u8>>)
    ensures
        match r {
            Some(v) => header_value(fields@, wanted@) == Some(v@),
            None => header_value(fields@, wanted@).is_none(),
        },
{
    let mut i: usize = 0;
    while i < fields.len()
        invariant
            0 <= i <= fields.len(),
            forall|j: int| 0 <= j < i ==> !names_match((#[trigger] fields@[j]).name@, wanted@),
        decreases fields.len() - i,
    {
        if name_is(fields[i].name.as_slice(), wanted) {
            proof {
                lemma_first_named_is(fields@, wanted@, i as int);
            }
            return Some(&fields[i].value);
        }
        i += 1;
    }
    proof {
        lemma_first_named_is(fields@, wanted@, fields.len() as int);
    }
    None
}

} // verus!
