//! A plain model of JSON values.
//!
//! The remote API speaks JSON; unmodeled parts of its responses are
//! carried through this library as values of this type, so that the
//! codec logic over them can be stated and verified. Non-integral
//! numbers are carried as their decimal text, so that they round-trip
//! unchanged.

use vstd::prelude::*;

verus! {

/// A JSON value. An object is an ordered list of key/value pairs, so
/// that re-serialization preserves the order in which fields arrived.
#[derive(Debug, PartialEq, Eq)]
pub enum JsonValue {
    Null,
    Bool(bool),
    Int(i64),
    /// A non-integral number, kept as its decimal text.
    Num(String),
    Str(String),
    Arr(Vec<JsonValue>),
    Obj(Vec<(String, JsonValue)>),
}

/// The value under the first occurrence of `key` in an ordered field
/// list, if any.
pub open spec fn spec_lookup(fields: Seq<(String, JsonValue)>, key: Seq<char>) -> Option<JsonValue>
    decreases fields.len(),
{
    if fields.len() == 0 {
        None
    } else if fields[0].0@ == key {
        Some(fields[0].1)
    } else {
        spec_lookup(fields.drop_first(), key)
    }
}

/// Looking a key up in a field list with one more entry at the end
/// finds the old entry first, and the new entry only if the key was
/// absent before.
pub proof fn lemma_lookup_push(
    fields: Seq<(String, JsonValue)>,
    entry: (String, JsonValue),
    key: Seq<char>,
)
    ensures
        spec_lookup(fields.push(entry), key) == (if spec_lookup(fields, key) is Some {
            spec_lookup(fields, key)
        } else if entry.0@ == key {
            Some(entry.1)
        } else {
            None
        }),
    decreases fields.len(),
{
    if fields.len() == 0 {
        assert(fields.push(entry).drop_first() =~= fields);
    } else {
        assert(fields.push(entry).drop_first() =~= fields.drop_first().push(entry));
        lemma_lookup_push(fields.drop_first(), entry, key);
    }
}

/// Finds the first occurrence of `key` in a field list, borrowing
/// its value.
#[verifier::loop_isolation(false)]
pub fn lookup_ref<'a>(fields: &'a Vec<(String, JsonValue)>, key: &str) -> (r: Option<&'a JsonValue>)
    ensures
        match r {
            Some(v) => spec_lookup(fields@, key@) == Some(*v),
            None => spec_lookup(fields@, key@) is None,
        },
{
    proof {
        assert(fields@.skip(0) =~= fields@);
    }
    let mut i: usize = 0;
    while i < fields.len()
        invariant
            i <= fields@.len(),
            spec_lookup(fields@, key@) == spec_lookup(fields@.skip(i as int), key@),
        decreases fields@.len() - i,
    {
        proof {
            assert(fields@.skip(i as int)[0] == fields@[i as int]);
            assert(fields@.skip(i as int).drop_first() =~= fields@.skip(i + 1));
        }
        if str_eq(fields[i].0.as_str(), key) {
            return Some(&fields[i].1);
        }
        i = i + 1;
    }
    None
}

/// Whether `a` and `b` are the same text.
pub fn str_eq(a: &str, b: &str) -> (r: bool)
    ensures
        r == (a@ == b@),
{
    let sa: String = a.to_owned();
    let sb: String = b.to_owned();
    sa == sb
}

} // verus!
