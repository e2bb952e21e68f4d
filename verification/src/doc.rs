//! The document model: a stored verification result is a semi-structured
//! JSON-like value. The store hands such values to this crate as plain data;
//! numbers are carried as their decimal source text, so the model stays exact
//! without any floating point.

use vstd::prelude::*;

verus! {

/// One semi-structured document value.
///
/// An object keeps its entries as an ordered list of key/value pairs; when a
/// key occurs more than once, the last occurrence is the one that counts
/// (see [`lookup`]).
pub enum JsonValue {
    Null,
    Bool(bool),
    /// A number, carried as the decimal text it had in the source document.
    Num(String),
    Str(String),
    Arr(Vec<JsonValue>),
    Obj(Vec<(String, JsonValue)>),
}

/// The value bound to `key` in an entry list: the last entry with that key
/// wins, `None` when no entry has it.
pub open spec fn lookup(entries: Seq<(String, JsonValue)>, key: Seq<char>) -> Option<JsonValue>
    decreases entries.len(),
{
    if entries.len() == 0 {
        None
    } else if entries.last().0@ == key {
        Some(entries.last().1)
    } else {
        lookup(entries.drop_last(), key)
    }
}

/// Scans an entry list for `key`, returning the value of its last occurrence.
pub fn find_entry<'a>(entries: &'a Vec<(String, JsonValue)>, key: &String) -> (r: Option<
    &'a JsonValue,
>)
    ensures
        match r {
            Some(v) => lookup(entries@, key@) == Some(*v),
            None => lookup(entries@, key@) is None,
        },
{
    proof {
        assert(entries@.take(entries@.len() as int) =~= entries@);
    }
    let mut i: usize = entries.len();
    while i > 0
        invariant
            i <= entries.len(),
            lookup(entries@, key@) == lookup(entries@.take(i as int), key@),
        decreases i,
    {
        i = i - 1;
        proof {
            assert(entries@.take(i + 1).drop_last() =~= entries@.take(i as int));
            assert(entries@.take(i + 1).last() == entries@[i as int]);
        }
        if entries[i].0 == *key {
            return Some(&entries[i].1);
        }
    }
    proof {
        assert(entries@.take(0) =~= Seq::<(String, JsonValue)>::empty());
    }
    None
}

} // verus!
