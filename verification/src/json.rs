use vstd::prelude::*;
use crate::text::str_eq;

verus! {

/// A structured value as the chat transport hands it over: the shape of a
/// JSON document. Numbers are carried as their literal text; the engine
/// never interprets them.
pub enum JsonValue {
    Null,
    Bool(bool),
    Number(String),
    Text(String),
    Array(Vec<JsonValue>),
    Object(Vec<(String, JsonValue)>),
}

/// The value of the first member with the given name, if any.
pub open spec fn spec_lookup(fields: Seq<(String, JsonValue)>, name: Seq<char>) -> Option<
    JsonValue,
>
    decreases fields.len(),
{
    if fields.len() == 0 {
        None
    } else if fields[0].0@ == name {
        Some(fields[0].1)
    } else {
        spec_lookup(fields.drop_first(), name)
    }
}

/// Find a member of an object by name.
pub fn lookup<'a>(fields: &'a Vec<(String, JsonValue)>, name: &str) -> (r: Option<&'a JsonValue>)
    ensures
        match r {
            Some(v) => spec_lookup(fields@, name@) == Some(*v),
            None => spec_lookup(fields@, name@) is None,
        },
{
    let n: usize = fields.len();
    let mut i: usize = 0;
    assert(fields@.skip(0) =~= fields@);
    while i < n
        invariant
            n == fields@.len(),
            i <= n,
            spec_lookup(fields@, name@) == spec_lookup(fields@.skip(i as int), name@),
        decreases n - i,
    {
        assert(fields@.skip(i as int)[0] == fields@[i as int]);
        if str_eq(fields[i].0.as_str(), name) {
            return Some(&fields[i].1);
        }
        assert(fields@.skip(i as int).drop_first() =~= fields@.skip(i + 1));
        i += 1;
    }
    assert(fields@.skip(i as int).len() == 0);
    None
}

} // verus!
