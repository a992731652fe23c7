//! The document tree the stores are read from and written to.
//!
//! A value mirrors a JSON value, with one liberty: a number is kept as
//! its literal text, so that a document can be carried through without
//! committing to any numeric type. Turning file text into this tree and
//! back is the embedding program's business; everything the tree's
//! content *means* is decided here, in verified code.

use vstd::prelude::*;

verus! {

/// A JSON document value.
#[derive(Debug)]
pub enum Json {
    Null,
    Bool(bool),
    /// A number, as its literal text.
    Num(String),
    Str(String),
    Arr(Vec<Json>),
    Obj(Vec<(String, Json)>),
}

/// The value under the first occurrence of a key in an object's field
/// list.
pub open spec fn spec_obj_get(fields: Seq<(String, Json)>, key: Seq<char>) -> Option<Json>
    decreases fields.len(),
{
    if fields.len() == 0 {
        None
    } else if fields[0].0@ == key {
        Some(fields[0].1)
    } else {
        spec_obj_get(fields.skip(1), key)
    }
}

/// Looks a key up in an object's field list, as `spec_obj_get` says.
pub fn obj_get<'a>(fields: &'a Vec<(String, Json)>, key: &str) -> (r: Option<&'a Json>)
    ensures
        match r {
            Some(j) => spec_obj_get(fields@, key@) == Some(*j),
            None => spec_obj_get(fields@, key@) is None,
        },
{
    proof {
        assert(fields@.skip(0) =~= fields@);
    }
    let mut i: usize = 0;
    while i < fields.len()
        invariant
            0 <= i <= fields@.len(),
            spec_obj_get(fields@, key@) == spec_obj_get(fields@.skip(i as int), key@),
        decreases fields@.len() - i,
    {
        let pair = &fields[i];
        if crate::text::str_eq(pair.0.as_str(), key) {
            return Some(&pair.1);
        }
        proof {
            assert(fields@.skip(i as int).skip(1) =~= fields@.skip(i + 1));
        }
        i += 1;
    }
    None
}

/// The loose reading of a scalar as a string: a string itself, a
/// number's literal text, `true`/`false`, or the empty string for
/// `null`. An array or object is no scalar.
pub open spec fn spec_scalar_string(j: Json) -> Option<Seq<char>> {
    match j {
        Json::Str(s) => Some(s@),
        Json::Num(n) => Some(n@),
        Json::Bool(b) => Some(
            if b {
                "true"@
            } else {
                "false"@
            },
        ),
        Json::Null => Some(Seq::<char>::empty()),
        _ => None,
    }
}

/// Reads a scalar loosely as a string, as `spec_scalar_string` says.
pub fn scalar_string(j: &Json) -> (r: Option<String>)
    ensures
        match r {
            Some(s) => spec_scalar_string(*j) == Some(s@),
            None => spec_scalar_string(*j) is None,
        },
{
    match j {
        Json::Str(s) => Some(s.clone()),
        Json::Num(n) => Some(n.clone()),
        Json::Bool(b) => Some(
            if *b {
                String::from_str("true")
            } else {
                String::from_str("false")
            },
        ),
        Json::Null => Some(String::new()),
        _ => None,
    }
}

} // verus!
