//! A plain model of untyped structured configuration data.
//!
//! The host hands settings over as an untyped JSON value. Settings resolution
//! only ever inspects the shape of that value — whether it is an object, and
//! whether a recognized field holds a string, holds null, or holds something
//! else — so the model carries exactly that. Numeric payloads play no role in
//! resolution and are not carried; only the fact that a value is a number is.

use vstd::prelude::*;

verus! {

/// An untyped structured value, as far as settings resolution can see it.
///
/// Object fields are kept in order of appearance. The host's settings store
/// hands objects over with unique keys; when a key nevertheless appears twice,
/// the first occurrence governs, as [`lookup_spec`] states.
#[derive(Debug, PartialEq)]
pub enum JsonValue {
    Null,
    Bool(bool),
    Number,
    JsonString(String),
    Array(Vec<JsonValue>),
    Object(Vec<(String, JsonValue)>),
}

/// The value of the first field named `name`, if any.
pub open spec fn lookup_spec(fields: Seq<(String, JsonValue)>, name: Seq<char>) -> Option<
    JsonValue,
>
    decreases fields.len(),
{
    if fields.len() == 0 {
        Option::None
    } else if fields[0].0@ == name {
        Option::Some(fields[0].1)
    } else {
        lookup_spec(fields.skip(1), name)
    }
}

/// Finds the first field named `name`, as [`lookup_spec`] says.
pub fn lookup<'a>(fields: &'a Vec<(String, JsonValue)>, name: &String) -> (r: Option<
    &'a JsonValue,
>)
    ensures
        match r {
            Option::None => lookup_spec(fields@, name@) is None,
            Option::Some(v) => lookup_spec(fields@, name@) == Option::Some(*v),
        },
{
    let n = fields.len();
    let mut k: usize = 0;
    proof {
        assert(fields@.skip(0) =~= fields@);
    }
    while k < n
        invariant
            n == fields@.len(),
            0 <= k <= n,
            lookup_spec(fields@, name@) == lookup_spec(fields@.skip(k as int), name@),
        decreases n - k,
    {
        let ghost rest = fields@.skip(k as int);
        if fields[k].0.eq(name) {
            proof {
                assert(rest[0] == fields@[k as int]);
            }
            return Option::Some(&fields[k].1);
        }
        proof {
            assert(rest[0] == fields@[k as int]);
            assert(rest.skip(1) =~= fields@.skip(k + 1));
        }
        k += 1;
    }
    proof {
        assert(fields@.skip(k as int).len() == 0);
    }
    Option::None
}

} // verus!
