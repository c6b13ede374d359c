//! The machine-checkable description of the settings shape.
//!
//! The schema document is derived from the settings definition alone — field
//! names, optionality, types — never from a particular settings value, so the
//! same shape always yields the same document. Its meaning is pinned down by
//! [`schema_accepts`], and [`lemma_schema_matches_resolver`] proves that it
//! accepts exactly the raw values the settings resolver accepts.

use vstd::prelude::*;

use crate::json::JsonValue;
use crate::json::lookup;
use crate::json::lookup_spec;
use crate::settings::field_spec;
use crate::settings::value_accepted;
use crate::settings::api_key_field;
use crate::settings::default_minimum_tokens_field;

verus! {

/// The schema fragment describing one optional string-valued property:
/// it accepts a string or null.
pub open spec fn property_fragment_spec(name: Seq<char>) -> Seq<char> {
    seq!['"'] + name + "\":{\"type\":[\"string\",\"null\"]}"@
}

/// The schema document for the settings shape: an object with one optional
/// string-or-null property per recognized field, unknown properties allowed.
pub open spec fn schema_text_spec() -> Seq<char> {
    "{\"$schema\":\"http://json-schema.org/draft-07/schema#\",\"title\":\"Settings\",\"type\":\"object\",\"properties\":{"@
        + property_fragment_spec("context7_api_key"@) + ","@ + property_fragment_spec(
        "default_minimum_tokens"@,
    ) + "}}"@
}

fn property_fragment(name: &str) -> (r: String)
    ensures
        r@ == property_fragment_spec(name@),
{
    let mut r = "\"".to_owned();
    r.append(name);
    r.append("\":{\"type\":[\"string\",\"null\"]}");
    proof {
        reveal_strlit("\"");
        assert("\""@ =~= seq!['"']);
        assert(r@ =~= property_fragment_spec(name@));
    }
    r
}

/// Produces the schema document, as [`schema_text_spec`] says.
pub fn settings_schema_text() -> (r: String)
    ensures
        r@ == schema_text_spec(),
{
    let mut r =
        "{\"$schema\":\"http://json-schema.org/draft-07/schema#\",\"title\":\"Settings\",\"type\":\"object\",\"properties\":{".to_owned();
    r.append(property_fragment(api_key_field().as_str()).as_str());
    r.append(",");
    r.append(property_fragment(default_minimum_tokens_field().as_str()).as_str());
    r.append("}}");
    proof {
        assert(r@ =~= schema_text_spec());
    }
    r
}

/// What the schema's per-property fragment accepts for a recognized field:
/// the field may be absent, hold null, or hold a string.
pub open spec fn property_accepts(field: Option<JsonValue>) -> bool {
    match field {
        Option::None => true,
        Option::Some(JsonValue::Null) => true,
        Option::Some(JsonValue::JsonString(_)) => true,
        Option::Some(_) => false,
    }
}

/// What the schema document accepts: an object (`"type":"object"`) whose
/// recognized properties each satisfy their fragment; properties outside
/// `"properties"` are unconstrained.
pub open spec fn schema_accepts(v: JsonValue) -> bool {
    &&& v matches JsonValue::Object(fields)
    &&& property_accepts(lookup_spec(fields@, "context7_api_key"@))
    &&& property_accepts(lookup_spec(fields@, "default_minimum_tokens"@))
}

/// Checks a raw value against the settings schema, as [`schema_accepts`]
/// says.
pub fn validate_settings_value(v: &JsonValue) -> (r: bool)
    ensures
        r == schema_accepts(*v),
{
    match v {
        JsonValue::Object(fields) => {
            let api_ok = match lookup(fields, &api_key_field()) {
                Option::None => true,
                Option::Some(f) => match f {
                    JsonValue::Null => true,
                    JsonValue::JsonString(_) => true,
                    _ => false,
                },
            };
            let tokens_ok = match lookup(fields, &default_minimum_tokens_field()) {
                Option::None => true,
                Option::Some(f) => match f {
                    JsonValue::Null => true,
                    JsonValue::JsonString(_) => true,
                    _ => false,
                },
            };
            api_ok && tokens_ok
        },
        _ => false,
    }
}

/// Round trip between the schema and the resolver: the schema document
/// accepts a raw value exactly when the settings resolver accepts it.
pub proof fn lemma_schema_matches_resolver(v: JsonValue)
    ensures
        schema_accepts(v) <==> value_accepted(v),
{
    match v {
        JsonValue::Object(fields) => {
            assert(property_accepts(lookup_spec(fields@, "context7_api_key"@)) <==> field_spec(
                fields@,
                "context7_api_key"@,
            ) is Some);
            assert(property_accepts(lookup_spec(fields@, "default_minimum_tokens"@))
                <==> field_spec(fields@, "default_minimum_tokens"@) is Some);
        },
        _ => {},
    }
}

} // verus!
