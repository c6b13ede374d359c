//! Settings resolution: from an optional untyped configuration value to a
//! typed record of optional fields.
//!
//! An absent raw value resolves to a record with every field absent. A present
//! raw value must be an object; recognized fields may hold a string or null
//! (null counts as absent), unknown fields are ignored, and a recognized field
//! of any other type is a shape mismatch. Command construction aborts on a
//! mismatch; descriptor construction falls back to the unmodified template
//! instead, so that the configuration UI still appears with broken host state.

use vstd::prelude::*;

use crate::json::JsonValue;
use crate::json::lookup;
use crate::json::lookup_spec;

verus! {

/// The user-controllable settings this library recognizes. Absent means "no
/// user override"; an empty string is treated like any other value.
#[derive(Debug, Clone, PartialEq)]
pub struct Settings {
    /// Authentication token for the documentation service.
    pub api_key: Option<String>,
    /// Numeric threshold for returned documentation, carried as text.
    pub default_minimum_tokens: Option<String>,
}

/// Why a present raw settings value failed to resolve.
#[derive(Debug, Clone, PartialEq)]
pub enum SettingsDecodeError {
    /// The raw value is not an object.
    NotAnObject,
    /// The named recognized field holds neither a string nor null.
    InvalidFieldType(String),
}

impl SettingsDecodeError {
    /// The shape mismatch, described for the user.
    pub fn description(&self) -> (r: String)
        ensures
            match self {
                SettingsDecodeError::NotAnObject => r@ == "settings must be an object"@,
                SettingsDecodeError::InvalidFieldType(f) => r@
                    == "settings field must be a string or null: "@ + f@,
            },
    {
        match self {
            SettingsDecodeError::NotAnObject => "settings must be an object".to_owned(),
            SettingsDecodeError::InvalidFieldType(f) => {
                let mut r = "settings field must be a string or null: ".to_owned();
                r.append(f.as_str());
                r
            },
        }
    }
}

/// The name of the raw settings field that carries the API key.
pub fn api_key_field() -> (r: String)
    ensures
        r@ == "context7_api_key"@,
{
    "context7_api_key".to_owned()
}

/// The name of the raw settings field that carries the minimum token count.
pub fn default_minimum_tokens_field() -> (r: String)
    ensures
        r@ == "default_minimum_tokens"@,
{
    "default_minimum_tokens".to_owned()
}

/// What a recognized optional string field resolves to: `None` when the field
/// holds a value of the wrong type, otherwise the field's value, with an
/// absent field and a null field both resolving to "no override".
pub open spec fn field_spec(fields: Seq<(String, JsonValue)>, name: Seq<char>) -> Option<
    Option<Seq<char>>,
> {
    match lookup_spec(fields, name) {
        Option::None => Option::Some(Option::None),
        Option::Some(JsonValue::Null) => Option::Some(Option::None),
        Option::Some(JsonValue::JsonString(s)) => Option::Some(Option::Some(s@)),
        Option::Some(_) => Option::None,
    }
}

/// A present raw value resolves exactly when it is an object whose recognized
/// fields each hold a string or null (or are absent).
pub open spec fn value_accepted(v: JsonValue) -> bool {
    &&& v matches JsonValue::Object(fields)
    &&& field_spec(fields@, "context7_api_key"@) is Some
    &&& field_spec(fields@, "default_minimum_tokens"@) is Some
}

/// The value a recognized field of an accepted object resolves to.
pub open spec fn resolved_field(fields: Seq<(String, JsonValue)>, name: Seq<char>) -> Option<
    Seq<char>,
> {
    match field_spec(fields, name) {
        Option::Some(Option::Some(s)) => Option::Some(s),
        _ => Option::None,
    }
}

impl Settings {
    /// The API key as an optional character sequence.
    pub open spec fn api_key_view(&self) -> Option<Seq<char>> {
        match self.api_key {
            Option::Some(k) => Option::Some(k@),
            Option::None => Option::None,
        }
    }

    /// The minimum token count as an optional character sequence.
    pub open spec fn default_minimum_tokens_view(&self) -> Option<Seq<char>> {
        match self.default_minimum_tokens {
            Option::Some(n) => Option::Some(n@),
            Option::None => Option::None,
        }
    }

    /// Every field absent.
    pub open spec fn all_absent(&self) -> bool {
        self.api_key is None && self.default_minimum_tokens is None
    }
}

fn resolve_field(fields: &Vec<(String, JsonValue)>, name: String) -> (r: Result<
    Option<String>,
    SettingsDecodeError,
>)
    ensures
        match r {
            Result::Ok(v) => field_spec(fields@, name@) == Option::Some(
                match v {
                    Option::Some(s) => Option::Some(s@),
                    Option::None => Option::None::<Seq<char>>,
                },
            ),
            Result::Err(e) => field_spec(fields@, name@) is None && e
                == SettingsDecodeError::InvalidFieldType(name),
        },
{
    match lookup(fields, &name) {
        Option::None => Result::Ok(Option::None),
        Option::Some(v) => match v {
            JsonValue::Null => Result::Ok(Option::None),
            JsonValue::JsonString(s) => Result::Ok(Option::Some(s.clone())),
            _ => Result::Err(SettingsDecodeError::InvalidFieldType(name)),
        },
    }
}

/// Resolves an optional raw settings value into a [`Settings`] record.
///
/// An absent raw value resolves to every field absent, with no error. A
/// present raw value that is not an object fails with
/// [`SettingsDecodeError::NotAnObject`]; an object whose recognized field
/// holds neither a string nor null fails with
/// [`SettingsDecodeError::InvalidFieldType`] naming the first such field in
/// declaration order (API key first). Unknown fields are ignored.
pub fn resolve_settings(raw: Option<&JsonValue>) -> (r: Result<Settings, SettingsDecodeError>)
    ensures
        raw is None ==> (r matches Result::Ok(s) && s.all_absent()),
        raw matches Option::Some(v) ==> {
            &&& r is Ok <==> value_accepted(*v)
            &&& value_accepted(*v) ==> (r matches Result::Ok(s) && s.api_key_view()
                == resolved_field(v->Object_0@, "context7_api_key"@)
                && s.default_minimum_tokens_view() == resolved_field(
                v->Object_0@,
                "default_minimum_tokens"@,
            ))
            &&& !(*v is Object) ==> r == Result::<Settings, SettingsDecodeError>::Err(
                SettingsDecodeError::NotAnObject,
            )
            &&& (*v matches JsonValue::Object(fields) && field_spec(
                fields@,
                "context7_api_key"@,
            ) is None) ==> (r matches Result::Err(e) && e matches
                SettingsDecodeError::InvalidFieldType(f) && f@ == "context7_api_key"@)
            &&& (*v matches JsonValue::Object(fields) && field_spec(
                fields@,
                "context7_api_key"@,
            ) is Some && field_spec(fields@, "default_minimum_tokens"@) is None) ==> (
            r matches Result::Err(e) && e matches SettingsDecodeError::InvalidFieldType(f) && f@
                == "default_minimum_tokens"@)
        },
{
    match raw {
        Option::None => Result::Ok(
            Settings { api_key: Option::None, default_minimum_tokens: Option::None },
        ),
        Option::Some(JsonValue::Object(fields)) => {
            let api_key = match resolve_field(fields, api_key_field()) {
                Result::Ok(v) => v,
                Result::Err(e) => {
                    return Result::Err(e);
                },
            };
            let default_minimum_tokens = match resolve_field(
                fields,
                default_minimum_tokens_field(),
            ) {
                Result::Ok(v) => v,
                Result::Err(e) => {
                    return Result::Err(e);
                },
            };
            Result::Ok(Settings { api_key, default_minimum_tokens })
        },
        Option::Some(_) => Result::Err(SettingsDecodeError::NotAnObject),
    }
}

} // verus!
