use vstd::prelude::*;

verus! {

/// A JSON value of `serde_json`. Nothing is known of what is inside but
/// what the functions below say.
#[verifier::external_type_specification]
#[verifier::external_body]
pub struct ExValue(serde_json::Value);

/// The boolean that a JSON value is; `None` for a value of another kind.
pub uninterp spec fn json_bool(value: serde_json::Value) -> Option<bool>;

/// The integer that a JSON value is, where it is a number that fits `i64`.
pub uninterp spec fn json_i64(value: serde_json::Value) -> Option<i64>;

/// The text that a JSON value is; `None` for a value of another kind.
pub uninterp spec fn json_str(value: serde_json::Value) -> Option<Seq<char>>;

/// Whether a JSON value is a number.
pub uninterp spec fn json_is_number(value: serde_json::Value) -> bool;

/// `Value::as_bool` returns the boolean of a `Bool` value and `None` for
/// every other value.
pub assume_specification[ serde_json::Value::as_bool ](value: &serde_json::Value) -> (boolean: Option<bool>)
    ensures
        boolean == json_bool(*value),
;

/// `Value::as_i64` returns the integer of a `Number` value that holds one
/// in the range of `i64`, and `None` for every other value.
pub assume_specification[ serde_json::Value::as_i64 ](value: &serde_json::Value) -> (integer: Option<i64>)
    ensures
        integer == json_i64(*value),
;

/// `Value::as_str` returns the text of a `String` value and `None` for
/// every other value.
pub assume_specification<'a>[ serde_json::Value::as_str ](value: &'a serde_json::Value) -> (text: Option<&'a str>)
    ensures
        match text {
            Some(text) => json_str(*value) == Some(text@),
            None => json_str(*value) is None,
        },
;

/// `Value::is_number` tells whether the value is a `Number`.
pub assume_specification[ serde_json::Value::is_number ](value: &serde_json::Value) -> (number: bool)
    ensures
        number == json_is_number(*value),
;

/// `Value::is_string` tells whether `as_str` returns a text.
pub assume_specification[ serde_json::Value::is_string ](value: &serde_json::Value) -> (string: bool)
    ensures
        string == json_str(*value).is_some(),
;

} // verus!
