//! Decoding of the provider's JSON answer into a plain `WeatherReading`.
//! The JSON tree itself comes from serde_json and is opaque here: each
//! outside call's result carries a name, every look into the tree goes
//! through a small trusted wrapper whose contract speaks over these
//! names, and the decoder's own contract is proved from them.

use vstd::prelude::*;
use crate::formatter::WeatherReading;
use crate::formatter::opt_i64_view;
use crate::formatter::opt_str_view;
use vstd::string::StringExecFns;

verus! {

#[verifier::external_type_specification]
#[verifier::external_body]
pub struct ExValue(serde_json::Value);

#[verifier::external_type_specification]
#[verifier::external_body]
pub struct ExJsonError(serde_json::Error);

/// Why no reading came out of a provider answer.
#[derive(Debug, Clone)]
pub enum ApiError {
    /// The provider itself refused: its status field was not the success
    /// value. Carries the provider's message verbatim where one was
    /// sent, empty where none was.
    Provider { message: String },
    /// The answer was not JSON of the expected shape.
    Decode,
}

/// What serde_json::from_str makes of a text: the tree, or nothing for
/// text that is not valid JSON.
pub uninterp spec fn json_of(s: Seq<char>) -> Option<serde_json::Value>;

/// What serde_json::Value::get returns for a key: the value under it
/// when the tree is an object holding that key, nothing otherwise.
pub uninterp spec fn json_member(v: serde_json::Value, key: Seq<char>) -> Option<serde_json::Value>;

/// What serde_json::Value::as_array returns: the elements when the tree
/// is an array, nothing otherwise.
pub uninterp spec fn json_elements(v: serde_json::Value) -> Option<Seq<serde_json::Value>>;

/// What serde_json::Value::as_i64 returns: the number when the tree is
/// an integer that fits a machine word, nothing otherwise.
pub uninterp spec fn json_int(v: serde_json::Value) -> Option<int>;

/// What serde_json::Value::as_str returns: the characters when the tree
/// is a string, nothing otherwise.
pub uninterp spec fn json_str_of(v: serde_json::Value) -> Option<Seq<char>>;

/// What serde_json::Value::as_f64 followed by f64::round gives: the
/// tree's number rounded to the nearest whole value, nothing when the
/// tree is no number.
pub uninterp spec fn json_rounded(v: serde_json::Value) -> Option<int>;

/// Relies on serde_json::from_str: decodes JSON text into a dynamic
/// value tree, an error exactly when the text is not valid JSON.
#[verifier::external_body]
fn parse_json(s: &str) -> (r: Result<serde_json::Value, serde_json::Error>)
    ensures
        (match r {
            Ok(v) => json_of(s@) == Some(v),
            Err(_) => json_of(s@) is None,
        }),
{
    serde_json::from_str(s)
}

/// Relies on serde_json::Value::get: the value under `key` when the tree
/// is an object that holds that key, nothing otherwise.
#[verifier::external_body]
fn json_get<'a>(v: &'a serde_json::Value, key: &str) -> (r: Option<&'a serde_json::Value>)
    ensures
        (match r {
            Some(m) => json_member(*v, key@) == Some(*m),
            None => json_member(*v, key@) is None,
        }),
{
    v.get(key)
}

/// Relies on serde_json::Value::as_array: the elements when the tree is
/// an array, nothing otherwise.
#[verifier::external_body]
fn json_as_array<'a>(v: &'a serde_json::Value) -> (r: Option<&'a Vec<serde_json::Value>>)
    ensures
        (match r {
            Some(a) => json_elements(*v) == Some(a@),
            None => json_elements(*v) is None,
        }),
{
    v.as_array()
}

/// Relies on serde_json::Value::as_i64: the number when the tree is an
/// integer that fits, nothing otherwise.
#[verifier::external_body]
fn json_as_i64(v: &serde_json::Value) -> (r: Option<i64>)
    ensures
        (match r {
            Some(n) => json_int(*v) == Some(n as int),
            None => json_int(*v) is None,
        }),
{
    v.as_i64()
}

/// Relies on serde_json::Value::as_str: the characters when the tree is
/// a string, nothing otherwise.
#[verifier::external_body]
fn json_as_str<'a>(v: &'a serde_json::Value) -> (r: Option<&'a str>)
    ensures
        (match r {
            Some(s) => json_str_of(*v) == Some(s@),
            None => json_str_of(*v) is None,
        }),
{
    v.as_str()
}

/// Relies on serde_json::Value::as_f64 and f64::round: the number, when
/// the tree is one, rounded to the nearest whole value. The two calls
/// share one wrapper because a floating-point value may not cross a
/// boundary of this library.
#[verifier::external_body]
fn json_as_rounded_i64(v: &serde_json::Value) -> (r: Option<i64>)
    ensures
        (match r {
            Some(n) => json_rounded(*v) == Some(n as int),
            None => json_rounded(*v) is None,
        }),
{
    match v.as_f64() {
        Some(x) => Some(x.round() as i64),
        None => None,
    }
}

/// The provider's status: the `cod` member read as an integer.
pub open spec fn spec_status(root: serde_json::Value) -> Option<int> {
    match json_member(root, "cod"@) {
        Some(c) => json_int(c),
        None => None,
    }
}

/// The provider's message on a refusal: the `message` member's text,
/// empty where none was sent or it is no string.
pub open spec fn spec_provider_message(root: serde_json::Value) -> Seq<char> {
    match json_member(root, "message"@) {
        Some(m) => match json_str_of(m) {
            Some(s) => s,
            None => Seq::<char>::empty(),
        },
        None => Seq::<char>::empty(),
    }
}

/// The rounded `main.temp` of a success answer, if the path exists and
/// holds a number.
pub open spec fn spec_temperature(root: serde_json::Value) -> Option<int> {
    match json_member(root, "main"@) {
        Some(m) => match json_member(m, "temp"@) {
            Some(t) => json_rounded(t),
            None => None,
        },
        None => None,
    }
}

/// The rounded `main.feels_like`, if the path exists and holds a number.
pub open spec fn spec_feels_like(root: serde_json::Value) -> Option<int> {
    match json_member(root, "main"@) {
        Some(m) => match json_member(m, "feels_like"@) {
            Some(f) => json_rounded(f),
            None => None,
        },
        None => None,
    }
}

/// The first element of the `weather` array, if there is one.
pub open spec fn spec_weather0(root: serde_json::Value) -> Option<serde_json::Value> {
    match json_member(root, "weather"@) {
        Some(w) => match json_elements(w) {
            Some(a) => if a.len() > 0 {
                Some(a[0])
            } else {
                None
            },
            None => None,
        },
        None => None,
    }
}

/// The `weather[0].icon` text, if the path exists and holds a string.
pub open spec fn spec_condition_code(root: serde_json::Value) -> Option<Seq<char>> {
    match spec_weather0(root) {
        Some(w) => match json_member(w, "icon"@) {
            Some(i) => json_str_of(i),
            None => None,
        },
        None => None,
    }
}

/// The `name` text, if present and a string.
pub open spec fn spec_location(root: serde_json::Value) -> Option<Seq<char>> {
    match json_member(root, "name"@) {
        Some(n) => json_str_of(n),
        None => None,
    }
}

/// The `weather[0].main` text, if the path exists and holds a string.
pub open spec fn spec_description(root: serde_json::Value) -> Option<Seq<char>> {
    match spec_weather0(root) {
        Some(w) => match json_member(w, "main"@) {
            Some(d) => json_str_of(d),
            None => None,
        },
        None => None,
    }
}

/// Decodes one provider answer. Text that is no JSON, an answer without
/// a status field, or a success answer missing its temperature or its
/// condition code is malformed; a status other than the integer success
/// value is the provider's refusal, whose message comes out verbatim; a
/// success answer yields the reading, its optional fields present
/// exactly where the provider sent them.
pub fn decode_response(body: &str) -> (r: Result<WeatherReading, ApiError>)
    ensures
        (match r {
            Ok(rd) => {
                &&& json_of(body@) is Some
                &&& spec_status(json_of(body@)->0) == Some(200int)
                &&& Some(rd.temperature_celsius as int) == spec_temperature(json_of(body@)->0)
                &&& opt_i64_view(rd.feels_like_celsius) == spec_feels_like(json_of(body@)->0)
                &&& Some(rd.condition_code@) == spec_condition_code(json_of(body@)->0)
                &&& opt_str_view(rd.location_name) == spec_location(json_of(body@)->0)
                &&& opt_str_view(rd.description) == spec_description(json_of(body@)->0)
            },
            Err(ApiError::Provider { message }) => {
                &&& json_of(body@) is Some
                &&& json_member(json_of(body@)->0, "cod"@) is Some
                &&& spec_status(json_of(body@)->0) != Some(200int)
                &&& message@ == spec_provider_message(json_of(body@)->0)
            },
            Err(ApiError::Decode) => {
                ||| json_of(body@) is None
                ||| (json_of(body@) is Some && json_member(json_of(body@)->0, "cod"@) is None)
                ||| (json_of(body@) is Some && spec_status(json_of(body@)->0) == Some(200int)
                    && (spec_temperature(json_of(body@)->0) is None || spec_condition_code(
                    json_of(body@)->0,
                ) is None))
            },
        }),
{
    let v = match parse_json(body) {
        Ok(v) => v,
        Err(_) => {
            return Err(ApiError::Decode);
        },
    };
    let cod = match json_get(&v, "cod") {
        Some(c) => c,
        None => {
            return Err(ApiError::Decode);
        },
    };
    let success = match json_as_i64(cod) {
        Some(c) => c == 200,
        None => false,
    };
    if !success {
        let message = match json_get(&v, "message") {
            Some(m) => match json_as_str(m) {
                Some(s) => String::from_str(s),
                None => String::new(),
            },
            None => String::new(),
        };
        return Err(ApiError::Provider { message });
    }
    let main = match json_get(&v, "main") {
        Some(m) => m,
        None => {
            return Err(ApiError::Decode);
        },
    };
    let temperature_celsius = match json_get(main, "temp") {
        Some(t) => match json_as_rounded_i64(t) {
            Some(t) => t,
            None => {
                return Err(ApiError::Decode);
            },
        },
        None => {
            return Err(ApiError::Decode);
        },
    };
    let feels_like_celsius = match json_get(main, "feels_like") {
        Some(f) => json_as_rounded_i64(f),
        None => None,
    };
    let weather0 = match json_get(&v, "weather") {
        Some(w) => match json_as_array(w) {
            Some(arr) => {
                if arr.len() > 0 {
                    Some(&arr[0])
                } else {
                    None
                }
            },
            None => None,
        },
        None => None,
    };
    let weather0 = match weather0 {
        Some(w) => w,
        None => {
            return Err(ApiError::Decode);
        },
    };
    let condition_code = match json_get(weather0, "icon") {
        Some(i) => match json_as_str(i) {
            Some(s) => String::from_str(s),
            None => {
                return Err(ApiError::Decode);
            },
        },
        None => {
            return Err(ApiError::Decode);
        },
    };
    let location_name = match json_get(&v, "name") {
        Some(n) => match json_as_str(n) {
            Some(s) => Some(String::from_str(s)),
            None => None,
        },
        None => None,
    };
    let description = match json_get(weather0, "main") {
        Some(d) => match json_as_str(d) {
            Some(s) => Some(String::from_str(s)),
            None => None,
        },
        None => None,
    };
    Ok(
        WeatherReading {
            temperature_celsius,
            feels_like_celsius,
            condition_code,
            location_name,
            description,
        },
    )
}

} // verus!
