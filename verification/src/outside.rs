//! Declarations and wrappers for the format libraries.
//!
//! Parsing and emission of each concrete format is delegated to the
//! existing libraries (serde_json, serde_yaml, toml); nothing here
//! reimplements a grammar. Each parse or emission result depends on
//! the input alone, so it is given a name, and each wrapper's contract
//! ties what the library call returned to that name.

use vstd::prelude::*;

use crate::value::CanonValue;

verus! {

/// The canonical value denoted by a text under the JSON grammar, or
/// the parse error message for a text that is not well-formed JSON.
pub uninterp spec fn json_parse_of(s: Seq<char>) -> Result<CanonValue, Seq<char>>;

/// The canonical value denoted by a text under the YAML grammar, or
/// the parse error message for a text the YAML parser rejects.
pub uninterp spec fn yaml_parse_of(s: Seq<char>) -> Result<CanonValue, Seq<char>>;

/// The canonical value denoted by a text under the TOML grammar, or
/// the parse error message for a text that is not a TOML document.
pub uninterp spec fn toml_parse_of(s: Seq<char>) -> Result<CanonValue, Seq<char>>;

/// The compact JSON text of a canonical value.
pub uninterp spec fn json_text_of(v: CanonValue) -> Seq<char>;

/// The YAML document text of a canonical value, or the emitter's error
/// message where the value cannot be written as YAML.
pub uninterp spec fn yaml_emit_of(v: CanonValue) -> Result<Seq<char>, Seq<char>>;

/// The TOML document text of a canonical value, or the emitter's error
/// message where the value cannot be written as TOML.
pub uninterp spec fn toml_emit_of(v: CanonValue) -> Result<Seq<char>, Seq<char>>;

/// Converts the JSON library's value into the canonical tree, arm by
/// arm. Numbers that fit a machine integer become one; any other
/// number is carried opaquely.
#[verifier::external_body]
fn value_of_json(v: serde_json::Value) -> CanonValue {
    match v {
        serde_json::Value::Null => CanonValue::Null,
        serde_json::Value::Bool(b) => CanonValue::Bool(b),
        serde_json::Value::Number(n) => match (n.as_i64(), n.as_u64()) {
            (Some(i), _) => CanonValue::Int(i),
            (_, Some(u)) => CanonValue::UInt(u),
            _ => CanonValue::Num(n),
        },
        serde_json::Value::String(s) => CanonValue::Str(s),
        serde_json::Value::Array(a) => CanonValue::Sequence(a.into_iter().map(value_of_json).collect()),
        serde_json::Value::Object(m) => CanonValue::Mapping(
            m.into_iter().map(|(k, x)| (k, value_of_json(x))).collect(),
        ),
    }
}

/// Converts a canonical tree back into the JSON library's value, arm
/// by arm, undoing `value_of_json`.
#[verifier::external_body]
fn json_of_value(v: CanonValue) -> serde_json::Value {
    match v {
        CanonValue::Null => serde_json::Value::Null,
        CanonValue::Bool(b) => serde_json::Value::Bool(b),
        CanonValue::Int(i) => serde_json::Value::Number(serde_json::Number::from(i)),
        CanonValue::UInt(u) => serde_json::Value::Number(serde_json::Number::from(u)),
        CanonValue::Num(n) => serde_json::Value::Number(n),
        CanonValue::Str(s) => serde_json::Value::String(s),
        CanonValue::Sequence(a) => serde_json::Value::Array(a.into_iter().map(json_of_value).collect()),
        CanonValue::Mapping(m) => serde_json::Value::Object(
            m.into_iter().map(|(k, x)| (k, json_of_value(x))).collect(),
        ),
    }
}

/// Converts the toml library's value into the canonical tree, arm by
/// arm. A datetime becomes its display string, the canonical text
/// mapping for TOML's richer scalar types.
#[verifier::external_body]
fn value_of_toml(v: toml::Value) -> CanonValue {
    match v {
        toml::Value::String(s) => CanonValue::Str(s),
        toml::Value::Integer(i) => CanonValue::Int(i),
        toml::Value::Float(f) => value_of_json(serde_json::Value::from(f)),
        toml::Value::Boolean(b) => CanonValue::Bool(b),
        toml::Value::Datetime(d) => CanonValue::Str(d.to_string()),
        toml::Value::Array(a) => CanonValue::Sequence(a.into_iter().map(value_of_toml).collect()),
        toml::Value::Table(t) => CanonValue::Mapping(
            t.into_iter().map(|(k, x)| (k, value_of_toml(x))).collect(),
        ),
    }
}

/// Relies on serde_json::from_str: whether a text is well-formed JSON,
/// and which value it denotes, depend on the text alone. On failure
/// the returned error's message is handed back.
#[verifier::external_body]
pub(crate) fn parse_json(text: &str) -> (r: Result<CanonValue, String>)
    ensures
        r is Ok <==> json_parse_of(text@) is Ok,
        r is Ok ==> r->Ok_0 == json_parse_of(text@)->Ok_0,
        r is Err ==> r->Err_0@ == json_parse_of(text@)->Err_0,
{
    match serde_json::from_str::<serde_json::Value>(text) {
        Ok(v) => Ok(value_of_json(v)),
        Err(e) => Err(e.to_string()),
    }
}

/// Relies on serde_yaml::from_str: whether a text is a single
/// well-formed YAML document, and which value it denotes, depend on
/// the text alone. On failure the returned error's message is handed
/// back.
#[verifier::external_body]
pub(crate) fn parse_yaml(text: &str) -> (r: Result<CanonValue, String>)
    ensures
        r is Ok <==> yaml_parse_of(text@) is Ok,
        r is Ok ==> r->Ok_0 == yaml_parse_of(text@)->Ok_0,
        r is Err ==> r->Err_0@ == yaml_parse_of(text@)->Err_0,
{
    match serde_yaml::from_str::<serde_json::Value>(text) {
        Ok(v) => Ok(value_of_json(v)),
        Err(e) => Err(e.to_string()),
    }
}

/// Relies on toml::from_str: whether a text is a well-formed TOML
/// document, and which value it denotes, depend on the text alone. On
/// failure the returned error's message is handed back.
#[verifier::external_body]
pub(crate) fn parse_toml(text: &str) -> (r: Result<CanonValue, String>)
    ensures
        r is Ok <==> toml_parse_of(text@) is Ok,
        r is Ok ==> r->Ok_0 == toml_parse_of(text@)->Ok_0,
        r is Err ==> r->Err_0@ == toml_parse_of(text@)->Err_0,
{
    match toml::from_str::<toml::Value>(text) {
        Ok(v) => Ok(value_of_toml(v)),
        Err(e) => Err(e.to_string()),
    }
}

/// Relies on serde_json::to_string: the compact JSON text of a value
/// depends on the value alone. On a value tree (string keys, no
/// unserializable scalars) the serializer cannot fail, so the fallback
/// arm is never taken.
#[verifier::external_body]
pub(crate) fn emit_json(v: CanonValue) -> (r: String)
    ensures
        r@ == json_text_of(v),
{
    serde_json::to_string(&json_of_value(v)).unwrap_or_default()
}

/// Relies on serde_yaml::to_string: the YAML document written for a
/// value depends on the value alone. On failure the returned error's
/// message is handed back.
#[verifier::external_body]
pub(crate) fn emit_yaml(v: CanonValue) -> (r: Result<String, String>)
    ensures
        r is Ok <==> yaml_emit_of(v) is Ok,
        r is Ok ==> r->Ok_0@ == yaml_emit_of(v)->Ok_0,
        r is Err ==> r->Err_0@ == yaml_emit_of(v)->Err_0,
{
    match serde_yaml::to_string(&json_of_value(v)) {
        Ok(t) => Ok(t),
        Err(e) => Err(e.to_string()),
    }
}

/// Relies on toml::to_string: the TOML document written for a value
/// depends on the value alone. On failure the returned error's message
/// is handed back.
#[verifier::external_body]
pub(crate) fn emit_toml(v: CanonValue) -> (r: Result<String, String>)
    ensures
        r is Ok <==> toml_emit_of(v) is Ok,
        r is Ok ==> r->Ok_0@ == toml_emit_of(v)->Ok_0,
        r is Err ==> r->Err_0@ == toml_emit_of(v)->Err_0,
{
    match toml::to_string(&json_of_value(v)) {
        Ok(t) => Ok(t),
        Err(e) => Err(e.to_string()),
    }
}

} // verus!
