//! The four conversion directions, each total: every entry point
//! returns either the converted payload or a human-readable error
//! message, for every input string, and never panics.

use vstd::prelude::*;

use crate::outside::{
    emit_json, emit_toml, emit_yaml, json_parse_of, json_text_of, parse_json, parse_toml,
    parse_yaml, toml_emit_of, toml_parse_of, yaml_emit_of, yaml_parse_of,
};
use crate::value::CanonValue;

verus! {

/// The message returned when a document's top-level shape cannot be
/// represented in TOML.
pub open spec fn shape_message() -> Seq<char> {
    "cannot convert to TOML: the top-level value must be a mapping"@
}

/// The message returned when a null value occurs in a document bound
/// for TOML, which has no way to write one.
pub open spec fn null_message() -> Seq<char> {
    "cannot convert to TOML: null values cannot be represented"@
}

fn shape_message_text() -> (r: String)
    ensures
        r@ == shape_message(),
{
    "cannot convert to TOML: the top-level value must be a mapping".to_owned()
}

fn null_message_text() -> (r: String)
    ensures
        r@ == null_message(),
{
    "cannot convert to TOML: null values cannot be represented".to_owned()
}

/// What converting JSON text to YAML returns: the YAML document for
/// the value the text denotes, or the error message of whichever step
/// rejected it.
pub open spec fn spec_to_yaml(s: Seq<char>) -> Seq<char> {
    match json_parse_of(s) {
        Result::Ok(v) => match yaml_emit_of(v) {
            Result::Ok(t) => t,
            Result::Err(m) => m,
        },
        Result::Err(m) => m,
    }
}

/// What converting YAML text to JSON returns: the compact JSON text
/// for the value the document denotes, or the parse error message.
pub open spec fn spec_from_yaml(s: Seq<char>) -> Seq<char> {
    match yaml_parse_of(s) {
        Result::Ok(v) => json_text_of(v),
        Result::Err(m) => m,
    }
}

/// What converting JSON text to TOML returns. A document whose top
/// level is not a mapping is rejected with the shape message; one with
/// a null anywhere in it, with the null message; otherwise the TOML
/// emitter decides.
pub open spec fn spec_to_toml(s: Seq<char>) -> Seq<char> {
    match json_parse_of(s) {
        Result::Ok(v) => if !v.is_mapping_spec() {
            shape_message()
        } else if v.contains_null() {
            null_message()
        } else {
            match toml_emit_of(v) {
                Result::Ok(t) => t,
                Result::Err(m) => m,
            }
        },
        Result::Err(m) => m,
    }
}

/// What converting TOML text to JSON returns: the compact JSON text
/// for the value the document denotes, or the parse error message.
pub open spec fn spec_from_toml(s: Seq<char>) -> Seq<char> {
    match toml_parse_of(s) {
        Result::Ok(v) => json_text_of(v),
        Result::Err(m) => m,
    }
}

/// Converts JSON text to a YAML document; on any failure the result is
/// the error message instead. Total: one string comes back for every
/// input.
pub fn to_yaml(json: &str) -> (r: String)
    ensures
        r@ == spec_to_yaml(json@),
{
    match parse_json(json) {
        Ok(v) => match emit_yaml(v) {
            Ok(t) => t,
            Err(m) => m,
        },
        Err(m) => m,
    }
}

/// Converts a YAML document to compact JSON text; on any failure the
/// result is the error message instead. Total: one string comes back
/// for every input.
pub fn from_yaml(yaml: &str) -> (r: String)
    ensures
        r@ == spec_from_yaml(yaml@),
{
    match parse_yaml(yaml) {
        Ok(v) => emit_json(v),
        Err(m) => m,
    }
}

/// Converts JSON text to a TOML document; on any failure the result is
/// the error message instead. Total: one string comes back for every
/// input.
pub fn to_toml(json: &str) -> (r: String)
    ensures
        r@ == spec_to_toml(json@),
{
    match parse_json(json) {
        Ok(v) => if !v.is_mapping() {
            shape_message_text()
        } else if v.has_null() {
            null_message_text()
        } else {
            match emit_toml(v) {
                Ok(t) => t,
                Err(m) => m,
            }
        },
        Err(m) => m,
    }
}

/// Converts a TOML document to compact JSON text; on any failure the
/// result is the error message instead. Total: one string comes back
/// for every input.
pub fn from_toml(toml_text: &str) -> (r: String)
    ensures
        r@ == spec_from_toml(toml_text@),
{
    match parse_toml(toml_text) {
        Ok(v) => emit_json(v),
        Err(m) => m,
    }
}

/// Shape rejection: a JSON document whose top level is anything but a
/// mapping converts to the shape message, whatever else it holds.
pub proof fn lemma_toml_shape_rejection(s: Seq<char>)
    requires
        json_parse_of(s) is Ok,
        !json_parse_of(s)->Ok_0.is_mapping_spec(),
    ensures
        spec_to_toml(s) == shape_message(),
{
}

/// Null rejection: a JSON document that is a mapping with a null
/// anywhere in it converts to the null message.
pub proof fn lemma_toml_null_rejection(s: Seq<char>)
    requires
        json_parse_of(s) is Ok,
        json_parse_of(s)->Ok_0.is_mapping_spec(),
        json_parse_of(s)->Ok_0.contains_null(),
    ensures
        spec_to_toml(s) == null_message(),
{
}

/// A well-shaped document reaches the TOML emitter: when the text
/// parses to a mapping without nulls, the conversion returns exactly
/// what the emitter decided, text or message.
pub proof fn lemma_toml_emission(s: Seq<char>)
    requires
        json_parse_of(s) is Ok,
        json_parse_of(s)->Ok_0.is_mapping_spec(),
        !json_parse_of(s)->Ok_0.contains_null(),
    ensures
        toml_emit_of(json_parse_of(s)->Ok_0) is Ok ==> spec_to_toml(s) == toml_emit_of(
            json_parse_of(s)->Ok_0,
        )->Ok_0,
        toml_emit_of(json_parse_of(s)->Ok_0) is Err ==> spec_to_toml(s) == toml_emit_of(
            json_parse_of(s)->Ok_0,
        )->Err_0,
{
}

} // verus!

