//! JSON text, read and written through `serde_json`.
//!
//! Reading picks single values out of a text by their path; writing makes the text
//! of a request. What `serde_json` makes of a text has a name here, so that callers
//! can say exactly what they do with it.

use vstd::prelude::*;
use vstd::string::*;

use serde_json::Value;

verus! {

/// Value of a request parameter.
#[derive(Debug, Clone, PartialEq, Eq)]
pub enum ParamValue {
    Flag(bool),
    Text(String),
    /// An object of texts.
    Table(Vec<(String, String)>),
    /// A list of objects of texts.
    Rows(Vec<Vec<(String, String)>>),
}

/// What a [`ParamValue`] is mathematically.
pub enum ParamModel {
    Flag(bool),
    Text(Seq<char>),
    Table(Seq<(Seq<char>, Seq<char>)>),
    Rows(Seq<Seq<(Seq<char>, Seq<char>)>>),
}

/// A table of texts, mathematically.
pub open spec fn pairs_view(t: Seq<(String, String)>) -> Seq<(Seq<char>, Seq<char>)> {
    t.map_values(|e: (String, String)| (e.0@, e.1@))
}

/// A list of tables of texts, mathematically.
pub open spec fn rows_view(r: Seq<Vec<(String, String)>>) -> Seq<Seq<(Seq<char>, Seq<char>)>> {
    r.map_values(|t: Vec<(String, String)>| pairs_view(t@))
}

impl View for ParamValue {
    type V = ParamModel;

    open spec fn view(&self) -> ParamModel {
        match self {
            ParamValue::Flag(b) => ParamModel::Flag(*b),
            ParamValue::Text(t) => ParamModel::Text(t@),
            ParamValue::Table(t) => ParamModel::Table(pairs_view(t@)),
            ParamValue::Rows(r) => ParamModel::Rows(rows_view(r@)),
        }
    }
}

/// Parameters of a request, mathematically.
pub open spec fn params_view(p: Seq<(String, ParamValue)>) -> Seq<(Seq<char>, ParamModel)> {
    p.map_values(|e: (String, ParamValue)| (e.0@, e.1@))
}

/// A table of borrowed texts, mathematically.
pub open spec fn texts_view<'a>(t: Seq<(&'a str, &'a str)>) -> Seq<(Seq<char>, Seq<char>)> {
    t.map_values(|e: (&'a str, &'a str)| (e.0@, e.1@))
}

/// The text of the JSON string that the JSON text `text` holds at the JSON pointer
/// `pointer`: what `serde_json` makes of it.
pub uninterp spec fn json_text_at(text: Seq<char>, pointer: Seq<char>) -> Option<Seq<char>>;

/// The JSON value that the JSON text `text` holds at the JSON pointer `pointer`, in
/// the compact form that `serde_json` prints.
pub uninterp spec fn json_value_at(text: Seq<char>, pointer: Seq<char>) -> Option<Seq<char>>;

/// The JSON text of an object, in the compact form that `serde_json` prints: its members
/// are these texts and, under `name`, an object with these parameters.
pub uninterp spec fn object_json(
    texts: Seq<(Seq<char>, Seq<char>)>,
    name: Seq<char>,
    params: Seq<(Seq<char>, ParamModel)>,
) -> Seq<char>;

/// The JSON text of a request: an object with its id, its method and its parameters.
pub open spec fn request_json(
    id: Seq<char>,
    method: Seq<char>,
    params: Seq<(Seq<char>, ParamModel)>,
) -> Seq<char> {
    object_json(seq![("id"@, id), ("method"@, method)], "params"@, params)
}

/// `serde_json::from_str`, `Value::pointer` and `Value::as_str`: the string at
/// `pointer`, or nothing when `text` is not JSON, has nothing there, or something
/// that is not a string. An empty text is not JSON.
#[verifier::external_body]
pub(crate) fn string_at(text: &str, pointer: &str) -> (r: Option<String>)
    ensures
        match r {
            Some(t) => json_text_at(text@, pointer@) == Some(t@),
            None => json_text_at(text@, pointer@) is None,
        },
        text@.len() == 0 ==> r is None,
{
    let value = serde_json::from_str::<Value>(text).ok()?;
    value.pointer(pointer)?.as_str().map(str::to_string)
}

/// `serde_json::from_str`, `Value::pointer` and `Value::to_string`: the value at
/// `pointer` printed compactly, or nothing when `text` is not JSON or has nothing
/// there. An empty text is not JSON.
#[verifier::external_body]
pub(crate) fn value_at(text: &str, pointer: &str) -> (r: Option<String>)
    ensures
        match r {
            Some(t) => json_value_at(text@, pointer@) == Some(t@),
            None => json_value_at(text@, pointer@) is None,
        },
        text@.len() == 0 ==> r is None,
{
    let value = serde_json::from_str::<Value>(text).ok()?;
    value.pointer(pointer).map(ToString::to_string)
}

/// `serde_json::Value::to_string` on an object whose members are these texts and, under
/// `name`, an object with one member per parameter.
#[verifier::external_body]
fn object_text(texts: &Vec<(&str, &str)>, name: &str, params: &Vec<(String, ParamValue)>) -> (text:
    String)
    ensures
        text@ == object_json(texts_view(texts@), name@, params_view(params@)),
{
    let value = |p: &ParamValue| match p {
        ParamValue::Flag(b) => Value::from(*b),
        ParamValue::Text(t) => Value::from(t.as_str()),
        ParamValue::Table(t) => Value::from_iter(t.clone()),
        ParamValue::Rows(r) => r.iter().cloned().map(Value::from_iter).collect(),
    };
    let params = Value::from_iter(params.iter().map(|(k, p)| (k.as_str(), value(p))));
    let members = texts.iter().map(|(k, t)| (*k, Value::from(*t)));
    members.chain([(name, params)]).collect::<Value>().to_string()
}

/// The JSON text of a request.
pub(crate) fn request_text(id: &str, method: &str, params: &Vec<(String, ParamValue)>) -> (text:
    String)
    ensures
        text@ == request_json(id@, method@, params_view(params@)),
{
    let mut texts: Vec<(&str, &str)> = Vec::new();
    texts.push(("id", id));
    texts.push(("method", method));
    proof {
        assert(texts_view(texts@) =~= seq![("id"@, id@), ("method"@, method@)]);
    }
    object_text(&texts, "params", params)
}

} // verus!
