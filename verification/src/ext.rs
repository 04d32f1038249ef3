//! Small shared types: a JSON-stored list and type names for column types.

use vstd::prelude::*;
use crate::text::{push_str, string_of};

verus! {

/// A list stored as a JSON array; a missing (null) value reads as the empty list.
#[derive(Debug, Clone)]
pub struct JsonVec<T>(pub Vec<T>);

impl<T> From<Vec<T>> for JsonVec<T> {
    fn from(value: Vec<T>) -> (r: Self)
        ensures
            r.0@ == value@,
    {
        JsonVec(value)
    }
}

impl<T> vstd::std_specs::convert::FromSpecImpl<Vec<T>> for JsonVec<T> {
    open spec fn obeys_from_spec() -> bool {
        true
    }

    open spec fn from_spec(v: Vec<T>) -> Self {
        JsonVec(v)
    }
}

impl<T> Default for JsonVec<T> {
    fn default() -> (r: Self)
        ensures
            r.0@.len() == 0,
    {
        JsonVec(Vec::new())
    }
}

/// A column value as read from storage: a JSON array, a null, or something else.
pub enum StoredJson<T> {
    Array(Vec<T>),
    Null,
    Invalid,
}

impl<T> JsonVec<T> {
    /// The list that a stored value reads as: a JSON array as it is, a null as the
    /// empty list; anything else is not a list.
    pub fn from_stored(value: StoredJson<T>) -> (r: Option<Self>)
        ensures
            match value {
                StoredJson::Array(v) => r matches Some(j) && j.0@ == v@,
                StoredJson::Null => r matches Some(j) && j.0@.len() == 0,
                StoredJson::Invalid => r is None,
            },
    {
        match value {
            StoredJson::Array(v) => Some(JsonVec(v)),
            StoredJson::Null => Some(JsonVec(Vec::new())),
            StoredJson::Invalid => None,
        }
    }
}

/// A name for a type, used to name column types.
pub trait TypeName {
    fn type_label() -> String;
}

impl TypeName for String {
    fn type_label() -> (r: String)
        ensures
            r@ == "String"@,
    {
        String::from_str("String")
    }
}

/// The column type name of a JSON list of `inner`.
pub open spec fn json_vec_type_name(inner: Seq<char>) -> Seq<char> {
    "JsonVec_"@ + inner
}

/// The column type name of a JSON list of a type with the given name.
pub fn json_vec_type_name_of(inner: &str) -> (r: String)
    ensures
        r@ == json_vec_type_name(inner@),
{
    let mut out: Vec<char> = Vec::new();
    push_str(&mut out, "JsonVec_");
    push_str(&mut out, inner);
    string_of(out.as_slice())
}

} // verus!
