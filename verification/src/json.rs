use vstd::prelude::*;

verus! {

/// A parsed JSON document, held as the library's own tree so that verified
/// code can read it. A number carries its decimal text (the form in which it
/// is echoed to the caller) and, when it is a whole number that fits, its
/// `i64` value (the form on which the day/night decision is made).
#[derive(Debug)]
pub enum Json {
    Null,
    Truth(bool),
    Num(String, Option<i64>),
    Text(String),
    Items(Vec<Json>),
    Fields(Vec<(String, Json)>),
}

/// The value of the first field named `key`, searching from position `i`.
pub open spec fn field_lookup_from(fields: Seq<(String, Json)>, key: Seq<char>, i: int) -> Option<
    Json,
>
    decreases fields.len() - i,
{
    if i < 0 || i >= fields.len() {
        None
    } else if fields[i].0@ == key {
        Some(fields[i].1)
    } else {
        field_lookup_from(fields, key, i + 1)
    }
}

/// The value of the first field named `key`, if any.
pub open spec fn field_lookup(fields: Seq<(String, Json)>, key: Seq<char>) -> Option<Json> {
    field_lookup_from(fields, key, 0)
}

/// The value under `key` when `doc` is an object that has such a field.
pub open spec fn spec_field(doc: Json, key: Seq<char>) -> Option<Json> {
    match doc {
        Json::Fields(fields) => field_lookup(fields@, key),
        _ => None,
    }
}

/// The characters under `key` when `doc` is an object whose field `key` is a
/// string.
pub open spec fn spec_text_field(doc: Json, key: Seq<char>) -> Option<Seq<char>> {
    match spec_field(doc, key) {
        Some(Json::Text(s)) => Some(s@),
        _ => None,
    }
}

/// The decimal text under `key` when `doc` is an object whose field `key` is a
/// number.
pub open spec fn spec_num_field(doc: Json, key: Seq<char>) -> Option<Seq<char>> {
    match spec_field(doc, key) {
        Some(Json::Num(text, _)) => Some(text@),
        _ => None,
    }
}

/// The integer under `key` when `doc` is an object whose field `key` is a
/// whole number that fits in `i64`.
pub open spec fn spec_int_field(doc: Json, key: Seq<char>) -> Option<i64> {
    match spec_field(doc, key) {
        Some(Json::Num(_, value)) => value,
        _ => None,
    }
}

/// Finds the first field named `key` in an object's field list.
pub fn get_field<'a>(fields: &'a Vec<(String, Json)>, key: &String) -> (r: Option<&'a Json>)
    ensures
        match r {
            Some(j) => field_lookup(fields@, key@) == Some(*j),
            None => field_lookup(fields@, key@) is None,
        },
{
    let mut i: usize = 0;
    while i < fields.len()
        invariant
            0 <= i <= fields@.len(),
            field_lookup(fields@, key@) == field_lookup_from(fields@, key@, i as int),
        decreases fields@.len() - i,
    {
        if fields[i].0 == *key {
            return Some(&fields[i].1);
        }
        i = i + 1;
    }
    None
}

/// Looks `key` up in `doc` when `doc` is an object.
pub fn doc_field<'a>(doc: &'a Json, key: &String) -> (r: Option<&'a Json>)
    ensures
        match r {
            Some(j) => spec_field(*doc, key@) == Some(*j),
            None => spec_field(*doc, key@) is None,
        },
{
    match doc {
        Json::Fields(fields) => get_field(fields, key),
        _ => None,
    }
}

/// Reads the string field `key` of `doc`, if present with that type.
pub fn text_field(doc: &Json, key: &String) -> (r: Option<String>)
    ensures
        match r {
            Some(s) => spec_text_field(*doc, key@) == Some(s@),
            None => spec_text_field(*doc, key@) is None,
        },
{
    match doc_field(doc, key) {
        Some(Json::Text(s)) => Some(s.clone()),
        _ => None,
    }
}

/// Reads the number field `key` of `doc` as its decimal text, if present with
/// that type.
pub fn num_field(doc: &Json, key: &String) -> (r: Option<String>)
    ensures
        match r {
            Some(s) => spec_num_field(*doc, key@) == Some(s@),
            None => spec_num_field(*doc, key@) is None,
        },
{
    match doc_field(doc, key) {
        Some(Json::Num(text, _)) => Some(text.clone()),
        _ => None,
    }
}

/// Reads the number field `key` of `doc` as a whole number together with its
/// decimal text, if it is present and integer-valued.
pub fn int_field(doc: &Json, key: &String) -> (r: Option<(String, i64)>)
    ensures
        match r {
            Some(p) => spec_num_field(*doc, key@) == Some(p.0@) && spec_int_field(*doc, key@)
                == Some(p.1),
            None => spec_int_field(*doc, key@) is None,
        },
{
    match doc_field(doc, key) {
        Some(Json::Num(text, Some(value))) => Some((text.clone(), *value)),
        _ => None,
    }
}

} // verus!
