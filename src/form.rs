use vstd::prelude::*;
use vstd::string::*;

use crate::text::{bool_string, bool_text, pairs_view};

verus! {

/// A top-level field of a record, as a multipart form carries it. Numbers,
/// and arrays and objects, come as the JSON text of the value.
#[derive(Debug, Clone)]
pub enum FieldValue {
    Null,
    Bool(bool),
    Number(String),
    Text(String),
    Json(String),
}

/// The form text of a field; none for a null field, which the form leaves out.
pub open spec fn field_text(v: FieldValue) -> Option<Seq<char>> {
    match v {
        FieldValue::Null => None,
        FieldValue::Bool(b) => Some(bool_text(b)),
        FieldValue::Number(t) => Some(t@),
        FieldValue::Text(t) => Some(t@),
        FieldValue::Json(t) => Some(t@),
    }
}

/// The text parts of a record's form: name and text of each field that is not
/// null, in the record's order.
pub open spec fn form_texts(fields: Seq<(String, FieldValue)>) -> Seq<(Seq<char>, Seq<char>)>
    decreases fields.len(),
{
    if fields.len() == 0 {
        Seq::empty()
    } else {
        let last = fields.last();
        let rest = form_texts(fields.drop_last());
        match field_text(last.1) {
            Some(t) => rest.push((last.0@, t)),
            None => rest,
        }
    }
}

/// The text parts of a record's form.
pub fn form_fields(fields: &Vec<(String, FieldValue)>) -> (r: Vec<(String, String)>)
    ensures
        pairs_view(r@) == form_texts(fields@),
{
    let mut parts: Vec<(String, String)> = Vec::new();
    let n = fields.len();
    for i in 0..n
        invariant
            n == fields@.len(),
            pairs_view(parts@) == form_texts(fields@.take(i as int)),
    {
        assert(fields@.take(i + 1).drop_last() =~= fields@.take(i as int));
        let ghost prior = parts@;
        let text: Option<String> = match &fields[i].1 {
            FieldValue::Null => None,
            FieldValue::Bool(b) => Some(bool_string(*b)),
            FieldValue::Number(t) => Some(t.clone()),
            FieldValue::Text(t) => Some(t.clone()),
            FieldValue::Json(t) => Some(t.clone()),
        };
        match text {
            Some(t) => {
                parts.push((fields[i].0.clone(), t));
                assert(pairs_view(parts@) =~= pairs_view(prior).push((fields@[i as int].0@, t@)));
            },
            None => {},
        }
    }
    assert(fields@.take(n as int) =~= fields@);
    parts
}

} // verus!
