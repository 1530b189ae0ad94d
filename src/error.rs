use vstd::prelude::*;
use vstd::string::*;

use crate::names::names_ascending;

verus! {

/// One rejected field of a request, as the server reports it.
#[derive(Debug, Clone)]
pub struct FieldError {
    pub code: String,
    pub message: String,
}

/// Everything that can go wrong while talking to the server.
#[derive(Debug)]
pub enum Error {
    /// The server refused the credentials or the refresh; `data` lists the
    /// rejected fields by name, one entry per name in ascending order (see
    /// `wf`).
    Authorization { message: String, data: Vec<(String, FieldError)> },
    /// A token was required and the session holds none.
    Unauthorized,
    /// A transport, encoding or decoding failure, carried as text.
    Custom(String),
}

/// `name: message` for one rejected field.
pub open spec fn field_line(entry: (String, FieldError)) -> Seq<char> {
    entry.0@ + ": "@ + entry.1.message@
}

/// The lines of all rejected fields, joined by a newline and two spaces.
pub open spec fn field_lines(data: Seq<(String, FieldError)>) -> Seq<char>
    decreases data.len(),
{
    if data.len() == 0 {
        Seq::empty()
    } else if data.len() == 1 {
        field_line(data[0])
    } else {
        field_lines(data.drop_last()) + "\n  "@ + field_line(data.last())
    }
}

/// The human-readable text of an error.
pub open spec fn error_text(e: Error) -> Seq<char> {
    match e {
        Error::Authorization { message, data } => message@ + "\n  "@ + field_lines(data@),
        Error::Unauthorized => "unauthrized"@,
        Error::Custom(value) => value@,
    }
}

impl Error {
    /// Well-formed: the rejected fields of an `Authorization` error are keyed
    /// by strictly ascending names.
    pub open spec fn wf(&self) -> bool {
        match self {
            Error::Authorization { data, .. } => names_ascending(data@),
            _ => true,
        }
    }

    /// An error that carries `value` as its text.
    pub fn custom(value: &str) -> (r: Error)
        ensures
            r is Custom,
            r->Custom_0@ == value@,
    {
        Error::Custom(value.to_string())
    }

    /// The text of this error: the message and one indented line per rejected
    /// field for `Authorization`, the carried text for `Custom`.
    pub fn message(&self) -> (r: String)
        ensures
            r@ == error_text(*self),
    {
        match self {
            Error::Authorization { message, data } => {
                let mut out = message.clone();
                out.append("\n  ");
                let lines = join_field_lines(data);
                out.append(lines.as_str());
                out
            },
            Error::Unauthorized => String::from_str("unauthrized"),
            Error::Custom(value) => value.clone(),
        }
    }
}

fn join_field_lines(data: &Vec<(String, FieldError)>) -> (r: String)
    ensures
        r@ == field_lines(data@),
{
    let mut out = String::new();
    let n = data.len();
    for i in 0..n
        invariant
            n == data@.len(),
            out@ == field_lines(data@.take(i as int)),
    {
        if i > 0 {
            out.append("\n  ");
        }
        out.append(data[i].0.as_str());
        out.append(": ");
        out.append(data[i].1.message.as_str());
        assert(data@.take(i + 1).drop_last() =~= data@.take(i as int));
    }
    assert(data@.take(n as int) =~= data@);
    out
}

} // verus!
