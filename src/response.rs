use vstd::prelude::*;
use vstd::string::*;

use crate::error::Error;
use crate::text::{decimal, push_decimal};

verus! {

/// The server's health report. `data` is the JSON text of its data.
#[derive(Debug, Clone)]
pub struct Health {
    pub code: u16,
    pub message: String,
    pub data: String,
}

impl Health {
    /// The server reports itself healthy with code 200.
    pub fn is_healthy(&self) -> (r: bool)
        ensures
            r == (self.code == 200),
    {
        self.code == 200
    }
}

/// One page of a record list.
#[derive(Debug, Clone)]
pub struct Paginated<T> {
    pub page: usize,
    pub per_page: usize,
    pub total_items: usize,
    pub total_pages: usize,
    pub items: Vec<T>,
}

/// A failed call, as the server reports it. `data` is the JSON text of its
/// details, laid out for reading.
#[derive(Debug, Clone)]
pub struct PocketBaseError {
    pub status: u16,
    pub message: String,
    pub data: String,
}

/// `[{status}] {message}: {data}`.
pub open spec fn server_error_text(e: PocketBaseError) -> Seq<char> {
    "["@ + decimal(e.status as nat) + "] "@ + e.message@ + ": "@ + e.data@
}

impl PocketBaseError {
    /// The text of the failure: `[{status}] {message}: {data}`.
    pub fn message(&self) -> (r: String)
        ensures
            r@ == server_error_text(*self),
    {
        let mut out = String::from_str("[");
        push_decimal(&mut out, self.status as usize);
        out.append("] ");
        out.append(self.message.as_str());
        out.append(": ");
        out.append(self.data.as_str());
        out
    }

    /// The failure as a `Custom` error carrying its text.
    pub fn into_error(self) -> (r: Error)
        ensures
            r is Custom,
            r->Custom_0@ == server_error_text(self),
    {
        Error::Custom(self.message())
    }
}

/// A status in the 2xx range: the call succeeded.
pub open spec fn success_status(status: u16) -> bool {
    200 <= status < 300
}

/// Whether `status` is in the 2xx range.
pub fn is_success(status: u16) -> (r: bool)
    ensures
        r == success_status(status),
{
    200 <= status && status < 300
}

} // verus!
