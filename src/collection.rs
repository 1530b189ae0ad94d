use vstd::prelude::*;
use vstd::string::*;

use crate::text::{trimmed_base, without_trailing_slashes};
use crate::json::{password_body, password_body_text};
use crate::options::{
    form_urlencoded, list_pairs, projection_pairs, with_query, append_query, CreateOptions,
    ListOptions, UpdateOptions, ViewOptions,
};

verus! {

/// The calls on one collection of a server: each method gives the address
/// (and body, where there is one) of a call, which the caller performs. The
/// paths are appended to the server's address without its trailing slashes.
#[derive(Debug, Clone)]
pub struct CollectionBuilder {
    pub base_uri: String,
    pub identifier: String,
}

/// `/api/collections/{collection}`.
pub open spec fn collection_path(collection: Seq<char>) -> Seq<char> {
    "/api/collections/"@ + collection
}

/// `/api/collections/{collection}/records`.
pub open spec fn records_path(collection: Seq<char>) -> Seq<char> {
    collection_path(collection) + "/records"@
}

/// `/api/collections/{collection}/records/{id}`.
pub open spec fn record_path(collection: Seq<char>, id: Seq<char>) -> Seq<char> {
    records_path(collection) + "/"@ + id
}

/// `/api/collections/{collection}/auth-with-password`.
pub open spec fn password_auth_path(collection: Seq<char>) -> Seq<char> {
    collection_path(collection) + "/auth-with-password"@
}

/// Appends `/api/collections/{collection}/records` to `out`.
pub fn push_records_path(out: &mut String, collection: &str)
    ensures
        final(out)@ == old(out)@ + records_path(collection@),
{
    out.append("/api/collections/");
    out.append(collection);
    out.append("/records");
}

/// Appends `/api/collections/{collection}/records/{id}` to `out`.
pub fn push_record_path(out: &mut String, collection: &str, id: &str)
    ensures
        final(out)@ == old(out)@ + record_path(collection@, id@),
{
    push_records_path(out, collection);
    out.append("/");
    out.append(id);
}

impl CollectionBuilder {
    /// `POST` address of a password authentication on this collection.
    pub fn auth_with_password_url(&self) -> (r: String)
        ensures
            r@ == without_trailing_slashes(self.base_uri@) + password_auth_path(self.identifier@),
    {
        let mut url = trimmed_base(&self.base_uri);
        url.append("/api/collections/");
        url.append(self.identifier.as_str());
        url.append("/auth-with-password");
        url
    }

    /// JSON body of a password authentication.
    pub fn auth_with_password_body(&self, identity: &str, secret: &str) -> (r: String)
        ensures
            r@ == password_body(identity@, secret@),
    {
        password_body_text(identity, secret)
    }

    /// `GET` address of a page of records, with the options as its query.
    pub fn get_list_url(&self, options: &ListOptions) -> (r: String)
        ensures
            r@ == with_query(
                without_trailing_slashes(self.base_uri@) + records_path(self.identifier@),
                form_urlencoded(list_pairs(*options)),
            ),
    {
        let mut url = trimmed_base(&self.base_uri);
        push_records_path(&mut url, self.identifier.as_str());
        append_query(&mut url, &options.query());
        url
    }

    /// `GET` address of one record, with the options as its query.
    pub fn get_one_url(&self, id: &str, options: &ViewOptions) -> (r: String)
        ensures
            r@ == with_query(
                without_trailing_slashes(self.base_uri@) + record_path(self.identifier@, id@),
                form_urlencoded(projection_pairs(options.expand, options.fields)),
            ),
    {
        let mut url = trimmed_base(&self.base_uri);
        push_record_path(&mut url, self.identifier.as_str(), id);
        append_query(&mut url, &options.query());
        url
    }

    /// `POST` address of a record creation, with the options as its query.
    pub fn create_url(&self, options: &CreateOptions) -> (r: String)
        ensures
            r@ == with_query(
                without_trailing_slashes(self.base_uri@) + records_path(self.identifier@),
                form_urlencoded(projection_pairs(options.expand, options.fields)),
            ),
    {
        let mut url = trimmed_base(&self.base_uri);
        push_records_path(&mut url, self.identifier.as_str());
        append_query(&mut url, &options.query());
        url
    }

    /// `PATCH` address of a record update, with the options as its query.
    pub fn update_url(&self, id: &str, options: &UpdateOptions) -> (r: String)
        ensures
            r@ == with_query(
                without_trailing_slashes(self.base_uri@) + record_path(self.identifier@, id@),
                form_urlencoded(projection_pairs(options.expand, options.fields)),
            ),
    {
        let mut url = trimmed_base(&self.base_uri);
        push_record_path(&mut url, self.identifier.as_str(), id);
        append_query(&mut url, &options.query());
        url
    }

    /// `DELETE` address of one record.
    pub fn delete_url(&self, id: &str) -> (r: String)
        ensures
            r@ == without_trailing_slashes(self.base_uri@) + record_path(self.identifier@, id@),
    {
        let mut url = trimmed_base(&self.base_uri);
        push_record_path(&mut url, self.identifier.as_str(), id);
        url
    }
}

} // verus!
