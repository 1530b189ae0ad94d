use vstd::prelude::*;
use vstd::string::*;

use crate::collection::{push_record_path, push_records_path, record_path, records_path};
use crate::names::names_ascending;
use crate::json::{json_string, push_json_string};
use crate::options::{append_query, form_urlencoded, projection_pairs, with_query, CreateOptions, UpdateOptions};
use crate::text::{decimal, push_decimal};

verus! {

/// One record call of a batch. A record is held as its JSON text; files map a
/// field name to a path on the local disk, one entry per name in ascending
/// order (see `wf`).
#[derive(Debug, Clone)]
pub enum BatchRequest {
    Create { collection: String, record: String, files: Vec<(String, String)>, options: CreateOptions },
    Update {
        collection: String,
        id: String,
        record: String,
        files: Vec<(String, String)>,
        options: UpdateOptions,
    },
    Delete { collection: String, id: String },
}

/// The address of a call of a batch, relative to the server's root.
pub open spec fn request_url(r: BatchRequest) -> Seq<char> {
    match r {
        BatchRequest::Create { collection, options, .. } => with_query(
            records_path(collection@),
            form_urlencoded(projection_pairs(options.expand, options.fields)),
        ),
        BatchRequest::Update { collection, id, options, .. } => with_query(
            record_path(collection@, id@),
            form_urlencoded(projection_pairs(options.expand, options.fields)),
        ),
        BatchRequest::Delete { collection, id } => record_path(collection@, id@),
    }
}

/// The JSON object of a call of a batch, keys in ascending order:
/// `{"body":<record>,"method":"POST","url":<url>}` for a creation, the same with
/// `PATCH` for an update, `{"method":"DELETE","url":<url>}` for a deletion.
pub open spec fn request_text(r: BatchRequest) -> Seq<char> {
    match r {
        BatchRequest::Create { record, .. } => "{\"body\":"@ + record@ + ",\"method\":\"POST\",\"url\":"@
            + json_string(request_url(r)) + "}"@,
        BatchRequest::Update { record, .. } => "{\"body\":"@ + record@ + ",\"method\":\"PATCH\",\"url\":"@
            + json_string(request_url(r)) + "}"@,
        BatchRequest::Delete { .. } => "{\"method\":\"DELETE\",\"url\":"@ + json_string(request_url(r))
            + "}"@,
    }
}

/// The JSON objects of the calls, joined by commas.
pub open spec fn requests_text(rs: Seq<BatchRequest>) -> Seq<char>
    decreases rs.len(),
{
    if rs.len() == 0 {
        Seq::empty()
    } else if rs.len() == 1 {
        request_text(rs[0])
    } else {
        requests_text(rs.drop_last()) + ","@ + request_text(rs.last())
    }
}

/// The JSON payload of a batch: `{"requests":[...]}`.
pub open spec fn payload_text(rs: Seq<BatchRequest>) -> Seq<char> {
    "{\"requests\":["@ + requests_text(rs) + "]}"@
}

/// The files of a call; a deletion has none.
pub open spec fn request_files(r: BatchRequest) -> Seq<(String, String)> {
    match r {
        BatchRequest::Create { files, .. } => files@,
        BatchRequest::Update { files, .. } => files@,
        BatchRequest::Delete { .. } => Seq::empty(),
    }
}

/// The form part name of field `name` of the call at position `i`:
/// `requests.{i}.{name}`.
pub open spec fn part_name(i: nat, name: Seq<char>) -> Seq<char> {
    "requests."@ + decimal(i) + "."@ + name
}

/// The form parts of the files of the call at position `i`: part name and path.
pub open spec fn request_parts(i: nat, files: Seq<(String, String)>) -> Seq<(Seq<char>, Seq<char>)> {
    files.map_values(|f: (String, String)| (part_name(i, f.0@), f.1@))
}

/// The form parts of the files of all calls, call by call, each call's files
/// in their order.
pub open spec fn batch_parts(rs: Seq<BatchRequest>) -> Seq<(Seq<char>, Seq<char>)>
    decreases rs.len(),
{
    if rs.len() == 0 {
        Seq::empty()
    } else {
        batch_parts(rs.drop_last()) + request_parts((rs.len() - 1) as nat, request_files(rs.last()))
    }
}

impl BatchRequest {
    /// Well-formed: the files are keyed by strictly ascending field names.
    pub open spec fn wf(&self) -> bool {
        names_ascending(request_files(*self))
    }

    /// The JSON object of this call.
    pub fn request(&self) -> (r: String)
        ensures
            r@ == request_text(*self),
    {
        let mut url = String::new();
        let mut out = String::new();
        match self {
            BatchRequest::Create { collection, record, options, .. } => {
                push_records_path(&mut url, collection.as_str());
                append_query(&mut url, &options.query());
                out.append("{\"body\":");
                out.append(record.as_str());
                out.append(",\"method\":\"POST\",\"url\":");
            },
            BatchRequest::Update { collection, id, record, options, .. } => {
                push_record_path(&mut url, collection.as_str(), id.as_str());
                append_query(&mut url, &options.query());
                out.append("{\"body\":");
                out.append(record.as_str());
                out.append(",\"method\":\"PATCH\",\"url\":");
            },
            BatchRequest::Delete { collection, id } => {
                push_record_path(&mut url, collection.as_str(), id.as_str());
                out.append("{\"method\":\"DELETE\",\"url\":");
            },
        }
        push_json_string(&mut out, url.as_str());
        out.append("}");
        out
    }

    /// The files of this call; none for a deletion or an empty set.
    pub fn files(&self) -> (r: Option<&Vec<(String, String)>>)
        ensures
            r is Some <==> request_files(*self).len() > 0,
            r is Some ==> r->Some_0@ == request_files(*self),
    {
        match self {
            BatchRequest::Create { files, .. } => if files.len() > 0 {
                Some(files)
            } else {
                None
            },
            BatchRequest::Update { files, .. } => if files.len() > 0 {
                Some(files)
            } else {
                None
            },
            BatchRequest::Delete { .. } => None,
        }
    }
}

/// The status and body of one call of a batch, as the server reports it.
#[derive(Debug, Clone)]
pub struct BatchResult<T> {
    pub status: u16,
    pub body: T,
}

/// Record calls gathered to be sent as one batch.
#[derive(Debug, Clone)]
pub struct BatchBuilder {
    pub requests: Vec<BatchRequest>,
}

/// The calls of a batch on one collection.
#[derive(Debug, Clone)]
pub struct BatchCollectionBuilder {
    pub batch: BatchBuilder,
    pub identifier: String,
}

impl BatchBuilder {
    /// Well-formed: every call of the batch is.
    pub open spec fn wf(&self) -> bool {
        forall|i: int| 0 <= i < self.requests@.len() ==> (#[trigger] self.requests@[i]).wf()
    }

    /// An empty batch.
    pub fn new() -> (r: BatchBuilder)
        ensures
            r.requests@.len() == 0,
            r.wf(),
    {
        BatchBuilder { requests: Vec::new() }
    }

    /// Continues the batch with calls on `identifier`.
    pub fn collection(self, identifier: &str) -> (r: BatchCollectionBuilder)
        ensures
            r.batch == self,
            r.identifier@ == identifier@,
    {
        BatchCollectionBuilder { batch: self, identifier: identifier.to_string() }
    }

    /// The JSON payload of the batch: the object of each call, in order.
    pub fn payload(&self) -> (r: String)
        ensures
            r@ == payload_text(self.requests@),
    {
        let mut out = String::from_str("{\"requests\":[");
        let ghost start = out@;
        let n = self.requests.len();
        for i in 0..n
            invariant
                n == self.requests@.len(),
                out@ == start + requests_text(self.requests@.take(i as int)),
        {
            if i > 0 {
                out.append(",");
            }
            let text = self.requests[i].request();
            out.append(text.as_str());
            assert(self.requests@.take(i + 1).drop_last() =~= self.requests@.take(i as int));
        }
        assert(self.requests@.take(n as int) =~= self.requests@);
        out.append("]}");
        out
    }

    /// The form parts of the batch's files: for field `name` of the call at
    /// position `i`, the part `requests.{i}.{name}` with its path.
    pub fn file_parts(&self) -> (r: Vec<(String, String)>)
        ensures
            crate::text::pairs_view(r@) == batch_parts(self.requests@),
    {
        let mut parts: Vec<(String, String)> = Vec::new();
        let n = self.requests.len();
        for i in 0..n
            invariant
                n == self.requests@.len(),
                crate::text::pairs_view(parts@) == batch_parts(self.requests@.take(i as int)),
        {
            let ghost before = parts@;
            assert(self.requests@.take(i + 1).drop_last() =~= self.requests@.take(i as int));
            if let Some(files) = self.requests[i].files() {
                let m = files.len();
                for j in 0..m
                    invariant
                        m == files@.len(),
                        files@ == request_files(self.requests@[i as int]),
                        crate::text::pairs_view(parts@) == crate::text::pairs_view(before) + request_parts(
                            i as nat,
                            files@.take(j as int),
                        ),
                {
                    let mut name = String::from_str("requests.");
                    push_decimal(&mut name, i);
                    name.append(".");
                    name.append(files[j].0.as_str());
                    let path = files[j].1.clone();
                    assert(name@ == part_name(i as nat, files@[j as int].0@));
                    assert(path@ == files@[j as int].1@);
                    let ghost prior = parts@;
                    parts.push((name, path));
                    assert(crate::text::pairs_view(parts@) =~= crate::text::pairs_view(prior).push(
                        (part_name(i as nat, files@[j as int].0@), files@[j as int].1@),
                    ));
                    assert(files@.take(j + 1) =~= files@.take(j as int).push(files@[j as int]));
                    assert(request_parts(i as nat, files@.take(j + 1)) =~= request_parts(
                        i as nat,
                        files@.take(j as int),
                    ).push((part_name(i as nat, files@[j as int].0@), files@[j as int].1@)));
                    assert(crate::text::pairs_view(parts@) =~= crate::text::pairs_view(before) + request_parts(
                        i as nat,
                        files@.take(j + 1),
                    ));
                }
                assert(files@.take(m as int) =~= files@);
            } else {
                assert(request_parts(i as nat, request_files(self.requests@[i as int])) =~= Seq::empty());
                assert(crate::text::pairs_view(parts@) =~= crate::text::pairs_view(before) + Seq::empty());
            }
        }
        assert(self.requests@.take(n as int) =~= self.requests@);
        parts
    }
}

impl BatchCollectionBuilder {
    /// Adds the creation of a record, given as JSON text, with its files keyed
    /// by strictly ascending field names.
    pub fn create(self, record: String, files: Vec<(String, String)>, options: CreateOptions) -> (r: BatchBuilder)
        requires
            names_ascending(files@),
        ensures
            self.batch.wf() ==> r.wf(),
            r.requests@ == self.batch.requests@.push(
                BatchRequest::Create { collection: self.identifier, record, files, options },
            ),
    {
        let mut batch = self.batch;
        batch.requests.push(BatchRequest::Create { collection: self.identifier, record, files, options });
        batch
    }

    /// Adds the update of record `id`, given as JSON text, with its files
    /// keyed by strictly ascending field names.
    pub fn update(self, id: &str, record: String, files: Vec<(String, String)>, options: UpdateOptions) -> (r: BatchBuilder)
        requires
            names_ascending(files@),
        ensures
            self.batch.wf() ==> r.wf(),
            r.requests@.len() == self.batch.requests@.len() + 1,
            r.requests@.drop_last() == self.batch.requests@,
            r.requests@.last() is Update,
            r.requests@.last()->Update_collection == self.identifier,
            r.requests@.last()->Update_id@ == id@,
            r.requests@.last()->Update_record == record,
            r.requests@.last()->Update_files == files,
            r.requests@.last()->Update_options == options,
    {
        let mut batch = self.batch;
        batch.requests.push(
            BatchRequest::Update { collection: self.identifier, id: id.to_string(), record, files, options },
        );
        proof {
            assert(batch.requests@.drop_last() =~= self.batch.requests@);
        }
        batch
    }

    /// Adds the deletion of record `id`.
    pub fn delete(self, id: &str) -> (r: BatchBuilder)
        ensures
            self.batch.wf() ==> r.wf(),
            r.requests@.len() == self.batch.requests@.len() + 1,
            r.requests@.drop_last() == self.batch.requests@,
            r.requests@.last() is Delete,
            r.requests@.last()->Delete_collection == self.identifier,
            r.requests@.last()->Delete_id@ == id@,
    {
        let mut batch = self.batch;
        batch.requests.push(BatchRequest::Delete { collection: self.identifier, id: id.to_string() });
        proof {
            assert(batch.requests@.drop_last() =~= self.batch.requests@);
        }
        batch
    }
}

} // verus!
