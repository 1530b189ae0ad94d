use vstd::prelude::*;
use vstd::string::*;

verus! {

/// A file to upload: a path on the local disk, read when the call is made, or
/// bytes held in memory with a name and a MIME type.
#[derive(Debug, Clone)]
pub enum File {
    Path(String),
    Raw { filename: String, mime: String, bytes: Vec<u8> },
}

impl File {
    /// The file at `path`.
    pub fn path(path: &str) -> (r: File)
        ensures
            r is Path,
            r->Path_0@ == path@,
    {
        File::Path(path.to_string())
    }

    /// In-memory bytes uploaded under `name` with MIME type `mime`.
    pub fn raw(name: &str, mime: &str, bytes: Vec<u8>) -> (r: File)
        ensures
            r is Raw,
            r->Raw_filename@ == name@,
            r->Raw_mime@ == mime@,
            r->Raw_bytes == bytes,
    {
        File::Raw { filename: name.to_string(), mime: mime.to_string(), bytes }
    }
}

impl From<String> for File {
    /// The file at the path `value`.
    fn from(value: String) -> (r: File) {
        File::Path(value)
    }
}

impl vstd::std_specs::convert::FromSpecImpl<String> for File {
    open spec fn obeys_from_spec() -> bool {
        true
    }

    open spec fn from_spec(value: String) -> File {
        File::Path(value)
    }
}

impl From<(String, String, Vec<u8>)> for File {
    /// In-memory bytes from a name, a MIME type and the bytes.
    fn from(value: (String, String, Vec<u8>)) -> (r: File) {
        let (filename, mime, bytes) = value;
        File::Raw { filename, mime, bytes }
    }
}

impl vstd::std_specs::convert::FromSpecImpl<(String, String, Vec<u8>)> for File {
    open spec fn obeys_from_spec() -> bool {
        true
    }

    open spec fn from_spec(value: (String, String, Vec<u8>)) -> File {
        File::Raw { filename: value.0, mime: value.1, bytes: value.2 }
    }
}

/// Addresses of stored files on one server.
#[derive(Debug, Clone)]
pub struct FilesBuilder {
    pub base_uri: String,
}

/// `/api/files/{collection}/{id}/{filename}`.
pub open spec fn file_path(collection: Seq<char>, id: Seq<char>, filename: Seq<char>) -> Seq<char> {
    "/api/files/"@ + collection + "/"@ + id + "/"@ + filename
}

/// Names what the url crate makes of `input` resolved against the address
/// `base`: the text of the joined address, or none when `base` is no absolute
/// address or the join fails.
pub uninterp spec fn url_join(base: Seq<char>, input: Seq<char>) -> Option<Seq<char>>;

/// Relies on `url::Url::parse` of the base address and `Url::join`: the
/// text of `input` resolved against `base`, or none where either fails.
#[verifier::external_body]
fn join_url(base: &str, input: &str) -> (r: Option<String>)
    ensures
        r is Some <==> url_join(base@, input@) is Some,
        r is Some ==> r->Some_0@ == url_join(base@, input@)->Some_0,
{
    let joined = match url::Url::parse(base) {
        Ok(b) => b.join(input),
        Err(e) => Err(e),
    };
    match joined {
        Ok(u) => Some(u.to_string()),
        Err(_) => None,
    }
}

impl FilesBuilder {
    /// The path of a stored file, relative to the server's root.
    pub fn file_path(&self, collection_id: &str, id: &str, filename: &str) -> (r: String)
        ensures
            r@ == file_path(collection_id@, id@, filename@),
    {
        let mut path = String::from_str("/api/files/");
        path.append(collection_id);
        path.append("/");
        path.append(id);
        path.append("/");
        path.append(filename);
        path
    }

    /// The address of a stored file: its path resolved against the server's
    /// address; none when that address cannot be parsed.
    pub fn get_url(&self, collection_id: &str, id: &str, filename: &str) -> (r: Option<String>)
        ensures
            r is Some <==> url_join(self.base_uri@, file_path(collection_id@, id@, filename@)) is Some,
            r is Some ==> r->Some_0@ == url_join(self.base_uri@, file_path(collection_id@, id@, filename@))->Some_0,
    {
        let path = self.file_path(collection_id, id, filename);
        join_url(self.base_uri.as_str(), path.as_str())
    }
}

} // verus!
