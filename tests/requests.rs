use pocket::names::{is_name_before, names_are_ascending};
use pocket::{
    BatchBuilder, BatchRequest, CreateOptions, Error, FieldError, FieldValue, File, Health, ListOptions,
    PocketBase, PocketBaseError, UpdateOptions, ViewOptions,
};

fn server() -> PocketBase {
    PocketBase::new("http://localhost:8090")
}

#[test]
fn error_texts() {
    let e = Error::Authorization {
        message: "Failed to authenticate.".to_string(),
        data: vec![
            ("identity".to_string(), FieldError { code: "c1".to_string(), message: "Cannot be blank.".to_string() }),
            ("password".to_string(), FieldError { code: "c2".to_string(), message: "Too short.".to_string() }),
        ],
    };
    assert_eq!(e.message(), "Failed to authenticate.\n  identity: Cannot be blank.\n  password: Too short.");
    assert_eq!(Error::Unauthorized.message(), "unauthrized");
    assert_eq!(Error::custom("boom").message(), "boom");
    assert!(matches!(Error::custom("x"), Error::Custom(s) if s == "x"));
}

#[test]
fn authorization_text_without_fields() {
    let e = Error::Authorization { message: "No.".to_string(), data: Vec::new() };
    assert_eq!(e.message(), "No.\n  ");
}

#[test]
fn list_query_in_declaration_order() {
    let o = ListOptions {
        page: Some(2),
        per_page: Some(30),
        sort: Some("-created".to_string()),
        filter: Some("a = 1".to_string()),
        expand: None,
        fields: None,
        skip_total: Some(true),
    };
    assert_eq!(o.query(), "page=2&perPage=30&sort=-created&filter=a+%3D+1&skipTotal=true");
    let pairs = o.query_pairs();
    assert_eq!(pairs.len(), 5);
    assert_eq!(pairs[0], ("page".to_string(), "2".to_string()));
}

#[test]
fn empty_options_give_empty_query() {
    assert_eq!(ListOptions::default().query(), "");
    assert_eq!(ViewOptions::default().query(), "");
    assert_eq!(CreateOptions::default().query(), "");
    assert_eq!(UpdateOptions::default().query(), "");
}

#[test]
fn largest_page_number_in_decimal() {
    let o = ListOptions { page: Some(usize::MAX), ..Default::default() };
    assert_eq!(o.query(), format!("page={}", usize::MAX));
    let z = ListOptions { per_page: Some(0), skip_total: Some(false), ..Default::default() };
    assert_eq!(z.query(), "perPage=0&skipTotal=false");
}

#[test]
fn collection_addresses() {
    let c = server().collection("posts");
    assert_eq!(c.auth_with_password_url(), "http://localhost:8090/api/collections/posts/auth-with-password");
    assert_eq!(c.get_list_url(&ListOptions::default()), "http://localhost:8090/api/collections/posts/records");
    let v = ViewOptions { expand: Some("author".to_string()), fields: None };
    assert_eq!(c.get_one_url("abc", &v), "http://localhost:8090/api/collections/posts/records/abc?expand=author");
    let cr = CreateOptions { expand: None, fields: Some("id,title".to_string()) };
    assert_eq!(c.create_url(&cr), "http://localhost:8090/api/collections/posts/records?fields=id%2Ctitle");
    assert_eq!(c.update_url("abc", &UpdateOptions::default()), "http://localhost:8090/api/collections/posts/records/abc");
    assert_eq!(c.delete_url("abc"), "http://localhost:8090/api/collections/posts/records/abc");
}

#[test]
fn server_addresses() {
    let pb = server();
    assert_eq!(pb.health_url(), "http://localhost:8090/api/health");
    assert_eq!(pb.batch_url(), "http://localhost:8090/api/batch");
}

#[test]
fn password_body_is_escaped_json() {
    let c = server().collection("users");
    assert_eq!(
        c.auth_with_password_body("a@b.c", "p\"w"),
        "{\"identity\":\"a@b.c\",\"password\":\"p\\\"w\"}"
    );
}

#[test]
fn batch_request_objects() {
    let create = BatchRequest::Create {
        collection: "posts".to_string(),
        record: "{\"title\":\"hi\"}".to_string(),
        files: Vec::new(),
        options: CreateOptions { expand: Some("author".to_string()), fields: None },
    };
    assert_eq!(
        create.request(),
        "{\"body\":{\"title\":\"hi\"},\"method\":\"POST\",\"url\":\"/api/collections/posts/records?expand=author\"}"
    );
    let update = BatchRequest::Update {
        collection: "posts".to_string(),
        id: "r1".to_string(),
        record: "{}".to_string(),
        files: Vec::new(),
        options: UpdateOptions::default(),
    };
    assert_eq!(update.request(), "{\"body\":{},\"method\":\"PATCH\",\"url\":\"/api/collections/posts/records/r1\"}");
    let delete = BatchRequest::Delete { collection: "posts".to_string(), id: "r2".to_string() };
    assert_eq!(delete.request(), "{\"method\":\"DELETE\",\"url\":\"/api/collections/posts/records/r2\"}");
    assert!(delete.files().is_none());
    assert!(update.files().is_none());
}

#[test]
fn batch_payload_and_file_parts() {
    let batch = server().create_batch();
    let batch = batch.collection("posts").create(
        "{\"a\":1}".to_string(),
        vec![("cover".to_string(), "/tmp/c.png".to_string())],
        CreateOptions::default(),
    );
    let batch = batch.collection("posts").delete("r9");
    let batch = batch.collection("docs").update(
        "d1",
        "{}".to_string(),
        vec![("file".to_string(), "/tmp/a.pdf".to_string()), ("thumb".to_string(), "/tmp/t.png".to_string())],
        UpdateOptions::default(),
    );
    assert_eq!(batch.requests.len(), 3);
    assert_eq!(
        batch.payload(),
        "{\"requests\":[{\"body\":{\"a\":1},\"method\":\"POST\",\"url\":\"/api/collections/posts/records\"},{\"method\":\"DELETE\",\"url\":\"/api/collections/posts/records/r9\"},{\"body\":{},\"method\":\"PATCH\",\"url\":\"/api/collections/docs/records/d1\"}]}"
    );
    let parts = batch.file_parts();
    assert_eq!(
        parts,
        vec![
            ("requests.0.cover".to_string(), "/tmp/c.png".to_string()),
            ("requests.2.file".to_string(), "/tmp/a.pdf".to_string()),
            ("requests.2.thumb".to_string(), "/tmp/t.png".to_string()),
        ]
    );
    assert_eq!(batch.requests[0].files().unwrap().len(), 1);
}

#[test]
fn empty_batch_payload() {
    let batch = BatchBuilder::new();
    assert_eq!(batch.payload(), "{\"requests\":[]}");
    assert!(batch.file_parts().is_empty());
}

#[test]
fn batch_part_names_past_nine() {
    let mut batch = BatchBuilder::new();
    for i in 0..11 {
        batch = batch.collection("c").delete(&format!("r{}", i));
    }
    batch = batch.collection("c").create("{}".to_string(), vec![("f".to_string(), "p".to_string())], CreateOptions::default());
    assert_eq!(batch.file_parts(), vec![("requests.11.f".to_string(), "p".to_string())]);
}

#[test]
fn file_addresses() {
    let files = server().files();
    assert_eq!(files.file_path("posts", "r1", "a.png"), "/api/files/posts/r1/a.png");
    assert_eq!(files.get_url("posts", "r1", "a.png"), Some("http://localhost:8090/api/files/posts/r1/a.png".to_string()));
    let nested = PocketBase::new("http://h:1/base/").files();
    assert_eq!(nested.get_url("c", "i", "f"), Some("http://h:1/api/files/c/i/f".to_string()));
    let bad = PocketBase::new("not a url").files();
    assert_eq!(bad.get_url("c", "i", "f"), None);
}

#[test]
fn files_constructors() {
    assert!(matches!(File::path("/tmp/x.png"), File::Path(p) if p == "/tmp/x.png"));
    match File::raw("a.txt", "text/plain", vec![1, 2]) {
        File::Raw { filename, mime, bytes } => {
            assert_eq!(filename, "a.txt");
            assert_eq!(mime, "text/plain");
            assert_eq!(bytes, vec![1, 2]);
        }
        _ => panic!("expected raw"),
    }
    assert!(matches!(File::from("/p".to_string()), File::Path(p) if p == "/p"));
    assert!(matches!(
        File::from(("n".to_string(), "m".to_string(), vec![3u8])),
        File::Raw { filename, .. } if filename == "n"
    ));
}

#[test]
fn form_fields_skip_nulls() {
    let fields = vec![
        ("a".to_string(), FieldValue::Null),
        ("b".to_string(), FieldValue::Bool(false)),
        ("c".to_string(), FieldValue::Number("1.5".to_string())),
        ("d".to_string(), FieldValue::Text("x".to_string())),
        ("e".to_string(), FieldValue::Json("[1,2]".to_string())),
    ];
    assert_eq!(
        pocket::form::form_fields(&fields),
        vec![
            ("b".to_string(), "false".to_string()),
            ("c".to_string(), "1.5".to_string()),
            ("d".to_string(), "x".to_string()),
            ("e".to_string(), "[1,2]".to_string()),
        ]
    );
}

#[test]
fn status_and_server_errors() {
    let failure = PocketBaseError { status: 404, message: "Not found.".to_string(), data: "{}".to_string() };
    assert_eq!(failure.message(), "[404] Not found.: {}");
    assert!(matches!(failure.clone().into_error(), Error::Custom(m) if m == "[404] Not found.: {}"));
    assert!(pocket::response::is_success(200));
    assert!(!pocket::response::is_success(199));
    assert!(!pocket::response::is_success(300));
    assert!(pocket::response::is_success(299));
    assert!(!pocket::response::is_success(404));
}

#[test]
fn health_code() {
    let h = Health { code: 200, message: "API is healthy.".to_string(), data: "{}".to_string() };
    assert!(h.is_healthy());
    let sick = Health { code: 500, message: String::new(), data: "{}".to_string() };
    assert!(!sick.is_healthy());
}

#[test]
fn decimal_texts() {
    assert_eq!(pocket::text::decimal_text(0), "0");
    assert_eq!(pocket::text::decimal_text(1234), "1234");
    assert_eq!(pocket::text::decimal_text(usize::MAX), usize::MAX.to_string());
}

#[test]
fn addresses_ignore_trailing_slash_of_base() {
    let pb = PocketBase::new("http://localhost:8090/");
    assert_eq!(pb.health_url(), "http://localhost:8090/api/health");
    assert_eq!(pb.batch_url(), "http://localhost:8090/api/batch");
    assert_eq!(pb.collection("posts").delete_url("x"), "http://localhost:8090/api/collections/posts/records/x");
    assert_eq!(PocketBase::new("/").health_url(), "/api/health");
}

#[test]
fn json_strings_escape_controls() {
    let c = server().collection("users");
    assert_eq!(
        c.auth_with_password_body("a\tb\u{1}", "\\/\n"),
        "{\"identity\":\"a\\tb\\u0001\",\"password\":\"\\\\/\\n\"}"
    );
    assert_eq!(c.auth_with_password_body("\u{1f}é", ""), "{\"identity\":\"\\u001fé\",\"password\":\"\"}");
}

#[test]
fn name_order_and_uniqueness() {
    assert!(is_name_before("a", "b"));
    assert!(is_name_before("ab", "abc"));
    assert!(!is_name_before("abc", "ab"));
    assert!(!is_name_before("x", "x"));
    assert!(is_name_before("Z", "a"));
    assert!(is_name_before("z", "é"));
    let sorted = vec![("a".to_string(), 1), ("b".to_string(), 2), ("c".to_string(), 3)];
    assert!(names_are_ascending(&sorted));
    let repeated = vec![("a".to_string(), 1), ("a".to_string(), 2)];
    assert!(!names_are_ascending(&repeated));
    let unsorted = vec![("b".to_string(), 1), ("a".to_string(), 2)];
    assert!(!names_are_ascending(&unsorted));
    let empty: Vec<(String, u8)> = Vec::new();
    assert!(names_are_ascending(&empty));
}
