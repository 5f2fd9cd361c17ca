use filestore::bytes_util::{bytes_eq, concat_bytes, copy_bytes, find, starts_with, subvec};
use filestore::handlers::upload_handler;
use filestore::multipart::{boundary_of, parse_multipart, Part};
use filestore::pipeline::{handle_request, map_failure, Config, Failure, Request};
use filestore::router::{route, Method, Route};
use filestore::storage::Storage;

fn mp_body(boundary: &[u8], parts: &[(&[u8], &[u8])]) -> Vec<u8> {
    let mut body = Vec::new();
    body.extend_from_slice(b"--");
    body.extend_from_slice(boundary);
    for (name, content) in parts {
        body.extend_from_slice(b"\r\nContent-Disposition: form-data; name=\"");
        body.extend_from_slice(name);
        body.extend_from_slice(b"\"\r\n\r\n");
        body.extend_from_slice(content);
        body.extend_from_slice(b"\r\n--");
        body.extend_from_slice(boundary);
    }
    body.extend_from_slice(b"--");
    body
}

fn upload_request(name: &[u8], boundary: &[u8], parts: &[(&[u8], &[u8])]) -> Request {
    let mut path = b"/files/v1/".to_vec();
    path.extend_from_slice(name);
    let mut ct = b"multipart/form-data; boundary=".to_vec();
    ct.extend_from_slice(boundary);
    Request {
        method: Method::Post,
        path,
        content_type: Some(ct),
        body: mp_body(boundary, parts),
    }
}

fn list_request() -> Request {
    Request {
        method: Method::Get,
        path: b"/files/v1".to_vec(),
        content_type: None,
        body: Vec::new(),
    }
}

fn delete_request(name: &[u8]) -> Request {
    let mut path = b"/files/v1/".to_vec();
    path.extend_from_slice(name);
    Request {
        method: Method::Delete,
        path,
        content_type: None,
        body: Vec::new(),
    }
}

fn cfg() -> Config {
    Config { max_body: 5_000_000 }
}

#[test]
fn upload_then_list_includes_name() {
    let mut s = Storage::new();
    let r = handle_request(&cfg(), &mut s, &upload_request(b"a.txt", b"B", &[(b"file", b"hello")]));
    assert_eq!(r.status, 200);
    assert_eq!(r.body, b"success".to_vec());
    let r = handle_request(&cfg(), &mut s, &list_request());
    assert_eq!(r.status, 200);
    assert_eq!(r.body, b"a.txt\n".to_vec());
}

#[test]
fn reupload_replaces_content_whole() {
    let mut s = Storage::new();
    handle_request(&cfg(), &mut s, &upload_request(b"a.txt", b"B", &[(b"file", b"first")]));
    handle_request(&cfg(), &mut s, &upload_request(b"a.txt", b"B", &[(b"file", b"second!")]));
    assert_eq!(s.read(&b"a.txt".to_vec()), Some(b"second!".to_vec()));
    let r = handle_request(&cfg(), &mut s, &list_request());
    assert_eq!(r.body, b"a.txt\n".to_vec());
}

#[test]
fn last_file_part_wins_within_one_body() {
    let mut s = Storage::new();
    let req = upload_request(b"a.txt", b"B", &[(b"file", b"one"), (b"other", b"x"), (b"file", b"two")]);
    let r = handle_request(&cfg(), &mut s, &req);
    assert_eq!(r.status, 200);
    assert_eq!(s.read(&b"a.txt".to_vec()), Some(b"two".to_vec()));
}

#[test]
fn delete_after_upload_omits_from_listing() {
    let mut s = Storage::new();
    handle_request(&cfg(), &mut s, &upload_request(b"a.txt", b"B", &[(b"file", b"hello")]));
    let r = handle_request(&cfg(), &mut s, &delete_request(b"a.txt"));
    assert_eq!(r.status, 200);
    assert_eq!(r.body, b"a.txt deleted".to_vec());
    let r = handle_request(&cfg(), &mut s, &list_request());
    assert_eq!(r.status, 200);
    assert_eq!(r.body, b"".to_vec());
}

#[test]
fn delete_of_never_uploaded_name_fails() {
    let mut s = Storage::new();
    let r = handle_request(&cfg(), &mut s, &delete_request(b"ghost.txt"));
    assert_eq!(r.status, 400);
    assert_eq!(r.body, b"file not found".to_vec());
}

#[test]
fn upload_without_file_part_writes_nothing() {
    let mut s = Storage::new();
    let r = handle_request(&cfg(), &mut s, &upload_request(b"a.txt", b"B", &[(b"other", b"data")]));
    assert_eq!(r.status, 200);
    assert_eq!(r.body, b"success".to_vec());
    let r = handle_request(&cfg(), &mut s, &list_request());
    assert_eq!(r.body, b"".to_vec());
    assert_eq!(s.read(&b"a.txt".to_vec()), None);
}

#[test]
fn oversized_body_is_rejected_before_any_write() {
    let mut s = Storage::new();
    let small = Config { max_body: 10 };
    let req = upload_request(b"a.txt", b"B", &[(b"file", b"far more than ten bytes")]);
    assert!(req.body.len() > 10);
    let r = handle_request(&small, &mut s, &req);
    assert_eq!(r.status, 400);
    assert_eq!(r.body, b"Payload too large".to_vec());
    let r = handle_request(&small, &mut s, &list_request());
    assert_eq!(r.body, b"".to_vec());
}

#[test]
fn listing_empty_storage_returns_empty_not_error() {
    let mut s = Storage::new();
    let r = handle_request(&cfg(), &mut s, &list_request());
    assert_eq!(r.status, 200);
    assert_eq!(r.body, b"".to_vec());
}

#[test]
fn unmatched_requests_are_not_found() {
    let mut s = Storage::new();
    let cases: Vec<Request> = vec![
        Request { method: Method::Get, path: b"/other".to_vec(), content_type: None, body: Vec::new() },
        Request { method: Method::Post, path: b"/files/v1".to_vec(), content_type: None, body: Vec::new() },
        Request { method: Method::Post, path: b"/files/v1/".to_vec(), content_type: None, body: Vec::new() },
        Request { method: Method::Get, path: b"/files/v1/a.txt".to_vec(), content_type: None, body: Vec::new() },
        Request { method: Method::Delete, path: b"/files/v1".to_vec(), content_type: None, body: Vec::new() },
        Request { method: Method::Other, path: b"/files/v1".to_vec(), content_type: None, body: Vec::new() },
        Request { method: Method::Post, path: b"/files/v1/a/b".to_vec(), content_type: None, body: Vec::new() },
    ];
    for req in cases {
        let r = handle_request(&cfg(), &mut s, &req);
        assert_eq!(r.status, 404);
        assert_eq!(r.body, b"Not Found".to_vec());
    }
}

#[test]
fn report_csv_scenario() {
    let mut s = Storage::new();
    let r = handle_request(&cfg(), &mut s, &upload_request(b"report.csv", b"B", &[(b"file", b"a,b,c")]));
    assert_eq!(r.status, 200);
    assert_eq!(r.body, b"success".to_vec());
    let r = handle_request(&cfg(), &mut s, &list_request());
    assert_eq!(r.status, 200);
    assert_eq!(r.body, b"report.csv\n".to_vec());
    let r = handle_request(&cfg(), &mut s, &delete_request(b"report.csv"));
    assert_eq!(r.status, 200);
    assert_eq!(r.body, b"report.csv deleted".to_vec());
    let r = handle_request(&cfg(), &mut s, &list_request());
    assert_eq!(r.status, 200);
    assert_eq!(r.body, b"".to_vec());
}

#[test]
fn listing_keeps_enumeration_order() {
    let mut s = Storage::new();
    handle_request(&cfg(), &mut s, &upload_request(b"b.txt", b"B", &[(b"file", b"1")]));
    handle_request(&cfg(), &mut s, &upload_request(b"a.txt", b"B", &[(b"file", b"2")]));
    handle_request(&cfg(), &mut s, &upload_request(b"c.txt", b"B", &[(b"file", b"3")]));
    let r = handle_request(&cfg(), &mut s, &list_request());
    assert_eq!(r.body, b"b.txt\na.txt\nc.txt\n".to_vec());
}

#[test]
fn upload_with_missing_content_type_is_parse_error() {
    let mut s = Storage::new();
    let mut req = upload_request(b"a.txt", b"B", &[(b"file", b"x")]);
    req.content_type = None;
    let r = handle_request(&cfg(), &mut s, &req);
    assert_eq!(r.status, 400);
    assert_eq!(r.body, b"multipart parse error".to_vec());
}

#[test]
fn upload_with_malformed_body_is_parse_error() {
    let mut s = Storage::new();
    let mut req = upload_request(b"a.txt", b"B", &[(b"file", b"x")]);
    req.body = b"this is not multipart".to_vec();
    let r = handle_request(&cfg(), &mut s, &req);
    assert_eq!(r.status, 400);
    assert_eq!(r.body, b"multipart parse error".to_vec());
}

#[test]
fn parse_multipart_extracts_named_parts() {
    let body = mp_body(b"XYZ", &[(b"file", b"content here"), (b"meta", b"v")]);
    let parts = parse_multipart(&b"XYZ".to_vec(), &body).expect("parses");
    assert_eq!(parts.len(), 2);
    assert_eq!(parts[0].name, b"file".to_vec());
    assert_eq!(parts[0].content, b"content here".to_vec());
    assert_eq!(parts[1].name, b"meta".to_vec());
    assert_eq!(parts[1].content, b"v".to_vec());
}

#[test]
fn parse_multipart_empty_body_has_no_parts() {
    let body = mp_body(b"XYZ", &[]);
    let parts = parse_multipart(&b"XYZ".to_vec(), &body).expect("parses");
    assert_eq!(parts.len(), 0);
}

#[test]
fn parse_multipart_rejects_wrong_boundary() {
    let body = mp_body(b"XYZ", &[(b"file", b"c")]);
    assert!(parse_multipart(&b"OTHER".to_vec(), &body).is_none());
}

#[test]
fn parse_multipart_rejects_part_without_name() {
    let mut body = Vec::new();
    body.extend_from_slice(b"--B\r\nContent-Disposition: form-data\r\n\r\ncontent\r\n--B--");
    assert!(parse_multipart(&b"B".to_vec(), &body).is_none());
}

#[test]
fn parse_multipart_rejects_unterminated_body() {
    let body = b"--B\r\nContent-Disposition: form-data; name=\"file\"\r\n\r\ncontent".to_vec();
    assert!(parse_multipart(&b"B".to_vec(), &body).is_none());
}

#[test]
fn boundary_of_reads_plain_and_quoted_values() {
    assert_eq!(
        boundary_of(&b"multipart/form-data; boundary=abc123".to_vec()),
        Some(b"abc123".to_vec())
    );
    assert_eq!(
        boundary_of(&b"multipart/form-data; boundary=\"abc123\"".to_vec()),
        Some(b"abc123".to_vec())
    );
    assert_eq!(
        boundary_of(&b"multipart/form-data; boundary=abc; charset=utf-8".to_vec()),
        Some(b"abc".to_vec())
    );
    assert_eq!(boundary_of(&b"text/plain".to_vec()), None);
}

#[test]
fn map_failure_matches_the_error_table() {
    let r = map_failure(Failure::RoutingMiss);
    assert_eq!((r.status, r.body), (404, b"Not Found".to_vec()));
    let r = map_failure(Failure::PayloadTooLarge);
    assert_eq!((r.status, r.body), (400, b"Payload too large".to_vec()));
    let r = map_failure(Failure::StorageFailure { detail: b"disk on fire".to_vec() });
    assert_eq!((r.status, r.body), (400, b"disk on fire".to_vec()));
    let r = map_failure(Failure::Internal);
    assert_eq!((r.status, r.body), (500, b"Internal server error.".to_vec()));
}

#[test]
fn route_selects_exactly_one_handler() {
    match route(Method::Post, &b"/files/v1/a.txt".to_vec()) {
        Route::Upload { name } => assert_eq!(name, b"a.txt".to_vec()),
        _ => panic!("expected upload"),
    }
    match route(Method::Get, &b"/files/v1".to_vec()) {
        Route::List => {}
        _ => panic!("expected list"),
    }
    match route(Method::Delete, &b"/files/v1/a.txt".to_vec()) {
        Route::Delete { name } => assert_eq!(name, b"a.txt".to_vec()),
        _ => panic!("expected delete"),
    }
    match route(Method::Get, &b"/files/v2".to_vec()) {
        Route::NotFound => {}
        _ => panic!("expected not found"),
    }
}

#[test]
fn storage_write_read_remove() {
    let mut s = Storage::new();
    s.write(&b"k".to_vec(), &b"v1".to_vec());
    assert_eq!(s.read(&b"k".to_vec()), Some(b"v1".to_vec()));
    s.write(&b"k".to_vec(), &b"v2".to_vec());
    assert_eq!(s.read(&b"k".to_vec()), Some(b"v2".to_vec()));
    assert_eq!(s.list_names(), vec![b"k".to_vec()]);
    assert!(s.remove(&b"k".to_vec()));
    assert!(!s.remove(&b"k".to_vec()));
    assert_eq!(s.read(&b"k".to_vec()), None);
    assert_eq!(s.list_names(), Vec::<Vec<u8>>::new());
}

#[test]
fn upload_handler_ignores_other_parts() {
    let mut s = Storage::new();
    let parts = vec![
        Part { name: b"other".to_vec(), content: b"x".to_vec() },
        Part { name: b"file".to_vec(), content: b"kept".to_vec() },
    ];
    upload_handler(&mut s, &b"n".to_vec(), &parts);
    assert_eq!(s.read(&b"n".to_vec()), Some(b"kept".to_vec()));
    assert_eq!(s.read(&b"other".to_vec()), None);
}

#[test]
fn byte_helpers_behave() {
    let h = b"abcabc".to_vec();
    assert_eq!(find(&h, &b"bc".to_vec(), 0), Some(1));
    assert_eq!(find(&h, &b"bc".to_vec(), 2), Some(4));
    assert_eq!(find(&h, &b"zz".to_vec(), 0), None);
    assert_eq!(find(&h, &b"".to_vec(), 0), None);
    assert!(starts_with(&h, &b"abc".to_vec()));
    assert!(!starts_with(&h, &b"bc".to_vec()));
    assert_eq!(subvec(&h, 1, 4), b"bca".to_vec());
    assert_eq!(concat_bytes(&b"ab".to_vec(), &b"cd".to_vec()), b"abcd".to_vec());
    assert_eq!(copy_bytes(&h), h);
    assert!(bytes_eq(&b"x".to_vec(), &b"x".to_vec()));
    assert!(!bytes_eq(&b"x".to_vec(), &b"y".to_vec()));
}
