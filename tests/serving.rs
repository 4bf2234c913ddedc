use std::time::{Duration, UNIX_EPOCH};
use web_server::memfs::{serve, MemFiles};
use web_server::request::Request;
use web_server::response::{Response, StatusCode};
use web_server::routing::{
    form_lines, get_content_type, media_type_for, route, FileOp, FileReply, Removal, Step,
};

const NOW: u64 = 1_475_419_451;

fn request(line: &str, headers: &[&str], body: &[u8]) -> Request {
    let mut req = Request::default();
    req.parse_status_line(line.to_string()).unwrap();
    for h in headers {
        req.append_header(h);
    }
    req.set_body(body);
    req
}

fn header(res: &Response, name: &str) -> Option<String> {
    res.get_headers().get(&name.to_string()).cloned()
}

fn body(res: &Response) -> Option<Vec<u8>> {
    res.get_body().cloned()
}

fn status(res: &Response) -> usize {
    res.get_status().unwrap().code()
}

#[test]
fn get_returns_bytes_written_before() {
    let mut files = MemFiles::new();
    files.write("public/data.bin".to_string(), vec![1, 2, 3, 0, 255]);
    let res = serve(request("GET /data.bin HTTP/1.1", &[], b""), NOW, &mut files).unwrap();
    assert_eq!(status(&res), 200);
    assert_eq!(body(&res), Some(vec![1, 2, 3, 0, 255]));
    assert_eq!(header(&res, "Content-Length"), Some("5".to_string()));
    assert_eq!(header(&res, "Content-Type"), Some("application/octet-stream".to_string()));
}

#[test]
fn date_header_is_the_http_date_of_now() {
    let mut files = MemFiles::new();
    let res = serve(request("OPTIONS / HTTP/1.1", &[], b""), NOW, &mut files).unwrap();
    let expected = httpdate::fmt_http_date(UNIX_EPOCH + Duration::from_secs(NOW));
    assert_eq!(header(&res, "Date"), Some(expected));
    assert_eq!(header(&res, "Date"), Some("Sun, 02 Oct 2016 14:44:11 GMT".to_string()));
}

#[test]
fn get_missing_file_returns_not_found_document() {
    let mut files = MemFiles::new();
    files.write("public/error/404.html".to_string(), b"<h1>gone</h1>".to_vec());
    let res = serve(request("GET /nope.txt HTTP/1.1", &[], b""), NOW, &mut files).unwrap();
    assert_eq!(status(&res), 404);
    assert_eq!(body(&res), Some(b"<h1>gone</h1>".to_vec()));
    assert_eq!(header(&res, "Content-Type"), Some("text/html".to_string()));
}

#[test]
fn get_missing_file_without_error_document_has_no_body() {
    let mut files = MemFiles::new();
    let res = serve(request("GET /nope.txt HTTP/1.1", &[], b""), NOW, &mut files).unwrap();
    assert_eq!(status(&res), 404);
    assert_eq!(body(&res), None);
    assert_eq!(res.get_headers().len(), 1);
}

#[test]
fn put_creates_then_replaces() {
    let mut files = MemFiles::new();
    let res = serve(request("PUT /new.txt HTTP/1.1", &[], b"first"), NOW, &mut files).unwrap();
    assert_eq!(status(&res), 201);
    assert_eq!(body(&res), Some(b"first".to_vec()));
    assert_eq!(files.read(&"public/new.txt".to_string()), Some(b"first".to_vec()));

    let res = serve(request("PUT /new.txt HTTP/1.1", &[], b"2nd"), NOW, &mut files).unwrap();
    assert_eq!(status(&res), 200);
    assert_eq!(body(&res), Some(b"2nd".to_vec()));
    assert_eq!(header(&res, "Content-Type"), Some("text/plain".to_string()));
    assert_eq!(files.read(&"public/new.txt".to_string()), Some(b"2nd".to_vec()));
}

#[test]
fn delete_existing_then_missing() {
    let mut files = MemFiles::new();
    files.write("public/old.txt".to_string(), b"x".to_vec());
    files.write("public/keep.txt".to_string(), b"y".to_vec());
    let res = serve(request("DELETE /old.txt HTTP/1.1", &[], b""), NOW, &mut files).unwrap();
    assert_eq!(status(&res), 204);
    assert_eq!(body(&res), None);
    assert!(!files.contains(&"public/old.txt".to_string()));

    let res = serve(request("DELETE /old.txt HTTP/1.1", &[], b""), NOW, &mut files).unwrap();
    assert_eq!(status(&res), 404);
    assert_eq!(files.read(&"public/keep.txt".to_string()), Some(b"y".to_vec()));
}

#[test]
fn options_lists_allowed_methods_on_any_path() {
    let mut files = MemFiles::new();
    for line in ["OPTIONS / HTTP/1.1", "OPTIONS /missing/../x HTTP/1.1"] {
        let res = serve(request(line, &[], b""), NOW, &mut files).unwrap();
        assert_eq!(status(&res), 204);
        assert_eq!(
            header(&res, "Allow"),
            Some("GET, POST, PUT, DELETE, OPTIONS".to_string())
        );
        assert_eq!(body(&res), None);
    }
}

#[test]
fn unrecognized_method_gets_method_not_allowed_without_file_access() {
    let (_, step) = route(request("PATCH /a.txt HTTP/1.1", &[], b""), NOW);
    match step {
        Step::Reply(res) => {
            assert_eq!(status(&res), 405);
            assert_eq!(header(&res, "Content-Type"), Some("text/html".to_string()));
            assert!(body(&res).unwrap().starts_with(b"<!DOCTYPE html>"));
        }
        _ => panic!("a file operation was asked for"),
    }
}

#[test]
fn content_type_follows_extension() {
    let mut files = MemFiles::new();
    files.write("public/index.html".to_string(), b"<p>".to_vec());
    files.write("public/data.json".to_string(), b"{}".to_vec());
    files.write("public/blob.xyz".to_string(), b"?".to_vec());
    let cases = [
        ("GET / HTTP/1.1", "text/html"),
        ("GET /index.html HTTP/1.1", "text/html"),
        ("GET /data.json HTTP/1.1", "application/json"),
        ("GET /blob.xyz HTTP/1.1", "application/octet-stream"),
    ];
    for (line, media) in cases {
        let res = serve(request(line, &[], b""), NOW, &mut files).unwrap();
        assert_eq!(status(&res), 200);
        assert_eq!(header(&res, "Content-Type"), Some(media.to_string()));
    }
}

#[test]
fn content_type_table() {
    let cases = [
        ("a/b.html", "text/html"),
        ("b.pdf", "application/octet-stream"),
        ("c.js", "text/javascript"),
        ("c.mjs", "text/javascript"),
        ("d.css", "text/css"),
        ("e.jpg", "image/jpeg"),
        ("e.jpeg", "image/jpeg"),
        ("f.png", "image/png"),
        ("g.txt", "text/plain"),
        ("h.md", "text/markdown"),
        ("noext", "application/octet-stream"),
        (".hidden", "application/octet-stream"),
    ];
    for (path, media) in cases {
        let (name, value) = get_content_type(path);
        assert_eq!(name, "Content-Type");
        assert_eq!(value, media, "{path}");
    }
    assert_eq!(media_type_for(&"json".to_string()), "application/json");
}

#[test]
fn path_leaving_the_root_is_refused() {
    let mut files = MemFiles::new();
    files.write("secret".to_string(), b"s".to_vec());
    for line in ["GET /../secret HTTP/1.1", "PUT /../secret HTTP/1.1", "DELETE /../secret HTTP/1.1"] {
        let res = serve(request(line, &[], b"new"), NOW, &mut files).unwrap();
        assert_eq!(status(&res), 400);
        assert_eq!(header(&res, "Content-Type"), Some("application/json".to_string()));
    }
    assert_eq!(files.read(&"secret".to_string()), Some(b"s".to_vec()));
}

#[test]
fn post_form_writes_lines_and_redirects() {
    let mut files = MemFiles::new();
    let req = request(
        "POST /form HTTP/1.1",
        &["Content-Type: application/x-www-form-urlencoded"],
        b"name=ann&skip&age=7",
    );
    let res = serve(req, NOW, &mut files).unwrap();
    assert_eq!(status(&res), 303);
    assert_eq!(header(&res, "Location"), Some("public/post-success.txt".to_string()));
    assert_eq!(
        files.read(&"public/post-success.txt".to_string()),
        Some(b"name: ann\nage: 7".to_vec())
    );
}

#[test]
fn post_plain_writes_body_verbatim() {
    let mut files = MemFiles::new();
    let req = request("POST / HTTP/1.1", &["content-type: application/octet-stream"], &[9, 8, 7]);
    let res = serve(req, NOW, &mut files).unwrap();
    assert_eq!(status(&res), 303);
    assert_eq!(files.read(&"public/post-success.txt".to_string()), Some(vec![9, 8, 7]));
}

#[test]
fn post_with_other_content_type_is_given_up() {
    let mut files = MemFiles::new();
    let req = request("POST / HTTP/1.1", &["Content-Type: multipart/form-data"], b"x");
    assert!(serve(req, NOW, &mut files).is_none());
    let req = request("POST / HTTP/1.1", &[], b"x");
    assert!(serve(req, NOW, &mut files).is_none());
    assert!(!files.contains(&"public/post-success.txt".to_string()));
}

#[test]
fn failed_write_answers_server_error_document() {
    let (mut x, step) = route(request("PUT /a.txt HTTP/1.1", &[], b"z"), NOW);
    assert!(matches!(step, Step::Perform(FileOp::Exists(ref p)) if p == "public/a.txt"));
    let step = x.resume(FileReply::Exists(false));
    assert!(matches!(step, Step::Perform(FileOp::Write(ref p, ref b)) if p == "public/a.txt" && b == b"z"));
    let step = x.resume(FileReply::Written(false));
    assert!(matches!(step, Step::Perform(FileOp::Read(ref p)) if p == "public/error/500.html"));
    match x.resume(FileReply::Contents(Some(b"oops".to_vec()))) {
        Step::Reply(res) => {
            assert_eq!(status(&res), 500);
            assert_eq!(body(&res), Some(b"oops".to_vec()));
        }
        _ => panic!("no reply"),
    }
}

#[test]
fn failed_removal_answers_server_error() {
    let (mut x, step) = route(request("DELETE /a.txt HTTP/1.1", &[], b""), NOW);
    assert!(matches!(step, Step::Perform(FileOp::Remove(_))));
    let step = x.resume(FileReply::Removed(Removal::Failed));
    assert!(matches!(step, Step::Perform(FileOp::Read(ref p)) if p == "public/error/500.html"));
    match x.resume(FileReply::Contents(None)) {
        Step::Reply(res) => assert_eq!(res.get_status(), Some(StatusCode::InternalServerError)),
        _ => panic!("no reply"),
    }
}

#[test]
fn unexpected_reply_gives_up() {
    let (mut x, _) = route(request("GET /a.txt HTTP/1.1", &[], b""), NOW);
    assert!(matches!(x.resume(FileReply::Written(true)), Step::Abort));
}

#[test]
fn serialised_reply_of_get() {
    let mut files = MemFiles::new();
    files.write("public/a.txt".to_string(), b"abc".to_vec());
    let res = serve(request("GET /a.txt HTTP/1.1", &[], b""), NOW, &mut files).unwrap();
    let wire = res.stringify();
    let expected = b"HTTP/1.1 200 OK\r\nDate: Sun, 02 Oct 2016 14:44:11 GMT\r\nContent-Type: text/plain\r\nContent-Length: 3\r\n\r\nabc".to_vec();
    assert_eq!(wire, expected);
}

#[test]
fn form_lines_formats_pairs() {
    assert_eq!(form_lines("a=1&b=2"), "a: 1\nb: 2");
    assert_eq!(form_lines(""), "");
    assert_eq!(form_lines("novalue&k=v=w"), "k: v=w");
}

#[test]
fn post_form_body_is_read_as_lossy_text() {
    let mut files = MemFiles::new();
    let req = request(
        "POST / HTTP/1.1",
        &["Content-Type: application/x-www-form-urlencoded"],
        b"k=\xffv",
    );
    let res = serve(req, NOW, &mut files).unwrap();
    assert_eq!(status(&res), 303);
    assert_eq!(
        files.read(&"public/post-success.txt".to_string()),
        Some("k: \u{FFFD}v".as_bytes().to_vec())
    );
}

#[test]
fn dot_dot_inside_the_root_names_the_canonical_file() {
    let mut files = MemFiles::new();
    files.write("public/b.txt".to_string(), b"bee".to_vec());
    let res = serve(request("GET /a/../b.txt HTTP/1.1", &[], b""), NOW, &mut files).unwrap();
    assert_eq!(status(&res), 200);
    assert_eq!(body(&res), Some(b"bee".to_vec()));
    let res = serve(request("PUT /x/./../c.txt HTTP/1.1", &[], b"c"), NOW, &mut files).unwrap();
    assert_eq!(status(&res), 201);
    assert_eq!(files.read(&"public/c.txt".to_string()), Some(b"c".to_vec()));
}

#[test]
fn target_without_leading_slash_is_refused() {
    let mut files = MemFiles::new();
    files.write("public.git/config".to_string(), b"s".to_vec());
    for line in ["GET .git/config HTTP/1.1", "DELETE .git/config HTTP/1.1", "PUT -x HTTP/1.1"] {
        let res = serve(request(line, &[], b"new"), NOW, &mut files).unwrap();
        assert_eq!(status(&res), 400);
    }
    assert!(files.contains(&"public.git/config".to_string()));
    assert!(!files.contains(&"public-x".to_string()));
}

#[test]
fn post_content_type_is_read_without_surrounding_space() {
    let mut files = MemFiles::new();
    let mut req = Request::default();
    req.parse_status_line("POST / HTTP/1.1".to_string()).unwrap();
    req.append_header("Content-Type:   text/plain  ");
    req.set_body(b"raw");
    let res = serve(req, NOW, &mut files).unwrap();
    assert_eq!(status(&res), 303);
    assert_eq!(files.read(&"public/post-success.txt".to_string()), Some(b"raw".to_vec()));
}
