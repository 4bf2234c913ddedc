use web_server::http::HttpMethod;
use web_server::paths::canonical_path;
use web_server::request::{header_line_of, Request, RequestLineError};

fn parsed(line: &str) -> Request {
    let mut req = Request::default();
    req.parse_status_line(line.to_string()).unwrap();
    req
}

fn query(req: &Request, key: &str) -> Option<String> {
    req.get_queries().get(&key.to_string()).cloned()
}

#[test]
fn target_with_query_splits_into_path_and_pairs() {
    let req = parsed("GET /search?q=rust&x=1 HTTP/1.1");
    assert_eq!(req.get_resource(), "public/search");
    assert_eq!(req.get_queries().len(), 2);
    assert_eq!(query(&req, "q"), Some("rust".to_string()));
    assert_eq!(query(&req, "x"), Some("1".to_string()));
}

#[test]
fn query_pair_without_equals_is_dropped() {
    let req = parsed("GET /search?bad HTTP/1.1");
    assert_eq!(req.get_resource(), "public/search");
    assert_eq!(req.get_queries().len(), 0);
}

#[test]
fn repeated_query_key_keeps_last_value_and_value_keeps_later_equals() {
    let req = parsed("GET /a?k=1&k=2&e=x=y HTTP/1.1");
    assert_eq!(req.get_queries().len(), 2);
    assert_eq!(query(&req, "k"), Some("2".to_string()));
    assert_eq!(query(&req, "e"), Some("x=y".to_string()));
}

#[test]
fn root_maps_to_default_document() {
    let req = parsed("GET / HTTP/1.1");
    assert_eq!(req.get_resource(), "public/index.html");
}

#[test]
fn method_token_is_case_insensitive() {
    assert_eq!(*parsed("get /a HTTP/1.1").get_method(), HttpMethod::Get);
    assert_eq!(*parsed("Post /a HTTP/1.1").get_method(), HttpMethod::Post);
    assert_eq!(*parsed("PUT /a HTTP/1.1").get_method(), HttpMethod::Put);
    assert_eq!(*parsed("delete /a HTTP/1.1").get_method(), HttpMethod::Delete);
    assert_eq!(*parsed("OPTIONS /a HTTP/1.1").get_method(), HttpMethod::Options);
}

#[test]
fn unknown_method_is_unrecognized_not_an_error() {
    let req = parsed("PATCH /a HTTP/1.1");
    assert_eq!(*req.get_method(), HttpMethod::Unrecognized);
}

#[test]
fn request_line_with_missing_tokens_is_refused() {
    let mut req = Request::default();
    assert_eq!(
        req.parse_status_line("GET /only".to_string()),
        Err(RequestLineError::MissingTokens)
    );
    assert_eq!(req.parse_status_line(String::new()), Err(RequestLineError::MissingTokens));
    assert_eq!(*req.get_method(), HttpMethod::Unrecognized);
    assert_eq!(req.get_resource(), "");
}

#[test]
fn request_line_tolerates_extra_white_space() {
    let req = parsed("  GET\t/x.txt   HTTP/1.1\r\n");
    assert_eq!(*req.get_method(), HttpMethod::Get);
    assert_eq!(req.get_resource(), "public/x.txt");
}

#[test]
fn header_names_are_case_folded_and_last_write_wins() {
    let mut req = Request::default();
    req.append_header("Content-Type: text/plain");
    req.append_header("X-Thing:  one ");
    req.append_header("Host: a");
    req.append_header("HOST: b");
    req.append_header("x-thing:two");
    req.append_header("no colon here");
    let headers = req.get_headers();
    assert_eq!(headers.len(), 3);
    assert_eq!(headers.get(&"content-type".to_string()), Some(&" text/plain".to_string()));
    assert_eq!(headers.get(&"x-thing".to_string()), Some(&"two".to_string()));
    assert_eq!(headers.get(&"host".to_string()), Some(&" b".to_string()));
}

#[test]
fn header_value_keeps_text_after_first_colon() {
    let mut req = Request::default();
    req.append_header("Host: example.org:8080 ");
    assert_eq!(
        req.get_headers().get(&"host".to_string()),
        Some(&" example.org:8080 ".to_string())
    );
}

#[test]
fn header_lines_end_at_a_blank_line() {
    assert_eq!(header_line_of("Host: a\r\n"), Some("Host: a".to_string()));
    assert_eq!(header_line_of("  Host: a \n"), Some("  Host: a".to_string()));
    assert_eq!(header_line_of("\r\n"), None);
    assert_eq!(header_line_of(""), None);
    assert_eq!(header_line_of(" \t"), None);
}

#[test]
fn body_length_reads_content_length() {
    let mut req = Request::default();
    assert_eq!(req.body_length(), None);
    req.append_header("Content-Length: 12");
    assert_eq!(req.body_length(), Some(12));
    req.append_header("content-length: abc");
    assert_eq!(req.body_length(), None);
    req.append_header("content-length: 99999999999999999999999");
    assert_eq!(req.body_length(), None);
    req.append_header("content-length: 0");
    assert_eq!(req.body_length(), Some(0));
}

#[test]
fn body_is_stored_as_given() {
    let mut req = Request::default();
    req.set_body(&[0, 159, 255]);
    assert_eq!(req.get_body(), &[0u8, 159, 255][..]);
}

#[test]
fn confinement_follows_the_canonical_path() {
    assert!(parsed("GET /a/b.txt HTTP/1.1").is_confined());
    assert!(parsed("GET /a/..b HTTP/1.1").is_confined());
    assert!(parsed("GET /a/../b.txt HTTP/1.1").is_confined());
    assert!(parsed("GET /./a//b HTTP/1.1").is_confined());
    assert!(parsed("GET / HTTP/1.1").is_confined());
    assert!(!parsed("GET /../secret HTTP/1.1").is_confined());
    assert!(!parsed("GET /a/../../b HTTP/1.1").is_confined());
    assert!(!parsed("GET /.. HTTP/1.1").is_confined());
    assert!(!parsed("GET .git/config HTTP/1.1").is_confined());
    assert!(!parsed("GET -x HTTP/1.1").is_confined());
}

#[test]
fn canonical_paths() {
    assert_eq!(canonical_path("public/a/../b.txt"), Some("public/b.txt".to_string()));
    assert_eq!(canonical_path("public/./x//y/"), Some("public/x/y".to_string()));
    assert_eq!(canonical_path("public/index.html"), Some("public/index.html".to_string()));
    assert_eq!(canonical_path("public/"), Some("public/".to_string()));
    assert_eq!(canonical_path("public/a/../.."), None);
    assert_eq!(canonical_path("public.git/config"), None);
    assert_eq!(canonical_path("publi"), None);
}
