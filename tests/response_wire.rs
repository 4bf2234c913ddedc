use web_server::response::{Response, StatusCode};

#[test]
fn serialises_status_headers_and_body() {
    let mut res = Response::default();
    res.set_status(200);
    res.add_header(("Content-Type".to_string(), "text/plain".to_string()));
    res.add_header(("Content-Length".to_string(), "2".to_string()));
    res.set_body(Some(b"hi".to_vec()));
    assert_eq!(
        res.stringify(),
        b"HTTP/1.1 200 OK\r\nContent-Type: text/plain\r\nContent-Length: 2\r\n\r\nhi".to_vec()
    );
}

#[test]
fn serialises_without_body() {
    let mut res = Response::default();
    res.set_status(204);
    res.add_header(("Allow".to_string(), "GET".to_string()));
    assert_eq!(res.stringify(), b"HTTP/1.1 204 No Content\r\nAllow: GET\r\n\r\n".to_vec());
}

#[test]
fn repeated_header_replaces_in_place() {
    let mut res = Response::default();
    res.set_status(404);
    res.add_header(("A".to_string(), "1".to_string()));
    res.add_header(("B".to_string(), "2".to_string()));
    res.add_header(("A".to_string(), "3".to_string()));
    res.set_protocol("HTTP/1.0".to_string());
    assert_eq!(res.stringify(), b"HTTP/1.0 404 Not Found\r\nA: 3\r\nB: 2\r\n\r\n".to_vec());
}

#[test]
fn every_code_of_the_set_has_its_reason() {
    let expected = [
        (200, "OK"),
        (201, "Created"),
        (202, "Accepted"),
        (204, "No Content"),
        (303, "See Other"),
        (400, "Bad Request"),
        (403, "Forbidden"),
        (404, "Not Found"),
        (405, "Method Not Allowed"),
        (500, "Internal Server Error"),
    ];
    for (code, reason) in expected {
        let status = StatusCode::from_code(code).unwrap();
        assert_eq!(status.code(), code);
        assert_eq!(status.reason(), reason);
    }
}

#[test]
fn unknown_code_leaves_no_status() {
    let mut res = Response::default();
    res.set_status(200);
    assert_eq!(res.get_status(), Some(StatusCode::Okay));
    res.set_status(418);
    assert_eq!(res.get_status(), None);
    assert_eq!(StatusCode::from_code(302), None);
}

#[test]
fn body_bytes_need_not_be_text() {
    let mut res = Response::default();
    res.set_status(200);
    res.set_body(Some(vec![0xff, 0x00]));
    assert_eq!(res.get_body(), Some(&vec![0xff, 0x00]));
    assert_eq!(res.stringify(), b"HTTP/1.1 200 OK\r\n\r\n\r\n\xff\x00".to_vec());
}
