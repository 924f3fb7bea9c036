use web_server::errors::{ConvertibleToResult, ErrorKind, WebServerError};
use web_server::http::{
    build_internal_error_response, build_not_found_response, build_ok_response, file_response,
    get_absolute_path, html_error_code_to_str, parse_request_line, plan_connection, push_decimal,
    tokenize, ConnectionStep, FileFetch, HttpRequest,
};

#[test]
fn tokenize_request_line() {
    let toks = tokenize(&b"GET /hello.txt HTTP/1.1".to_vec());
    assert_eq!(toks.len(), 3);
    assert_eq!(toks[0], b"GET".to_vec());
    assert_eq!(toks[1], b"/hello.txt".to_vec());
    assert_eq!(toks[2], b"HTTP/1.1".to_vec());
}

#[test]
fn tokenize_empty_and_consecutive_spaces() {
    let toks = tokenize(&b"".to_vec());
    assert_eq!(toks, vec![b"".to_vec()]);
    let toks = tokenize(&b"a  b".to_vec());
    assert_eq!(toks, vec![b"a".to_vec(), b"".to_vec(), b"b".to_vec()]);
}

#[test]
fn parse_well_formed_get() {
    let r = parse_request_line(&b"GET /hello.txt HTTP/1.1".to_vec());
    match r {
        Ok(HttpRequest::GET(g)) => assert_eq!(g.path, b"/hello.txt".to_vec()),
        Err(_) => panic!("well-formed GET was rejected"),
    }
}

#[test]
fn parse_rejects_other_methods() {
    let r = parse_request_line(&b"POST /x HTTP/1.1".to_vec());
    assert!(matches!(r, Err(WebServerError(ErrorKind::UnsupportedMethod))));
    let r = parse_request_line(&b"".to_vec());
    assert!(matches!(r, Err(WebServerError(ErrorKind::UnsupportedMethod))));
}

#[test]
fn parse_rejects_missing_tokens() {
    let r = parse_request_line(&b"GET /x".to_vec());
    assert!(matches!(r, Err(WebServerError(ErrorKind::MalformedRequest))));
    let r = parse_request_line(&b"GET".to_vec());
    assert!(matches!(r, Err(WebServerError(ErrorKind::MalformedRequest))));
}

#[test]
fn parse_rejects_other_versions() {
    let r = parse_request_line(&b"GET /x HTTP/1.0".to_vec());
    assert!(matches!(r, Err(WebServerError(ErrorKind::UnsupportedVersion))));
}

#[test]
fn resolve_path_joins_content_dir() {
    let r = get_absolute_path(&b"/hello.txt".to_vec());
    assert_eq!(r.unwrap(), b"content/hello.txt".to_vec());
    let r = get_absolute_path(&b"/a/b".to_vec());
    assert_eq!(r.unwrap(), b"content/a/b".to_vec());
}

#[test]
fn resolve_path_rejects_missing_slash() {
    let r = get_absolute_path(&b"hello.txt".to_vec());
    assert!(matches!(r, Err(WebServerError(ErrorKind::MalformedPath))));
    let r = get_absolute_path(&b"".to_vec());
    assert!(matches!(r, Err(WebServerError(ErrorKind::MalformedPath))));
}

#[test]
fn reason_phrases() {
    assert_eq!(html_error_code_to_str(200).unwrap(), "OK");
    assert_eq!(html_error_code_to_str(404).unwrap(), "NOT FOUND");
    assert_eq!(html_error_code_to_str(500).unwrap(), "INTERNAL SERVER ERROR");
    assert!(matches!(
        html_error_code_to_str(302),
        Err(WebServerError(ErrorKind::UnknownStatusCode))
    ));
}

#[test]
fn decimal_digits() {
    let mut v = Vec::new();
    push_decimal(&mut v, 0);
    assert_eq!(v, b"0".to_vec());
    let mut v = Vec::new();
    push_decimal(&mut v, 12345);
    assert_eq!(v, b"12345".to_vec());
    let mut v = Vec::new();
    push_decimal(&mut v, 10);
    assert_eq!(v, b"10".to_vec());
}

#[test]
fn round_trip_hello() {
    let lines = vec![b"GET /hello.txt HTTP/1.1".to_vec()];
    let step = plan_connection(&lines);
    match step {
        ConnectionStep::Fetch(path) => {
            assert_eq!(path, b"content/hello.txt".to_vec());
            let response = file_response(&FileFetch::Found(b"hi".to_vec()));
            assert_eq!(
                response,
                b"HTTP/1.1 200 OK\r\nContent-Length: 2\r\n\r\nhi".to_vec()
            );
        }
        ConnectionStep::Respond(_) => panic!("well-formed GET should fetch"),
    }
}

#[test]
fn missing_file_is_404() {
    let lines = vec![b"GET /missing.txt HTTP/1.1".to_vec()];
    let step = plan_connection(&lines);
    match step {
        ConnectionStep::Fetch(path) => {
            assert_eq!(path, b"content/missing.txt".to_vec());
            let response = file_response(&FileFetch::Missing);
            assert_eq!(response, b"HTTP/1.1 404 NOT FOUND\r\n\r\n".to_vec());
        }
        ConnectionStep::Respond(_) => panic!("well-formed GET should fetch"),
    }
}

#[test]
fn unsupported_method_is_500() {
    let lines = vec![b"POST /x HTTP/1.1".to_vec()];
    match plan_connection(&lines) {
        ConnectionStep::Respond(b) => {
            assert!(b.starts_with(b"HTTP/1.1 500"));
            assert_eq!(b, b"HTTP/1.1 500 Internal server error\r\n".to_vec());
        }
        ConnectionStep::Fetch(_) => panic!("POST must not reach the filesystem"),
    }
}

#[test]
fn unsupported_version_is_500() {
    let lines = vec![b"GET /x HTTP/1.0".to_vec()];
    match plan_connection(&lines) {
        ConnectionStep::Respond(b) => assert!(b.starts_with(b"HTTP/1.1 500")),
        ConnectionStep::Fetch(_) => panic!("HTTP/1.0 must not reach the filesystem"),
    }
}

#[test]
fn empty_request_is_500() {
    let lines: Vec<Vec<u8>> = Vec::new();
    match plan_connection(&lines) {
        ConnectionStep::Respond(b) => assert!(b.starts_with(b"HTTP/1.1 500")),
        ConnectionStep::Fetch(_) => panic!("an empty request must not reach the filesystem"),
    }
}

#[test]
fn pathless_get_is_500() {
    let lines = vec![b"GET x HTTP/1.1".to_vec()];
    match plan_connection(&lines) {
        ConnectionStep::Respond(b) => assert!(b.starts_with(b"HTTP/1.1 500")),
        ConnectionStep::Fetch(_) => panic!("a pathless GET must not reach the filesystem"),
    }
}

#[test]
fn failed_read_is_500() {
    let response = file_response(&FileFetch::FetchFailed);
    assert_eq!(response, b"HTTP/1.1 500 Internal server error\r\n".to_vec());
}

#[test]
fn response_builders_exact_bytes() {
    assert_eq!(
        build_ok_response(&b"".to_vec()),
        b"HTTP/1.1 200 OK\r\nContent-Length: 0\r\n\r\n".to_vec()
    );
    assert_eq!(
        build_ok_response(&b"0123456789".to_vec()),
        b"HTTP/1.1 200 OK\r\nContent-Length: 10\r\n\r\n0123456789".to_vec()
    );
    assert_eq!(
        build_not_found_response(),
        b"HTTP/1.1 404 NOT FOUND\r\n\r\n".to_vec()
    );
    assert_eq!(
        build_internal_error_response(),
        b"HTTP/1.1 500 Internal server error\r\n".to_vec()
    );
}

#[test]
fn convert_foreign_results() {
    let ok: Result<u32, String> = Ok(5);
    assert_eq!(ok.to_web_server_result(), Ok(5));
    let err: Result<u32, String> = Err("boom".to_string());
    assert_eq!(
        err.to_web_server_result(),
        Err(WebServerError(ErrorKind::IoError))
    );
}
