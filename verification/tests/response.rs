use webservice::route::create_pattern;
use webservice::text::decimal_string;
use webservice::{HTTPMethod, HTTPResponse};

#[test]
fn test_create_pattern() {
    assert_eq!(
        String::from("GET / HTTP/1.1\r\n"),
        create_pattern(HTTPMethod::Get, ""),
    );
    assert_eq!(
        String::from("GET / HTTP/1.1\r\n"),
        create_pattern(HTTPMethod::Get, "/"),
    );
    assert_eq!(
        String::from("POST / HTTP/1.1\r\n"),
        create_pattern(HTTPMethod::Post, "/"),
    );
    assert_eq!(
        String::from("POST /foo/bar HTTP/1.1\r\n"),
        create_pattern(HTTPMethod::Post, "/foo/bar"),
    );
    // simple, not even path validation
    assert_eq!(
        String::from("POST 123_invalid@path-yeah HTTP/1.1\r\n"),
        create_pattern(HTTPMethod::Post, "123_invalid@path-yeah"),
    );
}

#[test]
fn test_http_response_to_string_no_content() {
    assert_eq!(
        String::from("HTTP/1.1 403\r\n\r\n"),
        format!("{}", HTTPResponse::new(403).to_string()),
    );
}

#[test]
fn test_http_response_to_string_with_content() {
    assert_eq!(
        String::from("HTTP/1.1 200\r\nContent-Length: 13\r\n\r\nHello, World!"),
        format!("{}", HTTPResponse::new(200).with_content("Hello, World!").to_string()),
    );
}

#[test]
fn test_http_response_ok_without_content() {
    assert_eq!(HTTPResponse::new(200).to_string(), "HTTP/1.1 200\r\n\r\n");
}

#[test]
fn test_empty_path_is_root_for_every_method() {
    assert_eq!(create_pattern(HTTPMethod::Get, ""), create_pattern(HTTPMethod::Get, "/"));
    assert_eq!(create_pattern(HTTPMethod::Post, ""), create_pattern(HTTPMethod::Post, "/"));
    assert_eq!(create_pattern(HTTPMethod::Post, ""), "POST / HTTP/1.1\r\n");
}

#[test]
fn test_method_names() {
    assert_eq!(HTTPMethod::Get.name(), "GET");
    assert_eq!(HTTPMethod::Post.name(), "POST");
}

#[test]
fn test_decimal_string() {
    assert_eq!(decimal_string(0), "0");
    assert_eq!(decimal_string(7), "7");
    assert_eq!(decimal_string(10), "10");
    assert_eq!(decimal_string(404), "404");
    assert_eq!(decimal_string(1234567890), "1234567890");
    assert_eq!(decimal_string(u64::MAX), "18446744073709551615");
}

#[test]
fn test_status_is_not_validated() {
    assert_eq!(HTTPResponse::new(0).to_string(), "HTTP/1.1 0\r\n\r\n");
    assert_eq!(HTTPResponse::new(u32::MAX).to_string(), "HTTP/1.1 4294967295\r\n\r\n");
}

#[test]
fn test_content_length_counts_bytes() {
    let response = HTTPResponse::new(200).with_content("héllo ✓");
    assert_eq!(
        response.to_string(),
        "HTTP/1.1 200\r\nContent-Length: 10\r\n\r\nhéllo ✓",
    );
    assert_eq!(
        response.to_bytes(),
        "HTTP/1.1 200\r\nContent-Length: 10\r\n\r\nhéllo ✓".as_bytes().to_vec(),
    );
}

#[test]
fn test_empty_content_is_content() {
    assert_eq!(
        HTTPResponse::new(204).with_content("").to_string(),
        "HTTP/1.1 204\r\nContent-Length: 0\r\n\r\n",
    );
}

#[test]
fn test_with_content_replaces_content() {
    let response = HTTPResponse::new(200).with_content("first").with_content("second!");
    assert_eq!(response.status(), 200);
    assert_eq!(response.content(), Some("second!"));
    assert_eq!(response.to_string(), "HTTP/1.1 200\r\nContent-Length: 7\r\n\r\nsecond!");
}

#[test]
fn test_getters() {
    let response = HTTPResponse::new(403);
    assert_eq!(response.status(), 403);
    assert_eq!(response.content(), None);
}
