use smt_web_server::http::{error_response, route, str_eq, success_response, trim, usize_to_string};
use smt_web_server::ServerError;

#[test]
fn root_request_yields_success_route() {
    let (status, filename) = route("GET / HTTP/1.1");
    assert_eq!(status, "HTTP/1.1 200 OK");
    assert_eq!(filename, "hello.html");
}

#[test]
fn other_request_yields_not_found_route() {
    let (status, filename) = route("GET /missing HTTP/1.1");
    assert_eq!(status, "HTTP/1.1 404 NOT FOUND");
    assert_eq!(filename, "404.html");

    let (status, filename) = route("");
    assert_eq!(status, "HTTP/1.1 404 NOT FOUND");
    assert_eq!(filename, "404.html");

    let (status, filename) = route("POST / HTTP/1.1");
    assert_eq!(status, "HTTP/1.1 404 NOT FOUND");
    assert_eq!(filename, "404.html");
}

#[test]
fn success_response_has_status_length_and_trimmed_body() {
    let response = success_response("HTTP/1.1 200 OK", "hello\n");
    assert_eq!(response, "HTTP/1.1 200 OK\r\nContent-Length: 5\r\n\r\nhello");
}

#[test]
fn not_found_page_is_served_with_its_length() {
    let page = "  <html>gone</html>\n";
    let response = success_response("HTTP/1.1 404 NOT FOUND", page);
    assert_eq!(
        response,
        "HTTP/1.1 404 NOT FOUND\r\nContent-Length: 17\r\n\r\n<html>gone</html>"
    );
}

#[test]
fn length_header_counts_bytes_not_characters() {
    let response = success_response("HTTP/1.1 200 OK", "héllo\n");
    assert_eq!(response, "HTTP/1.1 200 OK\r\nContent-Length: 6\r\n\r\nhéllo");
}

#[test]
fn missing_file_yields_bare_error_status() {
    assert_eq!(error_response(), "HTTP/1.1 500 OK");
}

#[test]
fn trim_removes_surrounding_whitespace() {
    assert_eq!(trim("  spaced out \n"), "spaced out");
    assert_eq!(trim(""), "");
    assert_eq!(trim(" \t\r\n "), "");
    assert_eq!(trim("untouched"), "untouched");
    assert_eq!(trim("\u{3000}wide\u{00A0}"), "wide");
}

#[test]
fn decimal_rendering_is_exact() {
    assert_eq!(usize_to_string(0), "0");
    assert_eq!(usize_to_string(7), "7");
    assert_eq!(usize_to_string(105), "105");
    assert_eq!(usize_to_string(18446744073709551615), "18446744073709551615");
}

#[test]
fn string_comparison_matches_equality() {
    assert!(str_eq("GET / HTTP/1.1", "GET / HTTP/1.1"));
    assert!(!str_eq("GET / HTTP/1.1", "GET / HTTP/1.0"));
    assert!(!str_eq("short", "longer"));
    assert!(str_eq("", ""));
}

#[test]
fn error_messages_carry_their_text() {
    let internal = ServerError::InternalError(String::from("Failed to write to stream"));
    assert_eq!(internal.message(), "Failed to write to stream");
    let other = ServerError::OtherError(String::from("something else"));
    assert_eq!(other.message(), "something else");
}
