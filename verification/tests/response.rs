use multithreaded_web_server::response::render_response;
use multithreaded_web_server::response::render_usize;

#[test]
fn renders_numbers_in_decimal() {
    assert_eq!(render_usize(0), "0");
    assert_eq!(render_usize(7), "7");
    assert_eq!(render_usize(10), "10");
    assert_eq!(render_usize(105), "105");
    assert_eq!(render_usize(99_999), "99999");
    assert_eq!(render_usize(usize::MAX), usize::MAX.to_string());
}

#[test]
fn renders_a_full_response() {
    let response = render_response("HTTP/1.1 200 OK", "hello");
    assert_eq!(response, "HTTP/1.1 200 OK\r\nContent-Length: 5\r\n\r\nhello");
}

#[test]
fn content_length_counts_bytes_of_an_empty_body() {
    let response = render_response("HTTP/1.1 404 Not Found", "");
    assert_eq!(response, "HTTP/1.1 404 Not Found\r\nContent-Length: 0\r\n\r\n");
}
