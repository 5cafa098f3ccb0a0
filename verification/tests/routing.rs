use multithreaded_web_server::routing::route;

#[test]
fn root_path_gets_the_greeting_page() {
    let plan = route("GET / HTTP/1.1");

    assert_eq!(plan.status_line, "HTTP/1.1 200 OK");
    assert_eq!(plan.content_file, "hello.html");
    assert!(!plan.slow);
}

#[test]
fn sleep_path_gets_the_greeting_page_after_a_pause() {
    let plan = route("GET /sleep HTTP/1.1");

    assert_eq!(plan.status_line, "HTTP/1.1 200 OK");
    assert_eq!(plan.content_file, "hello.html");
    assert!(plan.slow);
}

#[test]
fn any_other_request_gets_not_found() {
    let plan = route("GET /missing HTTP/1.1");

    assert_eq!(plan.status_line, "HTTP/1.1 404 Not Found");
    assert_eq!(plan.content_file, "404.html");
    assert!(!plan.slow);

    let empty = route("");
    assert_eq!(empty.status_line, "HTTP/1.1 404 Not Found");
}
