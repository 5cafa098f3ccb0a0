//! Mapping a request line to a canned response plan.
//!
//! The host program reads the request line from the connection and serves
//! the chosen file; the choice itself — which status line, which file, and
//! whether to pause first — is made here.

use vstd::prelude::*;

verus! {

/// What to serve for one request: the status line, the file whose contents
/// become the body, and whether to pause before answering.
pub struct RoutePlan {
    pub status_line: &'static str,
    pub content_file: &'static str,
    pub slow: bool,
}

/// Chooses the response for a request line: the root path is served the
/// greeting page, the sleep path the same page after a pause, and every
/// other request a not-found page.
pub fn route(request_line: &str) -> (r: RoutePlan)
    ensures
        request_line@ == "GET / HTTP/1.1"@ ==> (r.status_line@ == "HTTP/1.1 200 OK"@
            && r.content_file@ == "hello.html"@ && !r.slow),
        request_line@ == "GET /sleep HTTP/1.1"@ ==> (r.status_line@ == "HTTP/1.1 200 OK"@
            && r.content_file@ == "hello.html"@ && r.slow),
        (request_line@ != "GET / HTTP/1.1"@ && request_line@ != "GET /sleep HTTP/1.1"@) ==> (
        r.status_line@ == "HTTP/1.1 404 Not Found"@ && r.content_file@ == "404.html"@ && !r.slow),
{
    proof {
        reveal_strlit("GET / HTTP/1.1");
        reveal_strlit("GET /sleep HTTP/1.1");
        assert("GET / HTTP/1.1"@.len() == 14);
        assert("GET /sleep HTTP/1.1"@.len() == 19);
        assert("GET / HTTP/1.1"@ != "GET /sleep HTTP/1.1"@);
    }
    let req = request_line.to_owned();
    if req == "GET / HTTP/1.1".to_owned() {
        RoutePlan { status_line: "HTTP/1.1 200 OK", content_file: "hello.html", slow: false }
    } else if req == "GET /sleep HTTP/1.1".to_owned() {
        RoutePlan { status_line: "HTTP/1.1 200 OK", content_file: "hello.html", slow: true }
    } else {
        RoutePlan { status_line: "HTTP/1.1 404 Not Found", content_file: "404.html", slow: false }
    }
}

} // verus!
