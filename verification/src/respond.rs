//! The read endpoint's decision logic: which requests are turned away and
//! with what, which one is served the index, and the exact headers and
//! status every answer carries. The transport only executes what is decided
//! here.

use vstd::prelude::*;
use vstd::string::StringExecFns;

verus! {

/// The HTTP method of an incoming request.
#[derive(Clone, Copy, PartialEq, Eq, Structural, Debug)]
pub enum HttpMethod {
    /// GET, the one method the read endpoint serves.
    Get,
    /// HEAD.
    Head,
    /// POST.
    Post,
    /// PUT.
    Put,
    /// DELETE.
    Delete,
    /// OPTIONS.
    Options,
    /// PATCH.
    Patch,
    /// Anything else the transport reports.
    Other,
}

/// A request turned away before any storage read: the status and the
/// plain-text body it is answered with.
pub struct Rejection {
    /// HTTP status code of the refusal.
    pub status: u16,
    /// Plain-text body of the refusal.
    pub body: String,
}

/// Decide one read request. `Ok(())` means: serve the index. Any non-GET
/// method is rejected with 405; a GET for any path but `/imgs` is rejected
/// with 404 and a body naming the unmatched path.
pub fn route(method: HttpMethod, path: &str) -> (r: Result<(), Rejection>)
    ensures
        method != HttpMethod::Get ==> (r matches Err(rej) && rej.status == 405 && rej.body@
            == "Method not allowed"@),
        method == HttpMethod::Get && path@ == "/imgs"@ ==> r is Ok,
        method == HttpMethod::Get && path@ != "/imgs"@ ==> (r matches Err(rej) && rej.status == 404
            && rej.body@ == "Path not found: \""@ + path@ + "\""@),
{
    match method {
        HttpMethod::Get => {
            let p = path.to_owned();
            let q = "/imgs".to_owned();
            if p == q {
                Ok(())
            } else {
                Err(Rejection { status: 404, body: not_found_body(path) })
            }
        },
        _ => Err(Rejection { status: 405, body: "Method not allowed".to_owned() }),
    }
}

/// The 404 body, naming the path that matched nothing.
pub fn not_found_body(path: &str) -> (r: String)
    ensures
        r@ == "Path not found: \""@ + path@ + "\""@,
{
    let mut s = "Path not found: \"".to_owned();
    s.append(path);
    s.append("\"");
    s
}

/// The response headers every read answer carries: permissive cross-origin
/// access for GET, and no intermediary caching (always revalidate), even
/// though the artifact itself is long-lived in storage.
pub fn cors_headers() -> (r: Vec<(&'static str, &'static str)>)
    ensures
        r@.len() == 4,
        r@[0].0@ == "Access-Control-Allow-Methods"@ && r@[0].1@ == "GET"@,
        r@[1].0@ == "Access-Control-Allow-Origin"@ && r@[1].1@ == "*"@,
        r@[2].0@ == "Access-Control-Max-Age"@ && r@[2].1@ == "86400"@,
        r@[3].0@ == "Cache-Control"@ && r@[3].1@ == "no-cache"@,
{
    let mut v: Vec<(&'static str, &'static str)> = Vec::new();
    v.push(("Access-Control-Allow-Methods", "GET"));
    v.push(("Access-Control-Allow-Origin", "*"));
    v.push(("Access-Control-Max-Age", "86400"));
    v.push(("Cache-Control", "no-cache"));
    v
}

/// The served index answer: its status, content type if any, and body.
pub struct IndexAnswer {
    /// HTTP status code.
    pub status: u16,
    /// `Content-Type` header value, present only when a body is served.
    pub content_type: Option<&'static str>,
    /// The body: the artifact's bytes, verbatim.
    pub body: Vec<u8>,
}

/// Decide the answer for a request the routing admitted, from the stored
/// artifact as the storage read found it: the artifact's bytes verbatim as
/// JSON with 200, or an empty 204 when no artifact exists yet. An empty
/// store is never an error.
pub fn index_answer(artifact: Option<Vec<u8>>) -> (r: IndexAnswer)
    ensures
        artifact matches Some(bytes) ==> {
            &&& r.status == 200
            &&& r.body == bytes
            &&& r.content_type matches Some(ct) && ct@ == "application/json"@
        },
        artifact is None ==> {
            &&& r.status == 204
            &&& r.body@ == Seq::<u8>::empty()
            &&& r.content_type is None
        },
{
    match artifact {
        Some(bytes) => IndexAnswer {
            status: 200,
            content_type: Some("application/json"),
            body: bytes,
        },
        None => IndexAnswer { status: 204, content_type: None, body: Vec::new() },
    }
}

} // verus!
