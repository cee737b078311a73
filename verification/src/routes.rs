//! The route dispatcher: every request is answered by exactly one of
//! two fixed responses. A request whose path is exactly `/` receives
//! the greeting with status 200, whatever its method; every other
//! request receives the not-found response with status 404.

use vstd::prelude::*;
use vstd::string::*;

verus! {

/// A response: a status code and a fixed plain-text body.
pub struct Response {
    pub status: u16,
    pub body: &'static str,
}

/// Whether a request path selects the greeting route: the path is
/// exactly the single character `/`.
pub open spec fn is_root(path: Seq<char>) -> bool {
    path.len() == 1 && path[0] == '/'
}

/// The status owed to a request. The method is taken but never
/// consulted: routing goes by the path alone.
pub open spec fn status_spec(method: Seq<char>, path: Seq<char>) -> u16 {
    if is_root(path) {
        200u16
    } else {
        404u16
    }
}

/// The body owed to a request, as a sequence of characters.
pub open spec fn body_spec(method: Seq<char>, path: Seq<char>) -> Seq<char> {
    if is_root(path) {
        "Hello Axum!!"@
    } else {
        "404 Not Found"@
    }
}

/// Select the response for a request. Total: every method and path
/// pair gets exactly one of the two fixed responses, and there is no
/// error case.
pub fn dispatch(method: &str, path: &str) -> (r: Response)
    ensures
        r.status == status_spec(method@, path@),
        r.body@ == body_spec(method@, path@),
{
    let len = path.unicode_len();
    if len == 1 && path.get_char(0) == '/' {
        Response { status: 200, body: "Hello Axum!!" }
    } else {
        Response { status: 404, body: "404 Not Found" }
    }
}

/// The method never influences the response: for one path, any two
/// methods are owed the same status and the same body.
pub proof fn lemma_method_irrelevant(m1: Seq<char>, m2: Seq<char>, path: Seq<char>)
    ensures
        status_spec(m1, path) == status_spec(m2, path),
        body_spec(m1, path) == body_spec(m2, path),
{
}

/// Every request to the root path is owed status 200 and the greeting
/// body, regardless of method.
pub proof fn lemma_root_response(method: Seq<char>, path: Seq<char>)
    requires
        is_root(path),
    ensures
        status_spec(method, path) == 200,
        body_spec(method, path) == "Hello Axum!!"@,
{
}

/// Every request to any other path is owed status 404 and the
/// not-found body, regardless of method.
pub proof fn lemma_not_found_response(method: Seq<char>, path: Seq<char>)
    requires
        !is_root(path),
    ensures
        status_spec(method, path) == 404,
        body_spec(method, path) == "404 Not Found"@,
{
}

/// A request is answered by the greeting exactly when its path is the
/// root path: the two routes cover every request and never overlap.
pub proof fn lemma_routes_partition(method: Seq<char>, path: Seq<char>)
    ensures
        status_spec(method, path) == 200 <==> is_root(path),
        status_spec(method, path) == 404 <==> !is_root(path),
{
}

} // verus!
