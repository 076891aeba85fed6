use vstd::prelude::*;

verus! {

/// What the diagnostic HTTP surface answers for one route. The surface is
/// a fixed small set of routes kept for operational visibility; anything
/// else falls through to the server's own not-found answer.
#[derive(Debug)]
pub enum DiagResponse {
    /// A 200 answer with a fixed greeting body.
    Greeting { body: String },
    /// A handler error, surfaced by the server as a 500-class answer;
    /// kept to validate error propagation.
    Failure { message: String },
    /// A 403 answer with a fixed denial body.
    Denied { status: u16, status_message: String, body: String },
    /// A deliberate crash of the handling context; kept to validate crash
    /// isolation of the diagnostic service, never a production route.
    Crash,
    /// No route registered under this path.
    NotFound,
}

/// Compares a request path against a route.
fn path_is(path: &str, route: &str) -> (r: bool)
    ensures
        r == (path@ == route@),
{
    let p = path.to_owned();
    let q = route.to_owned();
    p == q
}

/// The fixed diagnostic route table, one decision per request path.
pub fn dispatch(path: &str) -> (r: DiagResponse)
    ensures
        path@ == "/"@ ==> (r matches DiagResponse::Greeting { body } && body@
            == "Hello from Rust!"@),
        path@ == "/foo"@ ==> (r matches DiagResponse::Failure { message } && message@
            == "Boo, something happened!"@),
        path@ == "/bar"@ ==> (r matches DiagResponse::Denied { status, status_message, body }
            && status == 403 && status_message@ == "No permissions"@ && body@
            == "You have no permissions to access this page"@),
        path@ == "/panic"@ ==> r is Crash,
        (path@ != "/"@ && path@ != "/foo"@ && path@ != "/bar"@ && path@ != "/panic"@) ==> r
            is NotFound,
{
    proof {
        reveal_strlit("/");
        reveal_strlit("/foo");
        reveal_strlit("/bar");
        reveal_strlit("/panic");
        assert("/"@.len() == 1 && "/foo"@.len() == 4 && "/bar"@.len() == 4 && "/panic"@.len()
            == 6);
        assert(("/foo"@)[1] == 'f' && ("/bar"@)[1] == 'b');
        assert("/foo"@ != "/bar"@);
    }
    if path_is(path, "/") {
        DiagResponse::Greeting { body: "Hello from Rust!".to_owned() }
    } else if path_is(path, "/foo") {
        DiagResponse::Failure { message: "Boo, something happened!".to_owned() }
    } else if path_is(path, "/bar") {
        DiagResponse::Denied {
            status: 403,
            status_message: "No permissions".to_owned(),
            body: "You have no permissions to access this page".to_owned(),
        }
    } else if path_is(path, "/panic") {
        DiagResponse::Crash
    } else {
        DiagResponse::NotFound
    }
}

} // verus!
