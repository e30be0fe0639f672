use vstd::prelude::*;

verus! {

/// Request method of an incoming HTTP request.
#[derive(Clone, Copy, Debug, PartialEq, Eq, Structural)]
pub enum Method {
    Get,
    Head,
    Post,
    Put,
    Delete,
    Patch,
    Options,
    Other,
}

/// The handler that answers a request.
#[derive(Clone, Copy, Debug, PartialEq, Eq, Structural)]
pub enum Route {
    /// The landing page, `GET /`.
    Index,
    /// The listing of targets and snapshots, `GET /servers`.
    Servers,
    /// The build's version, `GET /version`.
    Version,
    /// Everything else.
    NotFound,
}

/// Which handler answers `method` on `path`.
pub open spec fn route_of(method: Method, path: Seq<char>) -> Route {
    if method != Method::Get {
        Route::NotFound
    } else if path == "/"@ {
        Route::Index
    } else if path == "/servers"@ {
        Route::Servers
    } else if path == "/version"@ {
        Route::Version
    } else {
        Route::NotFound
    }
}

fn same_text(a: &str, b: &str) -> (r: bool)
    ensures
        r == (a@ == b@),
{
    a.to_owned() == b.to_owned()
}

/// Selects the handler for a request; the same request always routes the same way.
pub fn route(method: Method, path: &str) -> (r: Route)
    ensures
        r == route_of(method, path@),
{
    if method != Method::Get {
        Route::NotFound
    } else if same_text(path, "/") {
        Route::Index
    } else if same_text(path, "/servers") {
        Route::Servers
    } else if same_text(path, "/version") {
        Route::Version
    } else {
        Route::NotFound
    }
}

/// Any path other than `/`, `/servers` and `/version` goes to the not-found
/// handler, whatever the method; so does any method other than GET.
pub proof fn lemma_unmatched_not_found(method: Method, path: Seq<char>)
    requires
        method != Method::Get || (path != "/"@ && path != "/servers"@ && path != "/version"@),
    ensures
        route_of(method, path) == Route::NotFound,
{
}

} // verus!
