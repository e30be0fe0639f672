use proxy_dashboard::reply::{index, not_found, version, ContentKind, INDEX_PAGE};
use proxy_dashboard::routing::{route, Method, Route};

#[test]
fn root_routes_to_index() {
    assert_eq!(route(Method::Get, "/"), Route::Index);
}

#[test]
fn servers_path_routes_to_listing() {
    assert_eq!(route(Method::Get, "/servers"), Route::Servers);
}

#[test]
fn version_path_routes_to_version() {
    assert_eq!(route(Method::Get, "/version"), Route::Version);
}

#[test]
fn unknown_path_is_not_found() {
    assert_eq!(route(Method::Get, "/nonexistent"), Route::NotFound);
    let r = not_found();
    assert_eq!(r.status, 404);
    assert_eq!(r.body, "page not found");
    assert_eq!(r.content, ContentKind::Text);
}

#[test]
fn near_miss_paths_are_not_found() {
    for path in ["", "/servers/", "/Servers", "/version/1", "//", "/index.html", "servers"] {
        assert_eq!(route(Method::Get, path), Route::NotFound, "{}", path);
    }
}

#[test]
fn other_methods_are_not_found() {
    let methods = [
        Method::Head,
        Method::Post,
        Method::Put,
        Method::Delete,
        Method::Patch,
        Method::Options,
        Method::Other,
    ];
    for m in methods {
        for path in ["/", "/servers", "/version", "/nonexistent"] {
            assert_eq!(route(m, path), Route::NotFound);
        }
    }
}

#[test]
fn index_serves_fixed_page() {
    let a = index();
    let b = index();
    assert_eq!(a.status, 200);
    assert_eq!(a.content, ContentKind::Html);
    assert_eq!(a.body, INDEX_PAGE);
    assert_eq!(a.body, b.body);
    assert!(a.body.contains("/servers"));
}

#[test]
fn version_reports_build_string() {
    let a = version("0.4.2");
    assert_eq!(a.status, 200);
    assert_eq!(a.content, ContentKind::Text);
    assert_eq!(a.body, "0.4.2");
    for _ in 0..10 {
        assert_eq!(version("0.4.2").body, a.body);
    }
}

#[test]
fn content_type_headers() {
    assert_eq!(ContentKind::Json.header(), "application/json; charset=utf-8");
    assert_eq!(ContentKind::Text.header(), "text/plain; charset=utf-8");
    assert_eq!(ContentKind::Html.header(), "text/html; charset=utf-8");
}
