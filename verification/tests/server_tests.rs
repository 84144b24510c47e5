use staticserve::path::join_segments;
use staticserve::path::sanitize_path;
use staticserve::resolve::index_html_name;
use staticserve::resolve::resolve;
use staticserve::resolve::Probe;
use staticserve::resolve::Resolution;
use staticserve::response::content_type_for;
use staticserve::response::error_response;
use staticserve::response::extension;
use staticserve::response::not_found_response;
use staticserve::response::root_response;
use staticserve::response::static_response;
use staticserve::router::route;
use staticserve::router::Method;
use staticserve::router::RouteDecision;

fn segs(parts: &[&str]) -> Vec<Vec<u8>> {
    parts.iter().map(|p| p.as_bytes().to_vec()).collect()
}

#[test]
fn sanitize_splits_segments() {
    let r = sanitize_path(b"/docs/guide.html").unwrap();
    assert_eq!(r, segs(&["docs", "guide.html"]));
}

#[test]
fn sanitize_drops_empty_segments() {
    let r = sanitize_path(b"//a///b/").unwrap();
    assert_eq!(r, segs(&["a", "b"]));
}

#[test]
fn sanitize_of_root_is_empty() {
    assert_eq!(sanitize_path(b"/").unwrap(), segs(&[]));
    assert_eq!(sanitize_path(b"").unwrap(), segs(&[]));
}

#[test]
fn sanitize_rejects_dotdot() {
    assert_eq!(sanitize_path(b"/../../etc/passwd"), None);
    assert_eq!(sanitize_path(b"/a/../b"), None);
    assert_eq!(sanitize_path(b"/a/b/.."), None);
}

#[test]
fn sanitize_rejects_dot() {
    assert_eq!(sanitize_path(b"/./x"), None);
    assert_eq!(sanitize_path(b"/a/./b"), None);
}

#[test]
fn sanitize_accepts_hidden_files() {
    let r = sanitize_path(b"/.hidden").unwrap();
    assert_eq!(r, segs(&[".hidden"]));
    let r = sanitize_path(b"/a..b/c...").unwrap();
    assert_eq!(r, segs(&["a..b", "c..."]));
}

#[test]
fn route_root_goes_to_index() {
    assert_eq!(route(Method::Get, b"/"), RouteDecision::RootIndex);
    assert_eq!(route(Method::Get, b"//"), RouteDecision::RootIndex);
}

#[test]
fn route_other_paths_go_to_static() {
    let r = route(Method::Get, b"/assets/app.js");
    assert_eq!(r, RouteDecision::Static(segs(&["assets", "app.js"])));
}

#[test]
fn route_head_is_served() {
    let r = route(Method::Head, b"/assets/app.js");
    assert_eq!(r, RouteDecision::Static(segs(&["assets", "app.js"])));
}

#[test]
fn route_rejects_other_methods() {
    assert_eq!(route(Method::Other, b"/"), RouteDecision::Rejected);
    assert_eq!(route(Method::Other, b"/index.html"), RouteDecision::Rejected);
}

#[test]
fn route_rejects_traversal() {
    assert_eq!(route(Method::Get, b"/../../etc/passwd"), RouteDecision::Rejected);
    assert_eq!(route(Method::Get, b"/static/../secret"), RouteDecision::Rejected);
}

#[test]
fn traversal_is_never_answered_200() {
    let r = route(Method::Get, b"/../../etc/passwd");
    assert_eq!(r, RouteDecision::Rejected);
    let resp = not_found_response();
    assert_eq!(resp.status, 404);
    assert!(resp.body.is_empty());
}

#[test]
fn resolve_serves_found_file() {
    let r = resolve(segs(&["docs", "guide.html"]), Probe::FileFound, Probe::Missing);
    assert_eq!(r, Resolution::Serve(segs(&["docs", "guide.html"])));
}

#[test]
fn resolve_missing_is_not_found() {
    let r = resolve(segs(&["nope.png"]), Probe::Missing, Probe::Missing);
    assert_eq!(r, Resolution::NotFound);
}

#[test]
fn resolve_directory_falls_back_to_index() {
    let r = resolve(segs(&["docs"]), Probe::DirFound, Probe::FileFound);
    assert_eq!(r, Resolution::Serve(segs(&["docs", "index.html"])));
}

#[test]
fn resolve_directory_without_index_is_not_found() {
    assert_eq!(resolve(segs(&["docs"]), Probe::DirFound, Probe::Missing), Resolution::NotFound);
    assert_eq!(resolve(segs(&["docs"]), Probe::DirFound, Probe::DirFound), Resolution::NotFound);
}

#[test]
fn resolve_io_error_is_server_error() {
    assert_eq!(resolve(segs(&["x"]), Probe::IoError, Probe::Missing), Resolution::ServerError);
    assert_eq!(resolve(segs(&["x"]), Probe::DirFound, Probe::IoError), Resolution::ServerError);
}

#[test]
fn root_response_serves_index_bytes() {
    let body = b"<html>hello</html>".to_vec();
    let r = root_response(Some(body.clone()));
    assert_eq!(r.status, 200);
    assert_eq!(r.content_type, Some("text/html; charset=utf-8"));
    assert_eq!(r.body, body);
}

#[test]
fn root_read_failure_is_500() {
    let r = root_response(None);
    assert_eq!(r.status, 500);
    assert_eq!(r.content_type, None);
    assert!(r.body.is_empty());
}

#[test]
fn served_file_is_byte_identical() {
    let body = vec![0u8, 159, 146, 150, 255];
    let res = resolve(segs(&["img", "logo.png"]), Probe::FileFound, Probe::Missing);
    let r = static_response(res, Some(body.clone()));
    assert_eq!(r.status, 200);
    assert_eq!(r.content_type, Some("image/png"));
    assert_eq!(r.body, body);
}

#[test]
fn directory_index_is_served_as_html() {
    let body = b"<html>docs</html>".to_vec();
    let res = resolve(segs(&["docs"]), Probe::DirFound, Probe::FileFound);
    let r = static_response(res, Some(body.clone()));
    assert_eq!(r.status, 200);
    assert_eq!(r.content_type, Some("text/html"));
    assert_eq!(r.body, body);
}

#[test]
fn unmatched_path_is_404() {
    let res = resolve(segs(&["missing.css"]), Probe::Missing, Probe::Missing);
    let r = static_response(res, None);
    assert_eq!(r.status, 404);
    assert_eq!(r.content_type, None);
    assert!(r.body.is_empty());
}

#[test]
fn probe_failure_is_500_not_404() {
    let res = resolve(segs(&["secret.txt"]), Probe::IoError, Probe::Missing);
    let r = static_response(res, None);
    assert_eq!(r.status, 500);
    assert!(r.body.is_empty());
}

#[test]
fn vanished_file_read_is_500() {
    let res = resolve(segs(&["a.txt"]), Probe::FileFound, Probe::Missing);
    let r = static_response(res, None);
    assert_eq!(r.status, 500);
}

#[test]
fn error_responses_have_empty_bodies() {
    let e = error_response();
    assert_eq!(e.status, 500);
    assert_eq!(e.content_type, None);
    assert!(e.body.is_empty());
    let n = not_found_response();
    assert_eq!(n.status, 404);
    assert_eq!(n.content_type, None);
    assert!(n.body.is_empty());
}

#[test]
fn extension_takes_bytes_after_last_dot() {
    assert_eq!(extension(b"guide.html"), b"html".to_vec());
    assert_eq!(extension(b"archive.tar.gz"), b"gz".to_vec());
    assert_eq!(extension(b".env"), b"env".to_vec());
    assert_eq!(extension(b"Makefile"), Vec::<u8>::new());
    assert_eq!(extension(b"trailing."), Vec::<u8>::new());
}

#[test]
fn content_types_match_extensions() {
    assert_eq!(content_type_for(b"html"), "text/html");
    assert_eq!(content_type_for(b"css"), "text/css");
    assert_eq!(content_type_for(b"js"), "text/javascript");
    assert_eq!(content_type_for(b"json"), "application/json");
    assert_eq!(content_type_for(b"png"), "image/png");
    assert_eq!(content_type_for(b"jpg"), "image/jpeg");
    assert_eq!(content_type_for(b"jpeg"), "image/jpeg");
    assert_eq!(content_type_for(b"gif"), "image/gif");
    assert_eq!(content_type_for(b"svg"), "image/svg+xml");
    assert_eq!(content_type_for(b"ico"), "image/x-icon");
    assert_eq!(content_type_for(b"txt"), "text/plain");
    assert_eq!(content_type_for(b"wasm"), "application/wasm");
    assert_eq!(content_type_for(b"gz"), "application/octet-stream");
    assert_eq!(content_type_for(b""), "application/octet-stream");
    assert_eq!(content_type_for(b"HTML"), "application/octet-stream");
}

#[test]
fn join_puts_slashes_between_segments() {
    assert_eq!(join_segments(&segs(&["a", "b", "c"])), b"a/b/c".to_vec());
    assert_eq!(join_segments(&segs(&["index.html"])), b"index.html".to_vec());
    assert_eq!(join_segments(&segs(&[])), Vec::<u8>::new());
}

#[test]
fn join_then_sanitize_round_trips() {
    let s = segs(&["docs", "sub.dir", "guide.html"]);
    let joined = join_segments(&s);
    assert_eq!(joined, b"docs/sub.dir/guide.html".to_vec());
    assert_eq!(sanitize_path(&joined).unwrap(), s);
}

#[test]
fn index_html_name_spells_index_html() {
    assert_eq!(index_html_name(), b"index.html".to_vec());
}
