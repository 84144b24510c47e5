//! Request routing, and the laws the server obeys.
//!
//! A request is routed in three steps, of which only the decisions live here:
//! the caller performs the filesystem work between them.
//!
//! 1. [`route`] maps the method and raw path to a plan: the bare root goes to
//!    the index document, any other `GET`/`HEAD` path to static resolution of
//!    its sanitized segments, and everything else — other methods as well as
//!    traversal attempts — is rejected with `404` (the documented choice for
//!    unmatched methods).
//! 2. [`crate::resolve::resolve`] turns the probe outcomes into a resolution.
//! 3. [`crate::response::root_response`] or
//!    [`crate::response::static_response`] builds the HTTP response.
//!
//! [`handle_spec`] composes the three decisions into one model of the whole
//! server, and the proof functions below state its guarantees.

use vstd::prelude::*;

verus! {

use crate::path::clean_segments;
use crate::path::dot_seg;
use crate::path::dotdot_seg;
use crate::path::has_traversal;
use crate::path::join_spec;
use crate::path::lemma_clean_segments_wf;
use crate::path::lemma_join_clean_round_trip;
use crate::path::safe_segment;
use crate::path::sanitize_path;
use crate::path::views_of;
use crate::resolve::Probe;
use crate::resolve::ResolutionModel;
use crate::resolve::index_html;
use crate::resolve::resolve_spec;
use crate::response::ResponseModel;
use crate::response::error_model;
use crate::response::lemma_index_html_extension;
use crate::response::not_found_model;
use crate::response::ok_model;
use crate::response::root_response_spec;
use crate::response::static_response_spec;

/// The request method, as far as routing distinguishes it.
#[derive(Clone, Copy, Debug, PartialEq, Eq, Structural)]
pub enum Method {
    Get,
    Head,
    /// Any method other than `GET` or `HEAD`.
    Other,
}

/// The routing plan, at the spec level.
pub enum RoutePlan {
    /// Serve `{root}/index.html` directly, typed as HTML.
    RootIndex,
    /// Resolve these sanitized segments against the static root.
    Static(Seq<Seq<u8>>),
    /// Answer `404` without touching the filesystem.
    Rejected,
}

/// The routing plan for one request.
#[derive(Debug, PartialEq, Eq)]
pub enum RouteDecision {
    /// Serve `{root}/index.html` directly, typed as HTML.
    RootIndex,
    /// Resolve these sanitized segments against the static root.
    Static(Vec<Vec<u8>>),
    /// Answer `404` without touching the filesystem.
    Rejected,
}

impl View for RouteDecision {
    type V = RoutePlan;

    open spec fn view(&self) -> RoutePlan {
        match self {
            RouteDecision::RootIndex => RoutePlan::RootIndex,
            RouteDecision::Static(segs) => RoutePlan::Static(views_of(segs@)),
            RouteDecision::Rejected => RoutePlan::Rejected,
        }
    }
}

/// What routing must decide for a method and a raw request path.
pub open spec fn route_spec(m: Method, raw: Seq<u8>) -> RoutePlan {
    if !(m is Get || m is Head) {
        RoutePlan::Rejected
    } else if has_traversal(raw) {
        RoutePlan::Rejected
    } else if clean_segments(raw).len() == 0 {
        RoutePlan::RootIndex
    } else {
        RoutePlan::Static(clean_segments(raw))
    }
}

/// Routes one request. Only `GET` and `HEAD` are served; the bare root maps
/// to the index document; any other path is sanitized, and a traversal
/// attempt is rejected.
pub fn route(m: Method, raw: &[u8]) -> (r: RouteDecision)
    ensures
        r@ == route_spec(m, raw@),
{
    match m {
        Method::Other => RouteDecision::Rejected,
        _ => match sanitize_path(raw) {
            None => RouteDecision::Rejected,
            Some(segs) => {
                if segs.len() == 0 {
                    RouteDecision::RootIndex
                } else {
                    RouteDecision::Static(segs)
                }
            },
        },
    }
}

/// The whole server, as one function of what the filesystem showed: `raw` is
/// the request path; `primary` and `index` are what probing the resolved path
/// and its `index.html` observed; `read` is the outcome of reading whichever
/// file was picked.
pub open spec fn handle_spec(
    m: Method,
    raw: Seq<u8>,
    primary: Probe,
    index: Probe,
    read: Option<Seq<u8>>,
) -> ResponseModel {
    match route_spec(m, raw) {
        RoutePlan::Rejected => not_found_model(),
        RoutePlan::RootIndex => root_response_spec(read),
        RoutePlan::Static(segs) => static_response_spec(resolve_spec(segs, primary, index), read),
    }
}

/// Law: a path that resolves to an existing regular file is served whole —
/// the answer is `200`, the body is byte-identical to what was read from the
/// file, and the content type is inferred from the file's extension.
pub proof fn lemma_existing_file_served(
    m: Method,
    raw: Seq<u8>,
    index: Probe,
    bytes: Seq<u8>,
)
    requires
        m is Get || m is Head,
        !has_traversal(raw),
        clean_segments(raw).len() > 0,
    ensures
        handle_spec(m, raw, Probe::FileFound, index, Some(bytes)).status == 200,
        handle_spec(m, raw, Probe::FileFound, index, Some(bytes)).body == bytes,
        handle_spec(m, raw, Probe::FileFound, index, Some(bytes)).content_type == Some(
            crate::response::mime_for(
                crate::response::extension_of(clean_segments(raw).last()),
            ),
        ),
{
}

/// Law: a path that matches nothing — no file, and no directory holding an
/// `index.html` — is answered `404`, whatever a read would have returned.
pub proof fn lemma_unmatched_not_found(
    m: Method,
    raw: Seq<u8>,
    primary: Probe,
    index: Probe,
    read: Option<Seq<u8>>,
)
    requires
        clean_segments(raw).len() > 0,
        primary is Missing || (primary is DirFound && (index is Missing || index is DirFound)),
    ensures
        handle_spec(m, raw, primary, index, read) == not_found_model(),
{
}

/// Law: `GET /` (and any spelling of the bare root, such as `//`) serves the
/// index document whole whenever it could be read: `200`, typed as HTML, the
/// body byte-identical to the document.
pub proof fn lemma_root_serves_index(
    m: Method,
    raw: Seq<u8>,
    primary: Probe,
    index: Probe,
    bytes: Seq<u8>,
)
    requires
        m is Get || m is Head,
        clean_segments(raw).len() == 0,
    ensures
        handle_spec(m, raw, primary, index, Some(bytes)) == ok_model(
            "text/html; charset=utf-8"@,
            bytes,
        ),
{
}

/// Law: a directory path whose directory holds an `index.html` is served
/// that file: the answer is `200` with the bytes read, typed as HTML, and
/// the file picked is the directory's segments with `index.html` appended.
pub proof fn lemma_directory_index_fallback(m: Method, raw: Seq<u8>, bytes: Seq<u8>)
    requires
        m is Get || m is Head,
        !has_traversal(raw),
        clean_segments(raw).len() > 0,
    ensures
        resolve_spec(clean_segments(raw), Probe::DirFound, Probe::FileFound)
            == ResolutionModel::Serve(clean_segments(raw).push(index_html())),
        handle_spec(m, raw, Probe::DirFound, Probe::FileFound, Some(bytes)) == ok_model(
            "text/html"@,
            bytes,
        ),
{
    lemma_index_html_extension();
}

/// Law: a traversal attempt — any path holding a `.` or `..` segment — is
/// answered `404` whatever the method, the filesystem, or a read would show.
/// The answer is never `200`, so nothing outside the static root is served.
pub proof fn lemma_traversal_rejected(
    m: Method,
    raw: Seq<u8>,
    primary: Probe,
    index: Probe,
    read: Option<Seq<u8>>,
)
    requires
        has_traversal(raw),
    ensures
        handle_spec(m, raw, primary, index, read) == not_found_model(),
{
}

/// The path, relative to the static root, that the server reads for a
/// request — if it reads one at all.
pub open spec fn served_path_spec(m: Method, raw: Seq<u8>, primary: Probe, index: Probe) -> Option<
    Seq<Seq<u8>>,
> {
    match route_spec(m, raw) {
        RoutePlan::Rejected => None,
        RoutePlan::RootIndex => Some(seq![index_html()]),
        RoutePlan::Static(segs) => match resolve_spec(segs, primary, index) {
            ResolutionModel::Serve(s) => Some(s),
            ResolutionModel::NotFound => None,
            ResolutionModel::ServerError => None,
        },
    }
}

/// The file name `index.html` is itself a safe segment.
pub proof fn lemma_index_html_safe()
    ensures
        safe_segment(index_html()),
{
    assert(!index_html().contains(crate::SLASH)) by {
        assert forall|m: int| 0 <= m < index_html().len() implies index_html()[m] != crate::SLASH by {
        }
    }
    assert(index_html() != dot_seg());
    assert(index_html() != dotdot_seg());
}

/// Law: whatever the request and whatever the filesystem showed, every file
/// the server reads lies under the static root — each segment of a served
/// path is nonempty, holds no separator, and is neither `.` nor `..`, so the
/// joined path can never climb out of the root.
pub proof fn lemma_served_path_stays_under_root(
    m: Method,
    raw: Seq<u8>,
    primary: Probe,
    index: Probe,
)
    ensures
        served_path_spec(m, raw, primary, index) matches Some(segs) ==> forall|k: int|
            0 <= k < segs.len() ==> safe_segment(#[trigger] segs[k]),
{
    lemma_index_html_safe();
    match route_spec(m, raw) {
        RoutePlan::Rejected => {
        },
        RoutePlan::RootIndex => {
            let segs = seq![index_html()];
            assert forall|k: int| 0 <= k < segs.len() implies safe_segment(#[trigger] segs[k]) by {
                assert(segs[k] == index_html());
            }
        },
        RoutePlan::Static(segs) => {
            lemma_clean_segments_wf(raw);
            assert(segs == clean_segments(raw));
            assert(!has_traversal(raw));
            assert forall|k: int| 0 <= k < segs.len() implies safe_segment(#[trigger] segs[k]) by {
                assert(clean_segments(raw)[k].len() > 0);
                assert(!clean_segments(raw).contains(dot_seg()));
                assert(segs[k] != dot_seg());
                assert(segs[k] != dotdot_seg());
            }
            match resolve_spec(segs, primary, index) {
                ResolutionModel::Serve(s) => {
                    assert forall|k: int|
                        0 <= k < s.len() implies safe_segment(#[trigger] s[k]) by {
                        if s == segs.push(index_html()) && k == segs.len() {
                            assert(s[k] == index_html());
                        }
                    }
                },
                ResolutionModel::NotFound => {
                },
                ResolutionModel::ServerError => {
                },
            }
        },
    }
}

/// Law: the byte path read for a served request re-parses to exactly the
/// served segments, and holds no traversal — joining the segments smuggles
/// no separator or `..` back in.
pub proof fn lemma_served_bytes_stay_clean(m: Method, raw: Seq<u8>, primary: Probe, index: Probe)
    ensures
        served_path_spec(m, raw, primary, index) matches Some(segs) ==> clean_segments(
            join_spec(segs),
        ) == segs && !has_traversal(join_spec(segs)),
{
    lemma_served_path_stays_under_root(m, raw, primary, index);
    match served_path_spec(m, raw, primary, index) {
        Some(segs) => {
            assert forall|k: int|
                0 <= k < segs.len() implies (#[trigger] segs[k]).len() > 0 && !segs[k].contains(
                crate::SLASH,
            ) by {
                assert(safe_segment(segs[k]));
            }
            lemma_join_clean_round_trip(segs);
            let joined = join_spec(segs);
            assert forall|k: int|
                0 <= k < clean_segments(joined).len() implies clean_segments(joined)[k]
                != dot_seg() && clean_segments(joined)[k] != dotdot_seg() by {
                assert(safe_segment(segs[k]));
            }
            assert(!has_traversal(joined));
        },
        None => {
        },
    }
}

/// Law: when the index document cannot be read — removed, unreadable, or any
/// other filesystem failure — the root route answers `500` with an empty
/// body; the failure stays within this one request.
pub proof fn lemma_root_read_failure(m: Method, raw: Seq<u8>, primary: Probe, index: Probe)
    requires
        m is Get || m is Head,
        clean_segments(raw).len() == 0,
    ensures
        handle_spec(m, raw, primary, index, None) == error_model(),
{
}

/// Law: a filesystem failure other than a clean not-found — on either probe
/// or on the read of a resolved file — is answered `500`, never passed off
/// as a `404`.
pub proof fn lemma_failures_are_server_errors(
    m: Method,
    raw: Seq<u8>,
    index: Probe,
    read: Option<Seq<u8>>,
)
    requires
        m is Get || m is Head,
        !has_traversal(raw),
        clean_segments(raw).len() > 0,
    ensures
        handle_spec(m, raw, Probe::IoError, index, read) == error_model(),
        handle_spec(m, raw, Probe::DirFound, Probe::IoError, read) == error_model(),
        handle_spec(m, raw, Probe::FileFound, index, None) == error_model(),
{
}

} // verus!
