//! HTTP responses.
//!
//! Builds the response for each outcome of routing and resolution: a served
//! file becomes `200` with a content type inferred from its extension, a
//! clean not-found becomes `404`, and any filesystem failure becomes `500`
//! with an empty body, so no detail leaks to the client.

use vstd::prelude::*;

verus! {

use vstd::slice::slice_subrange;
use vstd::slice::slice_to_vec;
use crate::DOT;
use crate::resolve::Resolution;
use crate::resolve::ResolutionModel;

/// The status code of a successful response.
pub const STATUS_OK: u16 = 200;

/// The status code answering a request that matches nothing.
pub const STATUS_NOT_FOUND: u16 = 404;

/// The status code answering a request whose handling failed.
pub const STATUS_SERVER_ERROR: u16 = 500;

/// An HTTP response: a status code, an optional content type, and the body.
#[derive(Debug, PartialEq, Eq)]
pub struct HttpResponse {
    pub status: u16,
    pub content_type: Option<&'static str>,
    pub body: Vec<u8>,
}

/// The spec-level picture of a response.
#[verifier::ext_equal]
pub struct ResponseModel {
    pub status: int,
    pub content_type: Option<Seq<char>>,
    pub body: Seq<u8>,
}

impl View for HttpResponse {
    type V = ResponseModel;

    open spec fn view(&self) -> ResponseModel {
        ResponseModel {
            status: self.status as int,
            content_type: match self.content_type {
                Some(ct) => Some(ct@),
                None => None,
            },
            body: self.body@,
        }
    }
}

/// A success: `200`, the given content type, the given body.
pub open spec fn ok_model(ct: Seq<char>, body: Seq<u8>) -> ResponseModel {
    ResponseModel { status: 200, content_type: Some(ct), body }
}

/// A clean not-found: `404` with an empty body.
pub open spec fn not_found_model() -> ResponseModel {
    ResponseModel { status: 404, content_type: None, body: Seq::empty() }
}

/// A server error: `500` with an empty body, leaking nothing to the client.
pub open spec fn error_model() -> ResponseModel {
    ResponseModel { status: 500, content_type: None, body: Seq::empty() }
}

/// The index of the last `.` in `s`, or `-1` if `s` has none.
pub open spec fn last_dot(s: Seq<u8>) -> int
    decreases s.len(),
{
    if s.len() == 0 {
        -1
    } else if s[s.len() - 1] == DOT {
        s.len() - 1
    } else {
        last_dot(s.take(s.len() - 1))
    }
}

/// The bytes after the last `.` of a file name, or empty if it has no `.`.
pub open spec fn extension_of(s: Seq<u8>) -> Seq<u8> {
    if last_dot(s) < 0 {
        Seq::empty()
    } else {
        s.skip(last_dot(s) + 1)
    }
}

/// The extension of a file name: the bytes after its last `.`.
pub fn extension(name: &[u8]) -> (r: Vec<u8>)
    ensures
        r@ == extension_of(name@),
{
    let n = name.len();
    let mut j: usize = n;
    proof {
        assert(name@.take(n as int) =~= name@);
    }
    while j > 0 && name[j - 1] != DOT
        invariant
            j <= n,
            n == name@.len(),
            last_dot(name@) == last_dot(name@.take(j as int)),
        decreases j,
    {
        proof {
            assert(name@.take(j as int)[j - 1] == name@[j - 1]);
            assert(name@.take(j as int).take(j - 1) =~= name@.take(j - 1));
        }
        j = j - 1;
    }
    if j == 0 {
        proof {
            assert(name@.take(0) =~= Seq::<u8>::empty());
            assert(extension_of(name@) =~= Seq::<u8>::empty());
        }
        Vec::new()
    } else {
        proof {
            assert(name@.take(j as int)[j - 1] == name@[j - 1]);
            assert(last_dot(name@) == j - 1);
            assert(name@.subrange(j as int, n as int) =~= extension_of(name@));
        }
        slice_to_vec(slice_subrange(name, j, n))
    }
}

/// The file name `index.html` carries the extension `html`, so a
/// directory-index fallback is served as HTML.
pub proof fn lemma_index_html_extension()
    ensures
        extension_of(crate::resolve::index_html()) == seq![104u8, 116u8, 109u8, 108u8],
{
    let s = crate::resolve::index_html();
    let s9 = seq![105u8, 110u8, 100u8, 101u8, 120u8, 46u8, 104u8, 116u8, 109u8];
    let s8 = seq![105u8, 110u8, 100u8, 101u8, 120u8, 46u8, 104u8, 116u8];
    let s7 = seq![105u8, 110u8, 100u8, 101u8, 120u8, 46u8, 104u8];
    let s6 = seq![105u8, 110u8, 100u8, 101u8, 120u8, 46u8];
    assert(s.take(9) =~= s9);
    assert(last_dot(s) == last_dot(s9));
    assert(s9.take(8) =~= s8);
    assert(last_dot(s9) == last_dot(s8));
    assert(s8.take(7) =~= s7);
    assert(last_dot(s8) == last_dot(s7));
    assert(s7.take(6) =~= s6);
    assert(last_dot(s7) == last_dot(s6));
    assert(s6[5] == DOT);
    assert(last_dot(s6) == 5);
    assert(s.skip(6) =~= seq![104u8, 116u8, 109u8, 108u8]);
}

/// The content type served for a file extension. The mapping is an exact,
/// lowercase match on the common web asset types; anything else is served as
/// an opaque byte stream.
pub open spec fn mime_for(ext: Seq<u8>) -> Seq<char> {
    if ext == seq![104u8, 116u8, 109u8, 108u8] {  // html
        "text/html"@
    } else if ext == seq![99u8, 115u8, 115u8] {  // css
        "text/css"@
    } else if ext == seq![106u8, 115u8] {  // js
        "text/javascript"@
    } else if ext == seq![106u8, 115u8, 111u8, 110u8] {  // json
        "application/json"@
    } else if ext == seq![112u8, 110u8, 103u8] {  // png
        "image/png"@
    } else if ext == seq![106u8, 112u8, 103u8] {  // jpg
        "image/jpeg"@
    } else if ext == seq![106u8, 112u8, 101u8, 103u8] {  // jpeg
        "image/jpeg"@
    } else if ext == seq![103u8, 105u8, 102u8] {  // gif
        "image/gif"@
    } else if ext == seq![115u8, 118u8, 103u8] {  // svg
        "image/svg+xml"@
    } else if ext == seq![105u8, 99u8, 111u8] {  // ico
        "image/x-icon"@
    } else if ext == seq![116u8, 120u8, 116u8] {  // txt
        "text/plain"@
    } else if ext == seq![119u8, 97u8, 115u8, 109u8] {  // wasm
        "application/wasm"@
    } else {
        "application/octet-stream"@
    }
}

/// The content type served for the extension `ext`.
pub fn content_type_for(ext: &[u8]) -> (r: &'static str)
    ensures
        r@ == mime_for(ext@),
{
    if ext.len() == 4 && ext[0] == 104 && ext[1] == 116 && ext[2] == 109 && ext[3] == 108 {
        proof {
            assert(ext@ =~= seq![104u8, 116u8, 109u8, 108u8]);
        }
        "text/html"
    } else if ext.len() == 3 && ext[0] == 99 && ext[1] == 115 && ext[2] == 115 {
        proof {
            assert(ext@ =~= seq![99u8, 115u8, 115u8]);
        }
        "text/css"
    } else if ext.len() == 2 && ext[0] == 106 && ext[1] == 115 {
        proof {
            assert(ext@ =~= seq![106u8, 115u8]);
        }
        "text/javascript"
    } else if ext.len() == 4 && ext[0] == 106 && ext[1] == 115 && ext[2] == 111 && ext[3] == 110 {
        proof {
            assert(ext@ =~= seq![106u8, 115u8, 111u8, 110u8]);
        }
        "application/json"
    } else if ext.len() == 3 && ext[0] == 112 && ext[1] == 110 && ext[2] == 103 {
        proof {
            assert(ext@ =~= seq![112u8, 110u8, 103u8]);
        }
        "image/png"
    } else if ext.len() == 3 && ext[0] == 106 && ext[1] == 112 && ext[2] == 103 {
        proof {
            assert(ext@ =~= seq![106u8, 112u8, 103u8]);
        }
        "image/jpeg"
    } else if ext.len() == 4 && ext[0] == 106 && ext[1] == 112 && ext[2] == 101 && ext[3] == 103 {
        proof {
            assert(ext@ =~= seq![106u8, 112u8, 101u8, 103u8]);
        }
        "image/jpeg"
    } else if ext.len() == 3 && ext[0] == 103 && ext[1] == 105 && ext[2] == 102 {
        proof {
            assert(ext@ =~= seq![103u8, 105u8, 102u8]);
        }
        "image/gif"
    } else if ext.len() == 3 && ext[0] == 115 && ext[1] == 118 && ext[2] == 103 {
        proof {
            assert(ext@ =~= seq![115u8, 118u8, 103u8]);
        }
        "image/svg+xml"
    } else if ext.len() == 3 && ext[0] == 105 && ext[1] == 99 && ext[2] == 111 {
        proof {
            assert(ext@ =~= seq![105u8, 99u8, 111u8]);
        }
        "image/x-icon"
    } else if ext.len() == 3 && ext[0] == 116 && ext[1] == 120 && ext[2] == 116 {
        proof {
            assert(ext@ =~= seq![116u8, 120u8, 116u8]);
        }
        "text/plain"
    } else if ext.len() == 4 && ext[0] == 119 && ext[1] == 97 && ext[2] == 115 && ext[3] == 109 {
        proof {
            assert(ext@ =~= seq![119u8, 97u8, 115u8, 109u8]);
        }
        "application/wasm"
    } else {
        "application/octet-stream"
    }
}

/// What the root route answers: the index document's bytes as HTML on a
/// successful read, `500` on any read failure.
pub open spec fn root_response_spec(read: Option<Seq<u8>>) -> ResponseModel {
    match read {
        Some(bytes) => ok_model("text/html; charset=utf-8"@, bytes),
        None => error_model(),
    }
}

/// Builds the response for `GET /` from the outcome of reading
/// `{root}/index.html`: the document served as HTML, or `500` when the read
/// failed for any reason.
pub fn root_response(read: Option<Vec<u8>>) -> (r: HttpResponse)
    ensures
        r@ == root_response_spec(read.deep_view()),
{
    match read {
        Some(bytes) => {
            let r = HttpResponse {
                status: STATUS_OK,
                content_type: Some("text/html; charset=utf-8"),
                body: bytes,
            };
            proof {
                assert(r@ =~= root_response_spec(read.deep_view()));
            }
            r
        },
        None => error_response(),
    }
}

/// What the static route answers: a resolved file's bytes with its inferred
/// content type, `404` when nothing matched, `500` when resolution or the
/// read failed.
pub open spec fn static_response_spec(res: ResolutionModel, read: Option<Seq<u8>>) -> ResponseModel {
    match res {
        ResolutionModel::Serve(segs) => match read {
            Some(bytes) => ok_model(mime_for(extension_of(segs.last())), bytes),
            None => error_model(),
        },
        ResolutionModel::NotFound => not_found_model(),
        ResolutionModel::ServerError => error_model(),
    }
}

/// Builds the response for a static-file request from the resolution outcome
/// and, for a resolved file, the outcome of reading it: the bytes with the
/// content type inferred from the file's extension, or `404`, or `500`.
pub fn static_response(res: Resolution, read: Option<Vec<u8>>) -> (r: HttpResponse)
    requires
        res@ matches ResolutionModel::Serve(segs) ==> segs.len() > 0,
    ensures
        r@ == static_response_spec(res@, read.deep_view()),
{
    match res {
        Resolution::Serve(segs) => match read {
            Some(bytes) => {
                let name = &segs[segs.len() - 1];
                let ext = extension(name.as_slice());
                let ct = content_type_for(ext.as_slice());
                let r = HttpResponse { status: STATUS_OK, content_type: Some(ct), body: bytes };
                proof {
                    assert(r@ =~= static_response_spec(
                        ResolutionModel::Serve(crate::path::views_of(segs@)),
                        read.deep_view(),
                    ));
                }
                r
            },
            None => error_response(),
        },
        Resolution::NotFound => not_found_response(),
        Resolution::ServerError => error_response(),
    }
}

/// The `404 Not Found` response, with an empty body.
pub fn not_found_response() -> (r: HttpResponse)
    ensures
        r@ == not_found_model(),
{
    let r = HttpResponse { status: STATUS_NOT_FOUND, content_type: None, body: Vec::new() };
    proof {
        assert(r@ =~= not_found_model());
    }
    r
}

/// The `500 Internal Server Error` response, with an empty body so that no
/// detail of the failure leaks to the client.
pub fn error_response() -> (r: HttpResponse)
    ensures
        r@ == error_model(),
{
    let r = HttpResponse { status: STATUS_SERVER_ERROR, content_type: None, body: Vec::new() };
    proof {
        assert(r@ =~= error_model());
    }
    r
}

} // verus!
