//! File resolution.
//!
//! Given the sanitized segments of a request path, the resolver decides which
//! file under the static root should be served. The filesystem itself stays
//! outside: the caller probes the joined path (and, for a directory, the
//! `index.html` inside it) and hands the observed outcomes in as [`Probe`]
//! values; the decision here is a pure function of those observations.

use vstd::prelude::*;

verus! {

use crate::path::views_of;

/// What a filesystem probe of one path observed.
#[derive(Clone, Copy, Debug, PartialEq, Eq, Structural)]
pub enum Probe {
    /// The path names an existing regular file.
    FileFound,
    /// The path names an existing directory.
    DirFound,
    /// Nothing exists at the path.
    Missing,
    /// The probe failed in some other way (permission denied, I/O fault).
    IoError,
}

/// The file name `index.html`, as a byte sequence.
pub open spec fn index_html() -> Seq<u8> {
    seq![105u8, 110u8, 100u8, 101u8, 120u8, 46u8, 104u8, 116u8, 109u8, 108u8]
}

/// The file name `index.html`, as bytes.
pub fn index_html_name() -> (r: Vec<u8>)
    ensures
        r@ == index_html(),
{
    let mut v: Vec<u8> = Vec::new();
    v.push(105);
    v.push(110);
    v.push(100);
    v.push(101);
    v.push(120);
    v.push(46);
    v.push(104);
    v.push(116);
    v.push(109);
    v.push(108);
    proof {
        assert(v@ =~= index_html());
    }
    v
}

/// The outcome of resolution, at the spec level: either the segments of the
/// file to serve (relative to the static root), or a clean not-found, or a
/// server error.
pub enum ResolutionModel {
    Serve(Seq<Seq<u8>>),
    NotFound,
    ServerError,
}

/// The outcome of resolution: either the segments of the file to serve
/// (relative to the static root), or a clean not-found, or a server error.
#[derive(Debug, PartialEq, Eq)]
pub enum Resolution {
    Serve(Vec<Vec<u8>>),
    NotFound,
    ServerError,
}

impl View for Resolution {
    type V = ResolutionModel;

    open spec fn view(&self) -> ResolutionModel {
        match self {
            Resolution::Serve(segs) => ResolutionModel::Serve(views_of(segs@)),
            Resolution::NotFound => ResolutionModel::NotFound,
            Resolution::ServerError => ResolutionModel::ServerError,
        }
    }
}

/// What resolution must decide from the two probe outcomes: a found file is
/// served as it is; a directory falls back to the `index.html` within it when
/// that probe found a file; a missing path is a clean not-found; and any
/// other filesystem failure is a server error, never a silent 404.
pub open spec fn resolve_spec(segs: Seq<Seq<u8>>, primary: Probe, index: Probe) -> ResolutionModel {
    match primary {
        Probe::FileFound => ResolutionModel::Serve(segs),
        Probe::Missing => ResolutionModel::NotFound,
        Probe::IoError => ResolutionModel::ServerError,
        Probe::DirFound => match index {
            Probe::FileFound => ResolutionModel::Serve(segs.push(index_html())),
            Probe::DirFound => ResolutionModel::NotFound,
            Probe::Missing => ResolutionModel::NotFound,
            Probe::IoError => ResolutionModel::ServerError,
        },
    }
}

/// Decides what to serve for the path `segs`, from what the filesystem
/// probes observed: `primary` for the joined path itself, `index` for the
/// `index.html` inside it (consulted only when the path is a directory).
pub fn resolve(segs: Vec<Vec<u8>>, primary: Probe, index: Probe) -> (r: Resolution)
    ensures
        r@ == resolve_spec(views_of(segs@), primary, index),
{
    match primary {
        Probe::FileFound => Resolution::Serve(segs),
        Probe::Missing => Resolution::NotFound,
        Probe::IoError => Resolution::ServerError,
        Probe::DirFound => match index {
            Probe::FileFound => {
                let ghost before = views_of(segs@);
                let mut segs = segs;
                segs.push(index_html_name());
                proof {
                    assert(views_of(segs@) =~= before.push(index_html()));
                }
                Resolution::Serve(segs)
            },
            Probe::DirFound => Resolution::NotFound,
            Probe::Missing => Resolution::NotFound,
            Probe::IoError => Resolution::ServerError,
        },
    }
}

} // verus!
