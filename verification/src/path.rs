//! Request-path sanitization.
//!
//! A raw request path is a byte string such as `/docs/guide.html`. Its
//! meaning is the sequence of its nonempty `/`-separated segments. The
//! sanitizer extracts those segments and rejects any path holding a `.` or
//! `..` segment, so that a resolved path can never climb out of the static
//! root.

use vstd::prelude::*;

verus! {

use crate::DOT;
use crate::SLASH;

/// The segment `.`, which names the current directory.
pub open spec fn dot_seg() -> Seq<u8> {
    seq![DOT]
}

/// The segment `..`, which climbs toward the parent directory.
pub open spec fn dotdot_seg() -> Seq<u8> {
    seq![DOT, DOT]
}

/// The index of the first `/` in `s`, or `s.len()` if `s` has none.
pub open spec fn first_slash(s: Seq<u8>) -> int
    decreases s.len(),
{
    if s.len() == 0 {
        0
    } else if s[0] == SLASH {
        0
    } else {
        1 + first_slash(s.skip(1))
    }
}

/// `first_slash` stays in bounds, lands on a `/` when one exists, and
/// nothing before it is a `/`.
pub proof fn lemma_first_slash(s: Seq<u8>)
    ensures
        0 <= first_slash(s) <= s.len(),
        first_slash(s) < s.len() ==> s[first_slash(s)] == SLASH,
        forall|m: int| 0 <= m < first_slash(s) ==> s[m] != SLASH,
    decreases s.len(),
{
    if s.len() == 0 {
    } else if s[0] == SLASH {
    } else {
        lemma_first_slash(s.skip(1));
        assert forall|m: int| 0 <= m < first_slash(s) implies s[m] != SLASH by {
            if m > 0 {
                assert(s.skip(1)[m - 1] != SLASH);
            }
        }
    }
}

/// `first_slash` is pinned down by a scan: if no byte before `k` is a `/`
/// and `k` is either the end or a `/`, then `first_slash(s) == k`.
pub proof fn lemma_first_slash_at(s: Seq<u8>, k: int)
    requires
        0 <= k <= s.len(),
        forall|m: int| 0 <= m < k ==> s[m] != SLASH,
        k < s.len() ==> s[k] == SLASH,
    ensures
        first_slash(s) == k,
    decreases s.len(),
{
    if k == 0 {
    } else {
        assert(s[0] != SLASH);
        assert forall|m: int| 0 <= m < k - 1 implies s.skip(1)[m] != SLASH by {
            assert(s[m + 1] != SLASH);
        }
        assert(k - 1 < s.skip(1).len() ==> s.skip(1)[k - 1] == SLASH);
        lemma_first_slash_at(s.skip(1), k - 1);
    }
}

/// The nonempty `/`-separated segments of a raw request path.
pub open spec fn clean_segments(s: Seq<u8>) -> Seq<Seq<u8>>
    decreases s.len(),
    via clean_segments_dec
{
    if s.len() == 0 {
        seq![]
    } else if s[0] == SLASH {
        clean_segments(s.skip(1))
    } else {
        seq![s.take(first_slash(s))] + clean_segments(s.skip(first_slash(s)))
    }
}

#[via_fn]
proof fn clean_segments_dec(s: Seq<u8>) {
    if s.len() > 0 && s[0] != SLASH {
        lemma_first_slash(s);
    }
}

/// A segment that can safely be joined under the static root: nonempty,
/// free of separators, and neither `.` nor `..`.
pub open spec fn safe_segment(seg: Seq<u8>) -> bool {
    &&& seg.len() > 0
    &&& !seg.contains(SLASH)
    &&& seg != dot_seg()
    &&& seg != dotdot_seg()
}

/// A raw path attempts traversal when one of its segments is `.` or `..`.
pub open spec fn has_traversal(s: Seq<u8>) -> bool {
    clean_segments(s).contains(dot_seg()) || clean_segments(s).contains(dotdot_seg())
}

/// The views of a sequence of byte vectors.
pub open spec fn views_of(segs: Seq<Vec<u8>>) -> Seq<Seq<u8>> {
    segs.map_values(|v: Vec<u8>| v@)
}

/// Whatever the raw path, its clean segments are nonempty and hold no `/`.
pub proof fn lemma_clean_segments_wf(s: Seq<u8>)
    ensures
        forall|k: int|
            0 <= k < clean_segments(s).len() ==> (#[trigger] clean_segments(s)[k]).len() > 0
                && !clean_segments(s)[k].contains(SLASH),
    decreases s.len(),
{
    if s.len() == 0 {
        assert(clean_segments(s).len() == 0);
    } else if s[0] == SLASH {
        lemma_clean_segments_wf(s.skip(1));
        assert(clean_segments(s) == clean_segments(s.skip(1)));
        assert forall|k: int|
            0 <= k < clean_segments(s).len() implies (#[trigger] clean_segments(s)[k]).len() > 0
            && !clean_segments(s)[k].contains(SLASH) by {
            assert(clean_segments(s.skip(1))[k].len() > 0 && !clean_segments(s.skip(1))[
                k
            ].contains(SLASH));
        }
    } else {
        lemma_first_slash(s);
        let f = first_slash(s);
        let head = s.take(f);
        lemma_clean_segments_wf(s.skip(f));
        assert(!head.contains(SLASH)) by {
            assert forall|m: int| 0 <= m < head.len() implies head[m] != SLASH by {
                assert(s[m] != SLASH);
            }
        }
        assert forall|k: int|
            0 <= k < clean_segments(s).len() implies (#[trigger] clean_segments(s)[k]).len() > 0
            && !clean_segments(s)[k].contains(SLASH) by {
            if k == 0 {
                assert(clean_segments(s)[0] == head);
            } else {
                assert(clean_segments(s)[k] == clean_segments(s.skip(f))[k - 1]);
            }
        }
    }
}

/// The segments joined with `/` between them: the served path relative to
/// the static root.
pub open spec fn join_spec(segs: Seq<Seq<u8>>) -> Seq<u8>
    decreases segs.len(),
{
    if segs.len() == 0 {
        Seq::empty()
    } else if segs.len() == 1 {
        segs[0]
    } else {
        join_spec(segs.drop_last()) + seq![SLASH] + segs.last()
    }
}

/// `join_spec` seen from the front: the first segment, one `/`, the rest.
proof fn lemma_join_front(segs: Seq<Seq<u8>>)
    requires
        segs.len() >= 2,
    ensures
        join_spec(segs) == segs[0] + seq![SLASH] + join_spec(segs.skip(1)),
    decreases segs.len(),
{
    if segs.len() == 2 {
        assert(segs.drop_last() =~= seq![segs[0]]);
        assert(segs.skip(1) =~= seq![segs[1]]);
        assert(join_spec(segs) == join_spec(segs.drop_last()) + seq![SLASH] + segs.last());
        assert(join_spec(seq![segs[0]]) == segs[0]);
        assert(join_spec(seq![segs[1]]) == segs[1]);
        assert(join_spec(segs) =~= segs[0] + seq![SLASH] + join_spec(segs.skip(1)));
    } else {
        let dl = segs.drop_last();
        lemma_join_front(dl);
        assert(dl.skip(1) =~= segs.skip(1).drop_last());
        assert(segs.skip(1).last() == segs.last());
        assert(join_spec(segs) == join_spec(dl) + seq![SLASH] + segs.last());
        assert(join_spec(segs.skip(1)) == join_spec(segs.skip(1).drop_last()) + seq![SLASH]
            + segs.skip(1).last());
        assert(dl[0] == segs[0]);
        assert(join_spec(segs) =~= segs[0] + seq![SLASH] + join_spec(segs.skip(1)));
    }
}

/// Law: joining and re-splitting are inverse. The clean segments of a joined
/// path of nonempty, separator-free segments are exactly those segments, so
/// the byte path handed to the filesystem names nothing that its segments do
/// not.
pub proof fn lemma_join_clean_round_trip(segs: Seq<Seq<u8>>)
    requires
        forall|k: int|
            0 <= k < segs.len() ==> (#[trigger] segs[k]).len() > 0 && !segs[k].contains(SLASH),
    ensures
        clean_segments(join_spec(segs)) == segs,
    decreases segs.len(),
{
    if segs.len() == 0 {
        assert(clean_segments(join_spec(segs)) =~= segs);
    } else if segs.len() == 1 {
        let s = join_spec(segs);
        assert(s == segs[0]);
        assert forall|m: int| 0 <= m < s.len() implies s[m] != SLASH by {
            assert(!segs[0].contains(SLASH));
        }
        lemma_first_slash_at(s, s.len() as int);
        assert(s.take(s.len() as int) =~= s);
        assert(s.skip(s.len() as int) =~= Seq::<u8>::empty());
        assert(clean_segments(s) == seq![s.take(s.len() as int)] + clean_segments(
            s.skip(s.len() as int),
        ));
        assert(clean_segments(Seq::<u8>::empty()) == Seq::<Seq<u8>>::empty());
        assert(clean_segments(join_spec(segs)) =~= segs);
    } else {
        lemma_join_front(segs);
        let s = join_spec(segs);
        let h = segs[0];
        let rest = join_spec(segs.skip(1));
        assert(s == h + seq![SLASH] + rest);
        assert forall|m: int| 0 <= m < h.len() implies s[m] != SLASH by {
            assert(s[m] == h[m]);
            assert(!h.contains(SLASH));
        }
        assert(s[h.len() as int] == SLASH);
        lemma_first_slash_at(s, h.len() as int);
        assert(s.take(h.len() as int) =~= h);
        assert(s.skip(h.len() as int).skip(1) =~= rest);
        assert forall|k: int|
            0 <= k < segs.skip(1).len() implies (#[trigger] segs.skip(1)[k]).len() > 0 && !segs.skip(
            1,
        )[k].contains(SLASH) by {
            assert(segs.skip(1)[k] == segs[k + 1]);
        }
        lemma_join_clean_round_trip(segs.skip(1));
        assert(clean_segments(s) == seq![h] + clean_segments(s.skip(h.len() as int)));
        assert(clean_segments(s.skip(h.len() as int)) == clean_segments(rest));
        assert(seq![h] + segs.skip(1) =~= segs);
    }
}

/// Joins path segments with `/` between them, giving the path relative to
/// the static root at which the resolved file is read.
pub fn join_segments(segs: &Vec<Vec<u8>>) -> (r: Vec<u8>)
    ensures
        r@ == join_spec(views_of(segs@)),
{
    let mut out: Vec<u8> = Vec::new();
    let mut k: usize = 0;
    proof {
        assert(views_of(segs@).take(0) =~= Seq::<Seq<u8>>::empty());
    }
    while k < segs.len()
        invariant
            k <= segs@.len(),
            out@ == join_spec(views_of(segs@).take(k as int)),
        decreases segs@.len() - k,
    {
        let ghost pre = views_of(segs@).take(k as int);
        if k > 0 {
            out.push(SLASH);
        }
        let mut piece = vstd::slice::slice_to_vec(segs[k].as_slice());
        out.append(&mut piece);
        proof {
            let cur = views_of(segs@).take(k as int + 1);
            assert(cur.drop_last() =~= pre);
            assert(cur.last() == segs@[k as int]@);
            if k == 0 {
                assert(out@ =~= join_spec(cur));
            } else {
                assert(out@ =~= join_spec(pre) + seq![SLASH] + segs@[k as int]@);
            }
        }
        k = k + 1;
    }
    proof {
        assert(views_of(segs@).take(segs@.len() as int) =~= views_of(segs@));
    }
    out
}

/// Splits a raw request path into its nonempty `/`-separated segments,
/// rejecting any path that holds a `.` or `..` segment.
pub fn sanitize_path(raw: &[u8]) -> (r: Option<Vec<Vec<u8>>>)
    ensures
        match r {
            Some(segs) => {
                &&& !has_traversal(raw@)
                &&& views_of(segs@) == clean_segments(raw@)
                &&& forall|k: int|
                    0 <= k < segs@.len() ==> safe_segment(#[trigger] views_of(segs@)[k])
            },
            None => has_traversal(raw@),
        },
{
    let n = raw.len();
    let mut segs: Vec<Vec<u8>> = Vec::new();
    let mut i: usize = 0;
    proof {
        assert(raw@.skip(0) =~= raw@);
        assert(views_of(segs@) + clean_segments(raw@) =~= clean_segments(raw@));
    }
    while i < n
        invariant
            n == raw@.len(),
            i <= n,
            clean_segments(raw@) == views_of(segs@) + clean_segments(raw@.skip(i as int)),
            forall|k: int| 0 <= k < segs@.len() ==> safe_segment(#[trigger] views_of(segs@)[k]),
        decreases n - i,
    {
        if raw[i] == SLASH {
            proof {
                assert(raw@.skip(i as int).skip(1) =~= raw@.skip(i as int + 1));
            }
            i = i + 1;
        } else {
            let ghost rem = raw@.skip(i as int);
            let ghost old_segs = segs@;
            let mut seg: Vec<u8> = Vec::new();
            let mut j: usize = i;
            while j < n && raw[j] != SLASH
                invariant
                    n == raw@.len(),
                    i <= j <= n,
                    seg@ == raw@.subrange(i as int, j as int),
                    forall|m: int| i <= m < j ==> raw@[m] != SLASH,
                decreases n - j,
            {
                seg.push(raw[j]);
                proof {
                    assert(seg@ =~= raw@.subrange(i as int, j as int + 1));
                }
                j = j + 1;
            }
            proof {
                assert forall|m: int| 0 <= m < j - i implies rem[m] != SLASH by {
                    assert(raw@[i + m] != SLASH);
                }
                if j < n {
                    assert(rem[j - i] == raw@[j as int]);
                }
                lemma_first_slash_at(rem, j - i);
                assert(rem.take(j - i) =~= seg@);
                assert(rem.skip(j - i) =~= raw@.skip(j as int));
                assert(clean_segments(rem) == seq![seg@] + clean_segments(raw@.skip(j as int)));
            }
            let is_dot = seg.len() == 1 && seg[0] == DOT;
            let is_dotdot = seg.len() == 2 && seg[0] == DOT && seg[1] == DOT;
            if is_dot || is_dotdot {
                proof {
                    if is_dot {
                        assert(seg@ =~= dot_seg());
                    } else {
                        assert(seg@ =~= dotdot_seg());
                    }
                    let w = old_segs.len() as int;
                    assert(clean_segments(raw@)[w] == seg@);
                    assert(has_traversal(raw@));
                }
                return None;
            }
            proof {
                assert(seg@.len() > 0);
                assert(seg@ != dot_seg() && seg@ != dotdot_seg());
                assert(!seg@.contains(SLASH)) by {
                    assert forall|m: int| 0 <= m < seg@.len() implies seg@[m] != SLASH by {
                        assert(raw@[i + m] != SLASH);
                    }
                }
            }
            segs.push(seg);
            proof {
                assert(views_of(segs@) =~= views_of(old_segs).push(seg@));
                assert(views_of(segs@) + clean_segments(raw@.skip(j as int)) =~= views_of(
                    old_segs,
                ) + clean_segments(rem));
            }
            i = j;
        }
    }
    proof {
        assert(raw@.skip(n as int) =~= Seq::<u8>::empty());
        assert(clean_segments(raw@) =~= views_of(segs@));
        assert forall|k: int|
            0 <= k < clean_segments(raw@).len() implies clean_segments(raw@)[k] != dot_seg()
            && clean_segments(raw@)[k] != dotdot_seg() by {
            assert(safe_segment(views_of(segs@)[k]));
        }
        assert(!has_traversal(raw@));
    }
    Some(segs)
}

} // verus!
