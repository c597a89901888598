//! Pixel formats, and the choice of the best one out of a list.
//!
//! The choice itself is made by the native library, which reads the list of
//! candidates up to the first "none". What is decided here is what the native
//! library is handed, so that the list it reads always ends.

use vstd::prelude::*;

verus! {

/// The native number of a pixel format.
pub type AVPixelFormat = i32;

/// The native number that stands for "no pixel format" and ends a list.
pub const AV_PIX_FMT_NONE: AVPixelFormat = -1;

/// What the native library is handed when it is asked for the best pixel
/// format out of a list.
#[derive(Debug, Clone, PartialEq, Eq)]
pub struct BestPixFmtQuery {
    /// The candidates, ended by "none".
    pub candidates: Vec<AVPixelFormat>,
    /// The format to convert from.
    pub src_pix_fmt: AVPixelFormat,
    /// 1 if the alpha channel is wanted, else 0.
    pub has_alpha: libc::c_int,
}

/// The candidates of `list`: what stands before the first "none", or all of
/// it if there is no "none".
pub open spec fn candidates_of(list: Seq<AVPixelFormat>) -> Seq<AVPixelFormat>
    decreases list.len(),
{
    if list.len() == 0 || list[0] == AV_PIX_FMT_NONE {
        Seq::empty()
    } else {
        seq![list[0]] + candidates_of(list.skip(1))
    }
}

/// The candidates of a list are a beginning of the list, hold no "none", and
/// are followed in the list by "none" or by nothing.
pub proof fn lemma_candidates_are_prefix(list: Seq<AVPixelFormat>)
    ensures
        candidates_of(list).len() <= list.len(),
        candidates_of(list) == list.take(candidates_of(list).len() as int),
        forall|i: int|
            0 <= i < candidates_of(list).len() ==> candidates_of(list)[i] != AV_PIX_FMT_NONE,
        candidates_of(list).len() < list.len() ==> list[candidates_of(list).len() as int]
            == AV_PIX_FMT_NONE,
    decreases list.len(),
{
    if list.len() == 0 || list[0] == AV_PIX_FMT_NONE {
        assert(candidates_of(list) =~= list.take(0));
    } else {
        let rest = list.skip(1);
        lemma_candidates_are_prefix(rest);
        let c = candidates_of(rest);
        assert(candidates_of(list) =~= list.take(c.len() as int + 1)) by {
            assert(c == rest.take(c.len() as int));
            assert forall|i: int| 0 <= i < c.len() + 1 implies (seq![list[0]] + c)[i] == list.take(
                c.len() as int + 1,
            )[i] by {
                if i > 0 {
                    assert(c[i - 1] == rest.take(c.len() as int)[i - 1]);
                    assert(rest[i - 1] == list[i]);
                }
            }
        }
        assert forall|i: int| 0 <= i < candidates_of(list).len() implies candidates_of(list)[i]
            != AV_PIX_FMT_NONE by {
            if i > 0 {
                assert(candidates_of(list)[i] == c[i - 1]);
            }
        }
        if candidates_of(list).len() < list.len() {
            assert(list[candidates_of(list).len() as int] == rest[c.len() as int]);
        }
    }
}

/// A list that is ended by its only "none" is handed on as it is.
pub proof fn lemma_ended_list_is_kept(list: Seq<AVPixelFormat>)
    requires
        list.len() > 0,
        list.last() == AV_PIX_FMT_NONE,
        forall|i: int| 0 <= i < list.len() - 1 ==> list[i] != AV_PIX_FMT_NONE,
    ensures
        candidates_of(list).push(AV_PIX_FMT_NONE) == list,
    decreases list.len(),
{
    if list[0] == AV_PIX_FMT_NONE {
        assert(list.len() == 1);
        assert(candidates_of(list).push(AV_PIX_FMT_NONE) =~= list);
    } else {
        let rest = list.skip(1);
        assert(rest.last() == list.last());
        assert forall|i: int| 0 <= i < rest.len() - 1 implies rest[i] != AV_PIX_FMT_NONE by {
            assert(rest[i] == list[i + 1]);
        }
        lemma_ended_list_is_kept(rest);
        assert((seq![list[0]] + candidates_of(rest)).push(AV_PIX_FMT_NONE) =~= seq![list[0]] + (
        candidates_of(rest).push(AV_PIX_FMT_NONE)));
        assert(seq![list[0]] + rest =~= list);
    }
}

/// Makes what the native library is handed for the choice of the best pixel
/// format: the candidates of `possible_pix_fmts` followed by one "none", the
/// source format, and the alpha wish as a C integer. The list that goes out
/// always ends with "none", whether the list that came in did or not, and
/// holds the same candidates.
pub fn best_pix_fmt_query(
    possible_pix_fmts: &Vec<AVPixelFormat>,
    src_pix_fmt: &AVPixelFormat,
    has_alpha: bool,
) -> (q: BestPixFmtQuery)
    ensures
        q.candidates@ == candidates_of(possible_pix_fmts@).push(AV_PIX_FMT_NONE),
        q.src_pix_fmt == *src_pix_fmt,
        q.has_alpha == (if has_alpha {
            1i32
        } else {
            0i32
        }),
{
    let mut candidates: Vec<AVPixelFormat> = Vec::new();
    let mut i: usize = 0;
    proof {
        lemma_candidates_are_prefix(possible_pix_fmts@);
    }
    while i < possible_pix_fmts.len() && possible_pix_fmts[i] != AV_PIX_FMT_NONE
        invariant
            i <= possible_pix_fmts.len(),
            i <= candidates_of(possible_pix_fmts@).len(),
            candidates@ == possible_pix_fmts@.take(i as int),
            candidates_of(possible_pix_fmts@).len() <= possible_pix_fmts.len(),
            candidates_of(possible_pix_fmts@) == possible_pix_fmts@.take(
                candidates_of(possible_pix_fmts@).len() as int,
            ),
            forall|k: int|
                0 <= k < candidates_of(possible_pix_fmts@).len() ==> candidates_of(
                    possible_pix_fmts@,
                )[k] != AV_PIX_FMT_NONE,
            candidates_of(possible_pix_fmts@).len() < possible_pix_fmts.len()
                ==> possible_pix_fmts@[candidates_of(possible_pix_fmts@).len() as int]
                == AV_PIX_FMT_NONE,
        decreases possible_pix_fmts.len() - i,
    {
        candidates.push(possible_pix_fmts[i]);
        assert(candidates@ =~= possible_pix_fmts@.take(i + 1));
        proof {
            let n = candidates_of(possible_pix_fmts@).len();
            if i as int == n {
                assert(possible_pix_fmts@[i as int] == AV_PIX_FMT_NONE);
            }
        }
        i = i + 1;
    }
    proof {
        let n = candidates_of(possible_pix_fmts@).len();
        if (i as int) < n {
            assert(candidates_of(possible_pix_fmts@)[i as int] == possible_pix_fmts@[i as int]);
        }
        assert(i == n);
    }
    candidates.push(AV_PIX_FMT_NONE);
    BestPixFmtQuery {
        candidates,
        src_pix_fmt: *src_pix_fmt,
        has_alpha: if has_alpha {
            1
        } else {
            0
        },
    }
}

} // verus!
