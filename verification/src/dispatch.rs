//! The batch dispatcher's decision logic: building one operation descriptor
//! per page (or per page-tag pair), and classifying the per-request
//! outcomes of a dispatched batch.
//!
//! The network fan-out itself happens outside the library; it hands back one
//! outcome flag per request, in dispatch order.

use vstd::prelude::*;

use crate::catalog::pages_abs;
use crate::error::BatchPhase;
use crate::error::WikiError;
use crate::queries::MoveArgsAbs;
use crate::queries::MoveSinglePageArguments;
use crate::queries::PageAbs;
use crate::queries::PageListItem;
use crate::strutil::is_prefix_of;
use crate::strutil::replace_prefix;
use crate::strutil::replaced;

verus! {

/// The views of a sequence of move arguments.
pub open spec fn move_args_abs(s: Seq<MoveSinglePageArguments>) -> Seq<MoveArgsAbs> {
    s.map_values(|a: MoveSinglePageArguments| a@)
}

/// Builds one move operation per page: the page keeps its identifier, and
/// its destination path substitutes `destination` for the matched `prefix`.
pub fn build_move_ops(pages: &Vec<PageListItem>, prefix: &str, destination: &str) -> (ops: Vec<
    MoveSinglePageArguments,
>)
    requires
        forall|i: int|
            0 <= i < pages@.len() ==> is_prefix_of(prefix@, (#[trigger] pages_abs(pages@)[i]).path),
    ensures
        ops@.len() == pages@.len(),
        forall|i: int|
            0 <= i < ops@.len() ==> {
                let op = #[trigger] move_args_abs(ops@)[i];
                let page = pages_abs(pages@)[i];
                op.id == page.id && op.destination_path == replaced(page.path, prefix@, destination@)
            },
{
    let mut ops: Vec<MoveSinglePageArguments> = Vec::new();
    let mut k: usize = 0;
    while k < pages.len()
        invariant
            k <= pages@.len(),
            ops@.len() == k,
            forall|i: int|
                0 <= i < pages@.len() ==> is_prefix_of(
                    prefix@,
                    (#[trigger] pages_abs(pages@)[i]).path,
                ),
            forall|i: int|
                0 <= i < k ==> {
                    let op = #[trigger] move_args_abs(ops@)[i];
                    let page = pages_abs(pages@)[i];
                    op.id == page.id && op.destination_path == replaced(
                        page.path,
                        prefix@,
                        destination@,
                    )
                },
        decreases pages@.len() - k,
    {
        let p = &pages[k];
        proof {
            assert(pages_abs(pages@)[k as int] == p@);
        }
        let destination_path = replace_prefix(p.path.as_str(), prefix, destination);
        let op = MoveSinglePageArguments { destination_path, id: p.id };
        let ghost prev = ops@;
        ops.push(op);
        proof {
            assert forall|i: int| 0 <= i < k + 1 implies {
                let opv = #[trigger] move_args_abs(ops@)[i];
                let page = pages_abs(pages@)[i];
                opv.id == page.id && opv.destination_path == replaced(
                    page.path,
                    prefix@,
                    destination@,
                )
            } by {
                if i < k {
                    assert(move_args_abs(ops@)[i] == move_args_abs(prev)[i]);
                } else {
                    assert(move_args_abs(ops@)[i] == op@);
                }
            }
        }
        k = k + 1;
    }
    ops
}

/// Arguments of the single-page tag mutation: one tag applied to one page.
#[derive(Debug)]
pub struct TagSinglePageArguments {
    pub id: i32,
    pub tag: String,
    pub title: String,
}

/// Ghost counterpart of [`TagSinglePageArguments`].
pub ghost struct TagArgsAbs {
    pub id: int,
    pub tag: Seq<char>,
    pub title: Seq<char>,
}

impl View for TagSinglePageArguments {
    type V = TagArgsAbs;

    open spec fn view(&self) -> TagArgsAbs {
        TagArgsAbs { id: self.id as int, tag: self.tag@, title: self.title@ }
    }
}

/// The views of a sequence of tag arguments.
pub open spec fn tag_args_abs(s: Seq<TagSinglePageArguments>) -> Seq<TagArgsAbs> {
    s.map_values(|a: TagSinglePageArguments| a@)
}

/// A page's title, or the empty string when it has none.
pub open spec fn title_or_empty(t: Option<Seq<char>>) -> Seq<char> {
    match t {
        Option::Some(s) => s,
        Option::None => Seq::empty(),
    }
}

/// The full list of tags a tagging run applies: the derived safety tag
/// first, then the caller-supplied extra tags.
pub fn tags_to_apply(safety_tag: &String, extra: &Vec<String>) -> (r: Vec<String>)
    ensures
        r.deep_view() == seq![safety_tag@] + extra.deep_view(),
{
    let mut r: Vec<String> = Vec::new();
    r.push(safety_tag.clone());
    let mut i: usize = 0;
    while i < extra.len()
        invariant
            i <= extra@.len(),
            r.deep_view() =~= seq![safety_tag@] + extra.deep_view().subrange(0, i as int),
        decreases extra@.len() - i,
    {
        let ghost prev = r.deep_view();
        r.push(extra[i].clone());
        proof {
            assert(r.deep_view() =~= prev.push(extra@[i as int]@));
            assert(r.deep_view() =~= seq![safety_tag@] + extra.deep_view().subrange(0, i + 1));
        }
        i = i + 1;
    }
    proof {
        assert(extra.deep_view().subrange(0, extra@.len() as int) =~= extra.deep_view());
        assert(r.deep_view() =~= seq![safety_tag@] + extra.deep_view());
    }
    r
}

/// Builds the flat cross product of tagging operations: one operation per
/// page-tag pair, pages outermost, so the dispatcher and the reconciler
/// treat every operation uniformly.
///
/// The operation for page `i` and tag `j` sits at index `i * tags.len() + j`;
/// it keeps the page's identifier and title (an absent title becomes empty).
pub fn build_tag_ops(pages: &Vec<PageListItem>, tags: &Vec<String>) -> (ops: Vec<
    TagSinglePageArguments,
>)
    requires
        pages@.len() * tags@.len() <= usize::MAX,
    ensures
        ops@.len() == pages@.len() * tags@.len(),
        forall|i: int, j: int|
            0 <= i < pages@.len() && 0 <= j < tags@.len() ==> {
                let op = #[trigger] tag_args_abs(ops@)[i * tags@.len() + j];
                let page = pages_abs(pages@)[i];
                op.id == page.id && op.tag == tags.deep_view()[j] && op.title == title_or_empty(
                    page.title,
                )
            },
{
    let tlen = tags.len();
    let mut ops: Vec<TagSinglePageArguments> = Vec::new();
    let mut i: usize = 0;
    while i < pages.len()
        invariant
            i <= pages@.len(),
            tlen == tags@.len(),
            pages@.len() * tlen <= usize::MAX,
            ops@.len() == i * tlen,
            forall|i2: int, j2: int|
                0 <= i2 < i && 0 <= j2 < tlen ==> {
                    let op = #[trigger] tag_args_abs(ops@)[i2 * tlen + j2];
                    let page = pages_abs(pages@)[i2];
                    op.id == page.id && op.tag == tags.deep_view()[j2] && op.title
                        == title_or_empty(page.title)
                },
        decreases pages@.len() - i,
    {
        proof {
            assert((i + 1) * tlen <= pages@.len() * tlen) by (nonlinear_arith)
                requires
                    i < pages@.len(),
                    0 <= tlen,
            ;
        }
        let p = &pages[i];
        let title: String = match &p.title {
            Option::Some(t) => t.clone(),
            Option::None => String::new(),
        };
        let mut j: usize = 0;
        while j < tlen
            invariant
                j <= tlen,
                i < pages@.len(),
                tlen == tags@.len(),
                (i + 1) * tlen <= usize::MAX,
                ops@.len() == i * tlen + j,
                p == &pages[i as int],
                title@ == title_or_empty(pages_abs(pages@)[i as int].title),
                forall|i2: int, j2: int|
                    0 <= i2 < i && 0 <= j2 < tlen ==> {
                        let op = #[trigger] tag_args_abs(ops@)[i2 * tlen + j2];
                        let page = pages_abs(pages@)[i2];
                        op.id == page.id && op.tag == tags.deep_view()[j2] && op.title
                            == title_or_empty(page.title)
                    },
                forall|j2: int|
                    0 <= j2 < j ==> {
                        let op = #[trigger] tag_args_abs(ops@)[i * tlen + j2];
                        let page = pages_abs(pages@)[i as int];
                        op.id == page.id && op.tag == tags.deep_view()[j2] && op.title
                            == title_or_empty(page.title)
                    },
            decreases tlen - j,
        {
            proof {
                assert(i * tlen + j + 1 <= (i + 1) * tlen) by (nonlinear_arith)
                    requires
                        0 <= j < tlen,
                        0 <= i,
                ;
            }
            let op = TagSinglePageArguments { id: p.id, tag: tags[j].clone(), title: title.clone() };
            let ghost prev = ops@;
            ops.push(op);
            proof {
                assert(tag_args_abs(ops@)[i * tlen + j as int] == op@);
                assert forall|k: int| 0 <= k < prev.len() implies #[trigger] tag_args_abs(ops@)[k]
                    == tag_args_abs(prev)[k] by {
                    assert(ops@[k] == prev[k]);
                }
                assert forall|i2: int, j2: int| 0 <= i2 < i && 0 <= j2 < tlen implies 0 <= #[trigger] (
                i2 * tlen + j2) < i * tlen by {
                    assert((i2 + 1) * tlen <= i * tlen && 0 <= i2 * tlen && i2 * tlen + j2 < (i2
                        + 1) * tlen) by (nonlinear_arith)
                        requires
                            0 <= i2 < i,
                            0 <= j2 < tlen,
                    ;
                }
            }
            j = j + 1;
        }
        proof {
            assert((i + 1) * tlen == i * tlen + tlen) by (nonlinear_arith);
        }
        i = i + 1;
    }
    ops
}

/// The number of `true` flags in a sequence of outcomes.
pub open spec fn ok_count(s: Seq<bool>) -> int
    decreases s.len(),
{
    if s.len() == 0 {
        0
    } else {
        ok_count(s.drop_last()) + if s.last() {
            1 as int
        } else {
            0 as int
        }
    }
}

/// Classifies the outcomes of one phase of a dispatched batch.
///
/// No failed outcome lets the batch proceed; all outcomes failed is fatal
/// for the batch; a mix is fatal too, and explicitly flagged, because some
/// mutations likely did take effect server-side.
pub fn classify_outcomes(outcomes: &Vec<bool>, phase: BatchPhase) -> (r: Result<(), WikiError>)
    ensures
        ok_count(outcomes@) == outcomes@.len() ==> r == Result::<(), WikiError>::Ok(()),
        outcomes@.len() > 0 && ok_count(outcomes@) == 0 ==> r == Result::<(), WikiError>::Err(
            WikiError::AllRequestsFailed(phase),
        ),
        0 < ok_count(outcomes@) < outcomes@.len() ==> r == Result::<(), WikiError>::Err(
            WikiError::PartialRequestFailure(phase),
        ),
{
    let mut oks: usize = 0;
    let mut k: usize = 0;
    while k < outcomes.len()
        invariant
            k <= outcomes@.len(),
            oks == ok_count(outcomes@.subrange(0, k as int)),
            oks <= k,
        decreases outcomes@.len() - k,
    {
        let ghost taken = outcomes@.subrange(0, k + 1);
        proof {
            assert(taken.drop_last() =~= outcomes@.subrange(0, k as int));
            assert(taken.last() == outcomes@[k as int]);
        }
        if outcomes[k] {
            oks = oks + 1;
        }
        k = k + 1;
    }
    proof {
        assert(outcomes@.subrange(0, outcomes@.len() as int) =~= outcomes@);
    }
    if oks == outcomes.len() {
        Result::Ok(())
    } else if oks == 0 {
        Result::Err(WikiError::AllRequestsFailed(phase))
    } else {
        Result::Err(WikiError::PartialRequestFailure(phase))
    }
}

} // verus!
