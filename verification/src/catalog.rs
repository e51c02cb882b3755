//! The page catalog: filtering a raw backend listing by path prefix and
//! producing a deterministically ordered working set.
//!
//! The working set is sorted ascending by path, holds exactly the listed
//! pages whose path starts with the requested prefix, and carries the size
//! of the raw listing so callers can report "N of M" statistics.

use vstd::prelude::*;

use crate::error::MissingField;
use crate::error::WikiError;
use crate::queries::ListAllPages;
use crate::queries::PageAbs;
use crate::queries::PageListItem;
use crate::strutil::is_prefix_of;
use crate::strutil::lemma_lex_le_trans;
use crate::strutil::lemma_lex_total;
use crate::strutil::lex_le;
use crate::strutil::lex_lt;
use crate::strutil::starts_with_prefix;
use crate::strutil::str_lt;

verus! {

broadcast use vstd::seq_lib::group_seq_lib_default, vstd::seq_lib::group_to_multiset_ensures;

/// The views of a sequence of pages.
pub open spec fn pages_abs(s: Seq<PageListItem>) -> Seq<PageAbs> {
    s.map_values(|p: PageListItem| p@)
}

/// The sequence is sorted ascending by path.
pub open spec fn sorted_by_path(s: Seq<PageAbs>) -> bool {
    forall|i: int, j: int| 0 <= i < j < s.len() ==> lex_le(#[trigger] s[i].path, #[trigger] s[j].path)
}

/// A filtered page listing: the working set and the size of the raw listing.
#[derive(Debug)]
pub struct ListPages {
    pub pages: Vec<PageListItem>,
    pub pages_returned: usize,
}

/// Finds the position before the first element whose path is strictly
/// greater than `p`'s.
fn find_insert_idx(v: &Vec<PageListItem>, p: &PageListItem) -> (idx: usize)
    ensures
        idx <= v@.len(),
        forall|j: int| 0 <= j < idx ==> lex_le(pages_abs(v@)[j].path, p@.path),
        idx < v@.len() ==> lex_lt(p@.path, pages_abs(v@)[idx as int].path),
{
    let mut idx: usize = 0;
    loop
        invariant
            idx <= v@.len(),
            forall|j: int| 0 <= j < idx ==> lex_le(pages_abs(v@)[j].path, p@.path),
        decreases v@.len() - idx,
    {
        if idx == v.len() {
            return idx;
        }
        if str_lt(p.path.as_str(), v[idx].path.as_str()) {
            return idx;
        }
        proof {
            lemma_lex_total(p@.path, v@[idx as int]@.path);
        }
        idx = idx + 1;
    }
}

/// Inserting an element into a sequence adds it to the sequence's multiset.
proof fn lemma_insert_to_multiset(s: Seq<PageAbs>, i: int, x: PageAbs)
    requires
        0 <= i <= s.len(),
    ensures
        s.insert(i, x).to_multiset() =~= s.to_multiset().insert(x),
{
    let left = s.subrange(0, i);
    let right = s.subrange(i, s.len() as int);
    vstd::seq_lib::lemma_multiset_commutative(left.push(x), right);
    vstd::seq_lib::lemma_multiset_commutative(left, right);
    assert(s =~= left + right);
}

/// Places a page into a sorted working set, keeping it sorted.
fn insert_sorted(v: &mut Vec<PageListItem>, p: PageListItem)
    requires
        sorted_by_path(pages_abs(old(v)@)),
    ensures
        sorted_by_path(pages_abs(final(v)@)),
        pages_abs(final(v)@).to_multiset() == pages_abs(old(v)@).to_multiset().insert(p@),
{
    let idx = find_insert_idx(v, &p);
    let ghost olds = pages_abs(v@);
    let ghost pa = p@;
    v.insert(idx, p);
    proof {
        let news = pages_abs(v@);
        assert(news =~= olds.insert(idx as int, pa));
        olds.insert_ensures(idx as int, pa);
        assert forall|i: int, j: int| 0 <= i < j < news.len() implies lex_le(
            #[trigger] news[i].path,
            #[trigger] news[j].path,
        ) by {
            lemma_lex_total(news[i].path, news[i].path);
            lemma_lex_total(news[j].path, news[j].path);
            if i < idx && j < idx {
                assert(news[i] == olds[i] && news[j] == olds[j]);
            } else if j == idx {
                assert(news[i] == olds[i]);
            } else if i == idx {
                // news[j] is an old element at or past the insertion point
                assert(news[j] == olds[j - 1]);
                if idx < olds.len() {
                    lemma_lex_le_trans(pa.path, olds[idx as int].path, olds[j - 1].path);
                }
            } else if i < idx {
                assert(news[i] == olds[i] && news[j] == olds[j - 1]);
            } else {
                assert(news[i] == olds[i - 1] && news[j] == olds[j - 1]);
            }
        }
        lemma_insert_to_multiset(olds, idx as int, pa);
    }
}

/// Every element drawn from the multiset of a filtered sequence satisfies
/// the filter's predicate.
proof fn lemma_multiset_members_satisfy(
    s: Seq<PageAbs>,
    pred: spec_fn(PageAbs) -> bool,
    x: PageAbs,
)
    requires
        s.filter(pred).to_multiset().count(x) > 0,
    ensures
        pred(x),
{
    let f = s.filter(pred);
    assert(f.contains(x));
    let i = choose|i: int| 0 <= i < f.len() && f[i] == x;
    assert(pred(f[i]));
}

/// Filters a raw listing to the pages whose path starts with `prefix` and
/// sorts them ascending by path.
pub fn working_set(list: &Vec<PageListItem>, prefix: &str) -> (out: Vec<PageListItem>)
    ensures
        sorted_by_path(pages_abs(out@)),
        forall|i: int|
            0 <= i < out@.len() ==> is_prefix_of(prefix@, (#[trigger] pages_abs(out@)[i]).path),
        pages_abs(out@).to_multiset() == pages_abs(list@).filter(
            |p: PageAbs| is_prefix_of(prefix@, p.path),
        ).to_multiset(),
{
    let ghost pred = |p: PageAbs| is_prefix_of(prefix@, p.path);
    let mut out: Vec<PageListItem> = Vec::new();
    let mut k: usize = 0;
    proof {
        assert(pages_abs(list@.subrange(0, 0)).filter(pred) =~= Seq::<PageAbs>::empty());
        assert(pages_abs(out@) =~= Seq::<PageAbs>::empty());
    }
    while k < list.len()
        invariant
            k <= list@.len(),
            sorted_by_path(pages_abs(out@)),
            pages_abs(out@).to_multiset() == pages_abs(list@.subrange(0, k as int)).filter(
                pred,
            ).to_multiset(),
            pred == (|p: PageAbs| is_prefix_of(prefix@, p.path)),
        decreases list@.len() - k,
    {
        let p = &list[k];
        let keep = starts_with_prefix(p.path.as_str(), prefix);
        proof {
            reveal(Seq::filter);
            let taken = pages_abs(list@.subrange(0, k + 1));
            assert(taken.drop_last() =~= pages_abs(list@.subrange(0, k as int)));
            assert(taken.last() == list@[k as int]@);
            if pred(list@[k as int]@) {
                assert(taken.filter(pred) == taken.drop_last().filter(pred).push(taken.last()));
            } else {
                assert(taken.filter(pred) == taken.drop_last().filter(pred));
            }
        }
        if keep {
            let c = p.duplicate();
            insert_sorted(&mut out, c);
        }
        k = k + 1;
    }
    proof {
        assert(list@.subrange(0, list@.len() as int) =~= list@);
        let pabs = pages_abs(out@);
        assert forall|i: int| 0 <= i < out@.len() implies is_prefix_of(
            prefix@,
            (#[trigger] pages_abs(out@)[i]).path,
        ) by {
            assert(pabs.to_multiset().count(pabs[i]) > 0) by {
                assert(pabs.contains(pabs[i]));
            }
            lemma_multiset_members_satisfy(pages_abs(list@), pred, pabs[i]);
        }
    }
    out
}

/// Builds the working set from a raw listing reply: records the size of the
/// raw listing, filters by `prefix` and sorts by path. A reply missing its
/// payload or its listing field is a contract violation.
pub fn build_working_set(reply: Option<ListAllPages>, prefix: &str) -> (r: Result<
    ListPages,
    WikiError,
>)
    ensures
        match r {
            Result::Ok(ls) => {
                &&& reply matches Option::Some(lap)
                &&& lap.pages matches Option::Some(pq)
                &&& ls.pages_returned == pq.list@.len()
                &&& sorted_by_path(pages_abs(ls.pages@))
                &&& forall|i: int|
                    0 <= i < ls.pages@.len() ==> is_prefix_of(
                        prefix@,
                        (#[trigger] pages_abs(ls.pages@)[i]).path,
                    )
                &&& pages_abs(ls.pages@).to_multiset() == pages_abs(pq.list@).filter(
                    |p: PageAbs| is_prefix_of(prefix@, p.path),
                ).to_multiset()
            },
            Result::Err(e) => {
                ||| (reply matches Option::None && e == WikiError::BackendContract(
                    MissingField::Data,
                ))
                ||| (reply matches Option::Some(lap) && lap.pages matches Option::None && e
                    == WikiError::BackendContract(MissingField::Pages))
            },
        },
{
    match reply {
        Option::None => Result::Err(WikiError::BackendContract(MissingField::Data)),
        Option::Some(lap) => match lap.pages {
            Option::None => Result::Err(WikiError::BackendContract(MissingField::Pages)),
            Option::Some(pq) => {
                let pages_returned = pq.list.len();
                let pages = working_set(&pq.list, prefix);
                Result::Ok(ListPages { pages, pages_returned })
            },
        },
    }
}

} // verus!
