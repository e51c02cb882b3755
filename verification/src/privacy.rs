//! The privacy guard: finds the pages of a working set that are marked
//! private, by tag or by path.
//!
//! A page is private when its tag set holds the literal tag `private`, or
//! when its path contains the substring `private` anywhere — a deliberately
//! broad heuristic, not a path-segment test.

use vstd::prelude::*;

use crate::catalog::pages_abs;
use crate::queries::PageAbs;
use crate::queries::PageListItem;
use crate::strutil::contains_seq;
use crate::strutil::contains_sub;

verus! {

/// The page carries the literal tag `private`.
pub open spec fn has_private_tag(p: PageAbs) -> bool {
    match p.tags {
        Option::Some(ts) => ts.contains(Option::Some("private"@)),
        Option::None => false,
    }
}

/// The page is privacy-sensitive: tagged `private`, or `private` occurs in
/// its path.
pub open spec fn is_private(p: PageAbs) -> bool {
    has_private_tag(p) || contains_seq(p.path, "private"@)
}

/// A page carrying the tag `private` is classified private; so is a page
/// whose path contains `private` anywhere; a page with neither is not.
pub proof fn lemma_privacy_classification(p: PageAbs)
    ensures
        has_private_tag(p) ==> is_private(p),
        contains_seq(p.path, "private"@) ==> is_private(p),
        !has_private_tag(p) && !contains_seq(p.path, "private"@) ==> !is_private(p),
{
}

/// Tests whether a tag list holds the literal tag `private`.
fn tags_hold_private(ts: &Vec<Option<String>>) -> (r: bool)
    ensures
        r == ts.deep_view().contains(Option::Some("private"@)),
{
    let needle: String = "private".to_owned();
    let mut i: usize = 0;
    while i < ts.len()
        invariant
            i <= ts@.len(),
            needle@ == "private"@,
            forall|j: int| 0 <= j < i ==> ts.deep_view()[j] != Option::Some("private"@),
        decreases ts@.len() - i,
    {
        match &ts[i] {
            Option::Some(t) => {
                if *t == needle {
                    proof {
                        assert(ts.deep_view()[i as int] == Option::Some("private"@));
                    }
                    return true;
                }
            },
            Option::None => {},
        }
        proof {
            assert(ts.deep_view()[i as int] != Option::Some("private"@));
        }
        i = i + 1;
    }
    false
}

/// Tests whether one page is privacy-sensitive.
pub fn page_is_private(p: &PageListItem) -> (r: bool)
    ensures
        r == is_private(p@),
{
    let tag_hit = match &p.tags {
        Option::Some(ts) => tags_hold_private(ts),
        Option::None => false,
    };
    if tag_hit {
        true
    } else {
        contains_sub(p.path.as_str(), "private")
    }
}

/// Returns the privacy-sensitive pages of a working set, in their original
/// order, or nothing when no page is private — so callers can skip the
/// privacy warning step entirely.
pub fn classify_private(pages: &Vec<PageListItem>) -> (r: Option<Vec<PageListItem>>)
    ensures
        match r {
            Option::Some(v) => {
                &&& v@.len() > 0
                &&& pages_abs(v@) == pages_abs(pages@).filter(|p: PageAbs| is_private(p))
            },
            Option::None => pages_abs(pages@).filter(|p: PageAbs| is_private(p)).len() == 0,
        },
{
    let ghost pred = |p: PageAbs| is_private(p);
    let mut out: Vec<PageListItem> = Vec::new();
    let mut k: usize = 0;
    proof {
        reveal(Seq::filter);
        assert(pages_abs(pages@.subrange(0, 0)).filter(pred) =~= Seq::<PageAbs>::empty());
        assert(pages_abs(out@) =~= Seq::<PageAbs>::empty());
    }
    while k < pages.len()
        invariant
            k <= pages@.len(),
            pages_abs(out@) == pages_abs(pages@.subrange(0, k as int)).filter(pred),
            pred == (|p: PageAbs| is_private(p)),
        decreases pages@.len() - k,
    {
        let p = &pages[k];
        let private = page_is_private(p);
        proof {
            reveal(Seq::filter);
            let taken = pages_abs(pages@.subrange(0, k + 1));
            assert(taken.drop_last() =~= pages_abs(pages@.subrange(0, k as int)));
            assert(taken.last() == pages@[k as int]@);
            if pred(pages@[k as int]@) {
                assert(taken.filter(pred) == taken.drop_last().filter(pred).push(taken.last()));
            } else {
                assert(taken.filter(pred) == taken.drop_last().filter(pred));
            }
        }
        if private {
            let c = p.duplicate();
            let ghost prev = pages_abs(out@);
            out.push(c);
            proof {
                assert(pages_abs(out@) =~= prev.push(c@));
            }
        }
        k = k + 1;
    }
    proof {
        assert(pages@.subrange(0, pages@.len() as int) =~= pages@);
    }
    if out.len() == 0 {
        proof {
            assert(pages_abs(out@) =~= Seq::<PageAbs>::empty());
        }
        Option::None
    } else {
        Option::Some(out)
    }
}

} // verus!
