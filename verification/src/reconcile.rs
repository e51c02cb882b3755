//! The outcome reconciler: turns the decoded replies of a dispatched batch
//! into a single report.
//!
//! Each decoded reply nests its response status behind optional objects; a
//! reply missing the status at any level is neither a confirmed success nor
//! a reported failure, and is dropped from both counts. The remaining
//! statuses are partitioned by their success flag: successes are counted,
//! failures are listed in full, and an absent failure list is the explicit
//! signal of a fully clean batch.

use vstd::prelude::*;

use crate::queries::DefaultResponse;
use crate::queries::MoveSinglePage;
use crate::queries::ResponseStatus;
use crate::queries::StatusAbs;

verus! {

/// Reply envelope of the single-page tag mutation.
#[derive(Debug)]
pub struct TagSinglePage {
    pub pages: Option<PageTagMutation>,
}

/// Payload of a tag mutation reply.
#[derive(Debug)]
pub struct PageTagMutation {
    pub update: Option<DefaultResponse>,
}

/// The status nested in a mutation response, when present at every level.
pub open spec fn response_status_of(d: Option<DefaultResponse>) -> Option<StatusAbs> {
    match d {
        Option::Some(dr) => match dr.response_result {
            Option::Some(st) => Option::Some(st@),
            Option::None => Option::None,
        },
        Option::None => Option::None,
    }
}

/// The status of one decoded move reply, when present at every level.
pub open spec fn reply_status(r: Option<MoveSinglePage>) -> Option<StatusAbs> {
    match r {
        Option::Some(m) => match m.pages {
            Option::Some(pm) => response_status_of(pm.move_),
            Option::None => Option::None,
        },
        Option::None => Option::None,
    }
}

/// The status of one decoded tag reply, when present at every level.
pub open spec fn tag_reply_status(r: Option<TagSinglePage>) -> Option<StatusAbs> {
    match r {
        Option::Some(m) => match m.pages {
            Option::Some(pm) => response_status_of(pm.update),
            Option::None => Option::None,
        },
        Option::None => Option::None,
    }
}

/// The statuses of a sequence of decoded move replies.
pub open spec fn move_statuses(rs: Seq<Option<MoveSinglePage>>) -> Seq<Option<StatusAbs>> {
    rs.map_values(|r: Option<MoveSinglePage>| reply_status(r))
}

/// The statuses of a sequence of decoded tag replies.
pub open spec fn tag_statuses(rs: Seq<Option<TagSinglePage>>) -> Seq<Option<StatusAbs>> {
    rs.map_values(|r: Option<TagSinglePage>| tag_reply_status(r))
}

/// The views of a sequence of statuses.
pub open spec fn statuses_abs(s: Seq<ResponseStatus>) -> Seq<StatusAbs> {
    s.map_values(|st: ResponseStatus| st@)
}

/// The statuses present in a batch, in reply order.
pub open spec fn extracted_of(sts: Seq<Option<StatusAbs>>) -> Seq<StatusAbs>
    decreases sts.len(),
{
    if sts.len() == 0 {
        Seq::empty()
    } else {
        extracted_of(sts.drop_last()) + match sts.last() {
            Option::Some(s) => seq![s],
            Option::None => Seq::empty(),
        }
    }
}

/// The number of confirmed successes in a batch.
pub open spec fn success_count_of(sts: Seq<Option<StatusAbs>>) -> int
    decreases sts.len(),
{
    if sts.len() == 0 {
        0
    } else {
        success_count_of(sts.drop_last()) + match sts.last() {
            Option::Some(s) => if s.succeeded {
                1 as int
            } else {
                0 as int
            },
            Option::None => 0 as int,
        }
    }
}

/// The explicitly failed statuses of a batch, in reply order.
pub open spec fn failed_of(sts: Seq<Option<StatusAbs>>) -> Seq<StatusAbs>
    decreases sts.len(),
{
    if sts.len() == 0 {
        Seq::empty()
    } else {
        failed_of(sts.drop_last()) + match sts.last() {
            Option::Some(s) => if !s.succeeded {
                seq![s]
            } else {
                Seq::empty()
            },
            Option::None => Seq::empty(),
        }
    }
}

/// Aggregate result of a batch of page moves: the count of confirmed
/// successes, and the explicit failures, present only when at least one
/// mutation failed.
#[derive(Debug)]
pub struct MoveSuccess {
    pub success_count: usize,
    pub failures: Option<Vec<ResponseStatus>>,
}

/// Finds the status of one decoded move reply.
fn extract_move_status(reply: &Option<MoveSinglePage>) -> (r: Option<&ResponseStatus>)
    ensures
        match r {
            Option::Some(st) => reply_status(*reply) == Option::Some(st@),
            Option::None => reply_status(*reply) == Option::<StatusAbs>::None,
        },
{
    match reply {
        Option::Some(m) => match &m.pages {
            Option::Some(pm) => match &pm.move_ {
                Option::Some(dr) => match &dr.response_result {
                    Option::Some(st) => Option::Some(st),
                    Option::None => Option::None,
                },
                Option::None => Option::None,
            },
            Option::None => Option::None,
        },
        Option::None => Option::None,
    }
}

/// Finds the status of one decoded tag reply.
fn extract_tag_status(reply: &Option<TagSinglePage>) -> (r: Option<&ResponseStatus>)
    ensures
        match r {
            Option::Some(st) => tag_reply_status(*reply) == Option::Some(st@),
            Option::None => tag_reply_status(*reply) == Option::<StatusAbs>::None,
        },
{
    match reply {
        Option::Some(m) => match &m.pages {
            Option::Some(pm) => match &pm.update {
                Option::Some(dr) => match &dr.response_result {
                    Option::Some(st) => Option::Some(st),
                    Option::None => Option::None,
                },
                Option::None => Option::None,
            },
            Option::None => Option::None,
        },
        Option::None => Option::None,
    }
}

/// Reconciles the decoded replies of a move batch into its report.
pub fn reconcile(replies: &Vec<Option<MoveSinglePage>>) -> (r: MoveSuccess)
    ensures
        r.success_count == success_count_of(move_statuses(replies@)),
        match r.failures {
            Option::None => failed_of(move_statuses(replies@)).len() == 0,
            Option::Some(f) => f@.len() > 0 && statuses_abs(f@) == failed_of(
                move_statuses(replies@),
            ),
        },
{
    let ghost sts = move_statuses(replies@);
    let mut count: usize = 0;
    let mut fails: Vec<ResponseStatus> = Vec::new();
    let mut k: usize = 0;
    proof {
        assert(sts.subrange(0, 0) =~= Seq::<Option<StatusAbs>>::empty());
        assert(statuses_abs(fails@) =~= Seq::<StatusAbs>::empty());
    }
    while k < replies.len()
        invariant
            k <= replies@.len(),
            sts == move_statuses(replies@),
            sts.len() == replies@.len(),
            count == success_count_of(sts.subrange(0, k as int)),
            count <= k,
            statuses_abs(fails@) == failed_of(sts.subrange(0, k as int)),
        decreases replies@.len() - k,
    {
        proof {
            let taken = sts.subrange(0, k + 1);
            assert(taken.drop_last() =~= sts.subrange(0, k as int));
            assert(taken.last() == reply_status(replies@[k as int]));
        }
        match extract_move_status(&replies[k]) {
            Option::Some(st) => {
                if st.succeeded {
                    count = count + 1;
                } else {
                    let ghost prev = statuses_abs(fails@);
                    let dup = st.duplicate();
                    fails.push(dup);
                    proof {
                        assert(statuses_abs(fails@) =~= prev.push(dup@));
                        assert(statuses_abs(fails@) =~= failed_of(sts.subrange(0, k + 1)));
                    }
                }
            },
            Option::None => {},
        }
        k = k + 1;
    }
    proof {
        assert(sts.subrange(0, replies@.len() as int) =~= sts);
    }
    if fails.len() == 0 {
        proof {
            assert(statuses_abs(fails@) =~= Seq::<StatusAbs>::empty());
        }
        MoveSuccess { success_count: count, failures: Option::None }
    } else {
        MoveSuccess { success_count: count, failures: Option::Some(fails) }
    }
}

/// Aggregate result of a tagging batch: the move report's fields, plus the
/// derived safety tag and the complete tag list that was requested —
/// including tags that may have failed — so operators can verify or clean
/// up after a partial failure.
#[derive(Debug)]
pub struct TagSuccess {
    pub success_count: usize,
    pub failures: Option<Vec<ResponseStatus>>,
    pub safety_tag: String,
    pub tags_applied: Vec<String>,
}

/// Reconciles the decoded replies of a tagging batch into its report.
pub fn reconcile_tag_replies(
    replies: &Vec<Option<TagSinglePage>>,
    safety_tag: String,
    tags_applied: Vec<String>,
) -> (r: TagSuccess)
    ensures
        r.success_count == success_count_of(tag_statuses(replies@)),
        match r.failures {
            Option::None => failed_of(tag_statuses(replies@)).len() == 0,
            Option::Some(f) => f@.len() > 0 && statuses_abs(f@) == failed_of(
                tag_statuses(replies@),
            ),
        },
        r.safety_tag == safety_tag,
        r.tags_applied == tags_applied,
{
    let ghost sts = tag_statuses(replies@);
    let mut count: usize = 0;
    let mut fails: Vec<ResponseStatus> = Vec::new();
    let mut k: usize = 0;
    proof {
        assert(sts.subrange(0, 0) =~= Seq::<Option<StatusAbs>>::empty());
        assert(statuses_abs(fails@) =~= Seq::<StatusAbs>::empty());
    }
    while k < replies.len()
        invariant
            k <= replies@.len(),
            sts == tag_statuses(replies@),
            sts.len() == replies@.len(),
            count == success_count_of(sts.subrange(0, k as int)),
            count <= k,
            statuses_abs(fails@) == failed_of(sts.subrange(0, k as int)),
        decreases replies@.len() - k,
    {
        proof {
            let taken = sts.subrange(0, k + 1);
            assert(taken.drop_last() =~= sts.subrange(0, k as int));
            assert(taken.last() == tag_reply_status(replies@[k as int]));
        }
        match extract_tag_status(&replies[k]) {
            Option::Some(st) => {
                if st.succeeded {
                    count = count + 1;
                } else {
                    let ghost prev = statuses_abs(fails@);
                    let dup = st.duplicate();
                    fails.push(dup);
                    proof {
                        assert(statuses_abs(fails@) =~= prev.push(dup@));
                        assert(statuses_abs(fails@) =~= failed_of(sts.subrange(0, k + 1)));
                    }
                }
            },
            Option::None => {},
        }
        k = k + 1;
    }
    proof {
        assert(sts.subrange(0, replies@.len() as int) =~= sts);
    }
    if fails.len() == 0 {
        proof {
            assert(statuses_abs(fails@) =~= Seq::<StatusAbs>::empty());
        }
        TagSuccess { success_count: count, failures: Option::None, safety_tag, tags_applied }
    } else {
        TagSuccess { success_count: count, failures: Option::Some(fails), safety_tag, tags_applied }
    }
}

/// The report partitions the statuses present in a batch: the successes are
/// counted, the failures are listed in reply order with their original
/// values, and a batch whose statuses all report success has every reply
/// counted and nothing listed.
pub proof fn lemma_reconcile_partition(sts: Seq<Option<StatusAbs>>)
    ensures
        success_count_of(sts) == extracted_of(sts).filter(|s: StatusAbs| s.succeeded).len(),
        failed_of(sts) == extracted_of(sts).filter(|s: StatusAbs| !s.succeeded),
        (forall|i: int|
            0 <= i < sts.len() ==> ((#[trigger] sts[i]) matches Option::Some(s) && s.succeeded))
            ==> success_count_of(sts) == sts.len() && failed_of(sts).len() == 0,
    decreases sts.len(),
{
    reveal(Seq::filter);
    let ok = |s: StatusAbs| s.succeeded;
    let bad = |s: StatusAbs| !s.succeeded;
    if sts.len() == 0 {
        assert(extracted_of(sts).filter(ok) =~= Seq::<StatusAbs>::empty());
        assert(extracted_of(sts).filter(bad) =~= Seq::<StatusAbs>::empty());
    } else {
        let rest = sts.drop_last();
        lemma_reconcile_partition(rest);
        let tail = match sts.last() {
            Option::Some(s) => seq![s],
            Option::None => Seq::<StatusAbs>::empty(),
        };
        assert(extracted_of(sts) == extracted_of(rest) + tail);
        Seq::filter_distributes_over_add(extracted_of(rest), tail, ok);
        Seq::filter_distributes_over_add(extracted_of(rest), tail, bad);
        match sts.last() {
            Option::Some(s) => {
                assert(tail.drop_last() =~= Seq::<StatusAbs>::empty());
                assert(Seq::<StatusAbs>::empty().filter(ok) =~= Seq::<StatusAbs>::empty());
                assert(Seq::<StatusAbs>::empty().filter(bad) =~= Seq::<StatusAbs>::empty());
                if s.succeeded {
                    assert(tail.filter(ok) =~= seq![s]);
                    assert(tail.filter(bad) =~= Seq::<StatusAbs>::empty());
                } else {
                    assert(tail.filter(ok) =~= Seq::<StatusAbs>::empty());
                    assert(tail.filter(bad) =~= seq![s]);
                }
            },
            Option::None => {
                assert(tail.filter(ok) =~= Seq::<StatusAbs>::empty());
                assert(tail.filter(bad) =~= Seq::<StatusAbs>::empty());
            },
        }
        assert(failed_of(sts) =~= failed_of(rest) + tail.filter(bad));
        if forall|i: int|
            0 <= i < sts.len() ==> ((#[trigger] sts[i]) matches Option::Some(s) && s.succeeded) {
            assert forall|i: int|
                0 <= i < rest.len() implies ((#[trigger] rest[i]) matches Option::Some(s)
                && s.succeeded) by {
                assert(rest[i] == sts[i]);
            }
            assert(sts.last() == sts[sts.len() - 1]);
        }
    }
}

} // verus!
