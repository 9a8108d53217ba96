use vstd::prelude::*;
use crate::records::DbJobAd;
use crate::search::SearchMode;

verus! {

/// Why one partition's fetch failed.  A transport failure and a body that
/// does not decode are treated alike: both abort that partition alone.
#[derive(Clone, Copy, PartialEq, Eq, Structural, Debug)]
pub enum FetchError {
    Transport,
    Decode,
}

/// What one partition's fetch came to.
#[derive(Debug)]
pub enum PartitionOutcome {
    Fetched { records: Vec<DbJobAd> },
    Failed { error: FetchError },
}

/// The records of the successful outcomes, in outcome order.
pub open spec fn merged_of(os: Seq<PartitionOutcome>) -> Seq<DbJobAd>
    decreases os.len(),
{
    if os.len() == 0 {
        Seq::empty()
    } else {
        (match os[0] {
            PartitionOutcome::Fetched { records } => records@,
            PartitionOutcome::Failed { .. } => Seq::empty(),
        }) + merged_of(os.drop_first())
    }
}

/// The errors of the failed outcomes, in outcome order.
pub open spec fn failures_of(os: Seq<PartitionOutcome>) -> Seq<FetchError>
    decreases os.len(),
{
    if os.len() == 0 {
        Seq::empty()
    } else {
        (match os[0] {
            PartitionOutcome::Fetched { .. } => Seq::empty(),
            PartitionOutcome::Failed { error } => seq![error],
        }) + failures_of(os.drop_first())
    }
}

/// Joins all partition outcomes of a run: every successful partition
/// contributes its records to one merged batch, every failed partition
/// contributes its error to a separate list.  One partition's failure
/// neither discards a sibling's records nor fails the run.
pub fn merge_outcomes(outcomes: Vec<PartitionOutcome>) -> (r: (Vec<DbJobAd>, Vec<FetchError>))
    ensures
        r.0@ == merged_of(outcomes@),
        r.1@ == failures_of(outcomes@),
{
    let ghost o0 = outcomes@;
    let mut rest = outcomes;
    let mut merged: Vec<DbJobAd> = Vec::new();
    let mut failures: Vec<FetchError> = Vec::new();
    while rest.len() > 0
        invariant
            rest@.len() <= o0.len(),
            rest@ == o0.skip(o0.len() - rest@.len()),
            merged@ + merged_of(rest@) == merged_of(o0),
            failures@ + failures_of(rest@) == failures_of(o0),
        decreases rest@.len(),
    {
        let ghost pre_rest = rest@;
        let ghost pre_merged = merged@;
        let ghost pre_failures = failures@;
        let oc = rest.remove(0);
        proof {
            assert(oc == pre_rest[0]);
            assert(rest@ =~= pre_rest.drop_first());
        }
        match oc {
            PartitionOutcome::Fetched { records } => {
                let ghost recs = records@;
                let mut records = records;
                merged.append(&mut records);
                proof {
                    assert(merged@ + merged_of(rest@) =~= pre_merged + merged_of(pre_rest));
                    assert(failures@ + failures_of(rest@) =~= pre_failures + failures_of(
                        pre_rest,
                    ));
                }
            },
            PartitionOutcome::Failed { error } => {
                failures.push(error);
                proof {
                    assert(merged@ + merged_of(rest@) =~= pre_merged + merged_of(pre_rest));
                    assert(failures@ + failures_of(rest@) =~= pre_failures + failures_of(
                        pre_rest,
                    ));
                }
            },
        }
    }
    proof {
        assert(merged@ + merged_of(rest@) =~= merged@);
        assert(failures@ + failures_of(rest@) =~= failures@);
    }
    (merged, failures)
}

/// The four independent top-level jobs of a whole-board run: the primary
/// sweep, the external sweep, the abroad sweep and the unspecified-workplace
/// sweep.  They run concurrently and are isolated from one another; the run
/// is complete when all four have finished.
pub fn all_jobs_modes() -> (ms: Vec<SearchMode>)
    ensures
        ms@.len() == 4,
        ms@[0] is AllRegionsPrimary,
        ms@[1] is AllRegionsExternal,
        ms@[2] is Abroad,
        ms@[3] is UnspecifiedWorkplace,
{
    let mut ms: Vec<SearchMode> = Vec::new();
    ms.push(SearchMode::AllRegionsPrimary);
    ms.push(SearchMode::AllRegionsExternal);
    ms.push(SearchMode::Abroad);
    ms.push(SearchMode::UnspecifiedWorkplace);
    ms
}

} // verus!
