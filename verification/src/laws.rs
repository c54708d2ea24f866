//! What holds of every classification, proved of the functions in which the
//! contracts of [`crate::analysis`] are written.

use vstd::prelude::*;
use crate::analysis::{
    analysis, large_download_change, prior_record, report_for, ReportCrateView,
    LARGE_DOWNLOAD_CHANGE,
};
use crate::snapshot::{unique_names, CrateInfoView, ReverseDepView};

verus! {

/// A name has no prior record exactly when no record of the prior snapshot
/// carries it.
pub proof fn lemma_prior_record_absent(prior: Seq<CrateInfoView>, name: Seq<char>)
    ensures
        prior_record(prior, name) is None <==> forall|j: int|
            0 <= j < prior.len() ==> (#[trigger] prior[j]).name != name,
    decreases prior.len(),
{
    if prior.len() > 0 {
        let front = prior.drop_last();
        lemma_prior_record_absent(front, name);
        if prior.last().name != name {
            if prior_record(prior, name) is None {
                assert forall|j: int| 0 <= j < prior.len() implies (#[trigger] prior[j]).name
                    != name by {
                    if j < front.len() {
                        assert(front[j].name != name);
                    }
                }
            } else {
                let j = choose|j: int| 0 <= j < front.len() && (#[trigger] front[j]).name == name;
                assert(prior[j].name == name);
            }
        }
    }
}

/// The prior record of a name, where there is one, is a record of the prior
/// snapshot that carries that name, and no later record carries it.
pub proof fn lemma_prior_record_found(prior: Seq<CrateInfoView>, name: Seq<char>)
    requires
        prior_record(prior, name) is Some,
    ensures
        exists|j: int|
            {
                &&& 0 <= j < prior.len()
                &&& #[trigger] prior[j] == prior_record(prior, name)->0
                &&& prior[j].name == name
                &&& forall|k: int| j < k < prior.len() ==> (#[trigger] prior[k]).name != name
            },
    decreases prior.len(),
{
    if prior.last().name == name {
        let j = prior.len() - 1;
        assert(prior[j] == prior_record(prior, name)->0);
    } else {
        let front = prior.drop_last();
        lemma_prior_record_found(front, name);
        let j = choose|j: int|
            {
                &&& 0 <= j < front.len()
                &&& #[trigger] front[j] == prior_record(front, name)->0
                &&& front[j].name == name
                &&& forall|k: int| j < k < front.len() ==> (#[trigger] front[k]).name != name
            };
        assert(prior[j] == prior_record(prior, name)->0);
        assert forall|k: int| j < k < prior.len() implies (#[trigger] prior[k]).name != name by {
            if k < front.len() {
                assert(front[k].name != name);
            }
        }
    }
}

/// In a snapshot whose names are unique, the prior record of a name is the
/// one record that carries it.
pub proof fn lemma_prior_record_unique(prior: Seq<CrateInfoView>, j: int)
    requires
        unique_names(prior),
        0 <= j < prior.len(),
    ensures
        prior_record(prior, prior[j].name) == Some(prior[j]),
{
    let name = prior[j].name;
    lemma_prior_record_absent(prior, name);
    lemma_prior_record_found(prior, name);
    let k = choose|k: int|
        {
            &&& 0 <= k < prior.len()
            &&& #[trigger] prior[k] == prior_record(prior, name)->0
            &&& prior[k].name == name
            &&& forall|m: int| k < m < prior.len() ==> (#[trigger] prior[m]).name != name
        };
    if k < j {
        assert(prior[k].name != prior[j].name);
    } else if j < k {
        assert(prior[j].name != prior[k].name);
    }
}

/// The classification is total and keeps the order: it has one line for each
/// current record, and line `i` is about current record `i`.
pub proof fn lemma_analysis_total_and_ordered(
    current: Seq<CrateInfoView>,
    prior: Seq<CrateInfoView>,
)
    ensures
        analysis(current, prior).len() == current.len(),
        forall|i: int|
            0 <= i < current.len() ==> {
                &&& (#[trigger] analysis(current, prior)[i]).info == current[i]
                &&& analysis(current, prior)[i].changes.name == current[i].name
            },
{
}

/// Where the two snapshots share no name, every line reports a new package.
pub proof fn lemma_disjoint_snapshots_all_new(
    current: Seq<CrateInfoView>,
    prior: Seq<CrateInfoView>,
)
    requires
        forall|i: int, j: int|
            0 <= i < current.len() && 0 <= j < prior.len() ==> (#[trigger] current[i]).name != (
            #[trigger] prior[j]).name,
    ensures
        forall|i: int|
            0 <= i < current.len() ==> (#[trigger] analysis(current, prior)[i]).changes.new_crate,
{
    assert forall|i: int| 0 <= i < current.len() implies (#[trigger] analysis(
        current,
        prior,
    )[i]).changes.new_crate by {
        lemma_prior_record_absent(prior, current[i].name);
        assert forall|j: int| 0 <= j < prior.len() implies (#[trigger] prior[j]).name
            != current[i].name by {
            assert(current[i].name != prior[j].name);
        }
    }
}

/// Where every current record is also a record of the prior snapshot, the
/// prior snapshot's names are unique and none of its recorded changes in
/// downloads is large, no line is worth reporting.
pub proof fn lemma_unchanged_snapshot_is_quiet(
    current: Seq<CrateInfoView>,
    prior: Seq<CrateInfoView>,
)
    requires
        unique_names(prior),
        forall|i: int| 0 <= i < current.len() ==> prior.contains(#[trigger] current[i]),
        forall|j: int|
            0 <= j < prior.len() ==> !large_download_change(#[trigger] prior[j]),
    ensures
        forall|i: int|
            0 <= i < current.len() ==> !(#[trigger] analysis(current, prior)[i]).changes.actionable(),
{
    assert forall|i: int| 0 <= i < current.len() implies !(#[trigger] analysis(
        current,
        prior,
    )[i]).changes.actionable() by {
        assert(prior.contains(current[i]));
        let j = choose|j: int| 0 <= j < prior.len() && prior[j] == current[i];
        lemma_prior_record_unique(prior, j);
        assert(prior_record(prior, current[i].name) == Some(prior[j]));
        assert(!large_download_change(prior[j]));
    }
}

/// A package whose prior record carries a change in downloads above the
/// threshold is flagged for it, whatever the current record holds.
pub proof fn lemma_large_recorded_change_is_flagged(
    current: Seq<CrateInfoView>,
    prior: Seq<CrateInfoView>,
    i: int,
)
    requires
        0 <= i < current.len(),
        prior_record(prior, current[i].name) matches Some(p) && p.change_in_downloads matches Some(
            delta,
        ) && delta > LARGE_DOWNLOAD_CHANGE,
    ensures
        analysis(current, prior)[i].changes.large_change_in_dl,
{
}

/// The comparison of dependents goes by position: where the current list
/// differs from the prior list at one position, be it only in the version
/// depended upon, the line reports a change of dependents.
pub proof fn lemma_differing_dependent_is_flagged(
    current: Seq<CrateInfoView>,
    prior: Seq<CrateInfoView>,
    i: int,
    k: int,
)
    requires
        0 <= i < current.len(),
        prior_record(prior, current[i].name) matches Some(p) && {
            &&& 0 <= k < p.reverse_deps.len()
            &&& k < current[i].reverse_deps.len()
            &&& !current[i].reverse_deps[k].same(p.reverse_deps[k])
        },
    ensures
        analysis(current, prior)[i].changes.new_rev_dep,
{
}

/// The order of the dependents counts: where the current list is the prior
/// list with two unequal dependents exchanged, the line reports a change of
/// dependents.
pub proof fn lemma_reordered_dependents_are_flagged(
    current: Seq<CrateInfoView>,
    prior: Seq<CrateInfoView>,
    i: int,
    a: int,
    b: int,
)
    requires
        0 <= i < current.len(),
        prior_record(prior, current[i].name) matches Some(p) && {
            &&& 0 <= a < p.reverse_deps.len()
            &&& 0 <= b < p.reverse_deps.len()
            &&& !p.reverse_deps[a].same(p.reverse_deps[b])
            &&& current[i].reverse_deps == p.reverse_deps.update(a, p.reverse_deps[b]).update(
                b,
                p.reverse_deps[a],
            )
        },
    ensures
        analysis(current, prior)[i].changes.new_rev_dep,
{
    let p = prior_record(prior, current[i].name)->0;
    assert(current[i].reverse_deps[b] == p.reverse_deps[a]);
    lemma_same_dependent_is_symmetric(p.reverse_deps[a], p.reverse_deps[b]);
    lemma_differing_dependent_is_flagged(current, prior, i, b);
}

/// The comparison of two dependents does not depend on their order.
proof fn lemma_same_dependent_is_symmetric(
    x: ReverseDepView,
    y: ReverseDepView,
)
    ensures
        x.same(y) == y.same(x),
{
}

/// What a run owes: one line for each current record, in order, each made by
/// the rules from the record and the prior record of its name.
pub open spec fn is_analysis_of(
    result: Seq<ReportCrateView>,
    current: Seq<CrateInfoView>,
    prior: Seq<CrateInfoView>,
) -> bool {
    &&& result.len() == current.len()
    &&& forall|i: int|
        0 <= i < current.len() ==> #[trigger] result[i] == report_for(
            current[i],
            prior_record(prior, current[i].name),
        )
}

/// Exactly one result is what a run owes on given snapshots.
pub proof fn lemma_analysis_is_the_only_result(
    current: Seq<CrateInfoView>,
    prior: Seq<CrateInfoView>,
    result: Seq<ReportCrateView>,
)
    ensures
        is_analysis_of(result, current, prior) <==> result == analysis(current, prior),
{
    if is_analysis_of(result, current, prior) {
        assert(result =~= analysis(current, prior));
    }
}

/// Two runs on the same snapshots agree: whatever two runs return for them is
/// the same, line by line.
pub proof fn lemma_repeated_runs_agree(
    current: Seq<CrateInfoView>,
    prior: Seq<CrateInfoView>,
    first: Seq<ReportCrateView>,
    second: Seq<ReportCrateView>,
)
    requires
        is_analysis_of(first, current, prior),
        is_analysis_of(second, current, prior),
    ensures
        first == second,
{
    lemma_analysis_is_the_only_result(current, prior, first);
    lemma_analysis_is_the_only_result(current, prior, second);
}

} // verus!
