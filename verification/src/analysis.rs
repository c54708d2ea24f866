//! Classification of what changed between two snapshots.
//!
//! Every package of the current snapshot is compared with the record of the
//! same name in the prior snapshot, if there is one, under three rules that
//! do not depend on each other: the package is new, its recorded change in
//! downloads is large, its list of dependents differs.

use vstd::prelude::*;
use vstd::hash_map::StringHashMap;
use crate::snapshot::{
    reverse_deps_equal, same_reverse_deps, snapshot_view, CrateInfo, CrateInfoView,
};

verus! {

/// A recorded change in downloads above this counts as large.
pub const LARGE_DOWNLOAD_CHANGE: usize = 100;

/// What was found out about one package of the current snapshot.
#[derive(Debug)]
pub struct CrateChanges {
    /// The package's name.
    pub name: String,
    /// The prior snapshot has no record of this name.
    pub new_crate: bool,
    /// The prior record's change in downloads is above
    /// [`LARGE_DOWNLOAD_CHANGE`].
    pub large_change_in_dl: bool,
    /// The list of dependents is not the one of the prior record or, for a
    /// new package, is not empty.
    pub new_rev_dep: bool,
}

/// What a [`CrateChanges`] stands for in contracts.
pub struct CrateChangesView {
    pub name: Seq<char>,
    pub new_crate: bool,
    pub large_change_in_dl: bool,
    pub new_rev_dep: bool,
}

impl CrateChangesView {
    /// A result is worth reporting when any of its three flags is set.
    pub open spec fn actionable(self) -> bool {
        self.new_crate || self.large_change_in_dl || self.new_rev_dep
    }
}

impl View for CrateChanges {
    type V = CrateChangesView;

    open spec fn view(&self) -> CrateChangesView {
        CrateChangesView {
            name: self.name@,
            new_crate: self.new_crate,
            large_change_in_dl: self.large_change_in_dl,
            new_rev_dep: self.new_rev_dep,
        }
    }
}

impl Default for CrateChanges {
    fn default() -> (r: Self)
        ensures
            r@ == (CrateChangesView {
                name: Seq::<char>::empty(),
                new_crate: false,
                large_change_in_dl: false,
                new_rev_dep: false,
            }),
    {
        CrateChanges {
            name: String::new(),
            new_crate: false,
            large_change_in_dl: false,
            new_rev_dep: false,
        }
    }
}

impl CrateChanges {
    /// Whether any of the three flags is set.
    pub fn any_changes(&self) -> (r: bool)
        ensures
            r == self@.actionable(),
    {
        self.new_crate || self.large_change_in_dl || self.new_rev_dep
    }
}

/// One line of the report: a package as it is now, the record it was compared
/// with, and the outcome.
#[derive(Debug)]
pub struct ReportCrate {
    /// The current record.
    pub info: CrateInfo,
    /// The prior record of the same name; for a new package a copy of the
    /// current record.
    pub old_info: CrateInfo,
    /// The outcome of the comparison.
    pub changes: CrateChanges,
}

/// What a [`ReportCrate`] stands for in contracts.
pub struct ReportCrateView {
    pub info: CrateInfoView,
    pub old_info: CrateInfoView,
    pub changes: CrateChangesView,
}

impl View for ReportCrate {
    type V = ReportCrateView;

    open spec fn view(&self) -> ReportCrateView {
        ReportCrateView { info: self.info@, old_info: self.old_info@, changes: self.changes@ }
    }
}

impl ReportCrate {
    /// Whether the comparison found anything worth reporting.
    pub fn any_changes(&self) -> (r: bool)
        ensures
            r == self@.changes.actionable(),
    {
        self.changes.any_changes()
    }
}

/// The views of a list of report lines, in order.
pub open spec fn reports_view(reports: Seq<ReportCrate>) -> Seq<ReportCrateView> {
    reports.map_values(|r: ReportCrate| r@)
}

/// The record that a name is compared with: the last record of that name in
/// the prior snapshot, or none. In a snapshot whose names are unique this is
/// the one record of that name.
pub open spec fn prior_record(prior: Seq<CrateInfoView>, name: Seq<char>) -> Option<
    CrateInfoView,
>
    decreases prior.len(),
{
    if prior.len() == 0 {
        None
    } else if prior.last().name == name {
        Some(prior.last())
    } else {
        prior_record(prior.drop_last(), name)
    }
}

/// Whether a record carries a change in downloads above
/// [`LARGE_DOWNLOAD_CHANGE`]. A record without a change carries none.
pub open spec fn large_download_change(record: CrateInfoView) -> bool {
    match record.change_in_downloads {
        Some(delta) => delta > LARGE_DOWNLOAD_CHANGE,
        None => false,
    }
}

/// The three rules, applied to a current record and the prior record found
/// for its name.
pub open spec fn changes_for(current: CrateInfoView, prior: Option<CrateInfoView>)
    -> CrateChangesView {
    match prior {
        Some(p) => CrateChangesView {
            name: current.name,
            new_crate: false,
            large_change_in_dl: large_download_change(p),
            new_rev_dep: !same_reverse_deps(current.reverse_deps, p.reverse_deps),
        },
        None => CrateChangesView {
            name: current.name,
            new_crate: true,
            large_change_in_dl: false,
            new_rev_dep: current.reverse_deps.len() > 0,
        },
    }
}

/// The report line for a current record and the prior record found for its
/// name.
pub open spec fn report_for(current: CrateInfoView, prior: Option<CrateInfoView>)
    -> ReportCrateView {
    ReportCrateView {
        info: current,
        old_info: match prior {
            Some(p) => p,
            None => current,
        },
        changes: changes_for(current, prior),
    }
}

/// The whole report: one line for each record of the current snapshot, in the
/// current snapshot's order, each compared with the prior record of its name.
pub open spec fn analysis(current: Seq<CrateInfoView>, prior: Seq<CrateInfoView>) -> Seq<
    ReportCrateView,
> {
    Seq::new(current.len(), |i: int| report_for(current[i], prior_record(prior, current[i].name)))
}

/// Compares one current record with the prior record found for its name.
pub fn report_on(current: &CrateInfo, prior: Option<&CrateInfo>) -> (r: ReportCrate)
    ensures
        r@ == report_for(
            current@,
            match prior {
                Some(p) => Some(p@),
                None => None,
            },
        ),
{
    match prior {
        Some(p) => {
            let large = match p.change_in_downloads {
                Some(delta) => delta > LARGE_DOWNLOAD_CHANGE,
                None => false,
            };
            ReportCrate {
                info: current.clone(),
                old_info: p.clone(),
                changes: CrateChanges {
                    name: current.name.clone(),
                    new_crate: false,
                    large_change_in_dl: large,
                    new_rev_dep: !reverse_deps_equal(&current.reverse_deps, &p.reverse_deps),
                },
            }
        },
        None => ReportCrate {
            info: current.clone(),
            old_info: current.clone(),
            changes: CrateChanges {
                name: current.name.clone(),
                new_crate: true,
                large_change_in_dl: false,
                new_rev_dep: current.reverse_deps.len() > 0,
            },
        },
    }
}

/// Whether `index` finds, for every name, the record that [`prior_record`]
/// names.
spec fn indexes(index: Map<Seq<char>, &CrateInfo>, prior: Seq<CrateInfoView>) -> bool {
    forall|name: Seq<char>|
        match #[trigger] prior_record(prior, name) {
            Some(p) => index.contains_key(name) && index[name]@ == p,
            None => !index.contains_key(name),
        }
}

/// Builds the lookup from name to record over a snapshot.
fn index_by_name<'a>(records: &'a [CrateInfo]) -> (index: StringHashMap<&'a CrateInfo>)
    ensures
        indexes(index@, snapshot_view(records@)),
{
    let mut index: StringHashMap<&'a CrateInfo> = StringHashMap::new();
    let mut i: usize = 0;
    while i < records.len()
        invariant
            i <= records.len(),
            indexes(index@, snapshot_view(records@).take(i as int)),
        decreases records.len() - i,
    {
        let entry = &records[i];
        index.insert(entry.name.clone(), entry);
        proof {
            let all = snapshot_view(records@);
            let grown = all.take(i + 1);
            assert(grown.drop_last() =~= all.take(i as int));
            assert(grown.last() == entry@);
            assert forall|name: Seq<char>|
                match #[trigger] prior_record(grown, name) {
                    Some(p) => index@.contains_key(name) && index@[name]@ == p,
                    None => !index@.contains_key(name),
                } by {
                if name != entry@.name {
                    assert(prior_record(grown, name) == prior_record(all.take(i as int), name));
                }
            }
        }
        i += 1;
    }
    assert(snapshot_view(records@).take(i as int) =~= snapshot_view(records@));
    index
}

/// Classifies every package of the current snapshot `server` against the
/// prior snapshot `files`.
///
/// The result has one line for each record of `server`, in `server`'s order.
/// Packages that only `files` knows are not reported.
pub fn perform_analysis(server: &[CrateInfo], files: &[CrateInfo]) -> (ret: Vec<ReportCrate>)
    ensures
        reports_view(ret@) == analysis(snapshot_view(server@), snapshot_view(files@)),
        ret@.len() == server@.len(),
        forall|i: int| 0 <= i < server@.len() ==> (#[trigger] ret@[i])@.info == server@[i]@,
{
    let index = index_by_name(files);
    let mut ret: Vec<ReportCrate> = Vec::new();
    let mut i: usize = 0;
    while i < server.len()
        invariant
            i <= server.len(),
            indexes(index@, snapshot_view(files@)),
            ret@.len() == i,
            forall|k: int|
                0 <= k < i ==> (#[trigger] ret@[k])@ == report_for(
                    server@[k]@,
                    prior_record(snapshot_view(files@), server@[k]@.name),
                ),
        decreases server.len() - i,
    {
        let c = &server[i];
        let report = match index.get(c.name.as_str()) {
            Some(k) => report_on(c, Some(*k)),
            None => report_on(c, None),
        };
        assert(report@ == report_for(c@, prior_record(snapshot_view(files@), c@.name)));
        ret.push(report);
        i += 1;
    }
    assert(reports_view(ret@) =~= analysis(snapshot_view(server@), snapshot_view(files@)));
    ret
}

/// Whether a report calls for a notification: at least one of its lines found
/// something worth reporting.
pub fn should_notify(reports: &[ReportCrate]) -> (r: bool)
    ensures
        r == exists|i: int| 0 <= i < reports@.len() && (#[trigger] reports@[i])@.changes.actionable(),
{
    let mut i: usize = 0;
    while i < reports.len()
        invariant
            i <= reports.len(),
            forall|k: int| 0 <= k < i ==> !(#[trigger] reports@[k])@.changes.actionable(),
        decreases reports.len() - i,
    {
        if reports[i].any_changes() {
            return true;
        }
        i += 1;
    }
    false
}

} // verus!
