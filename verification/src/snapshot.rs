//! The recorded state of tracked packages: one record per package, one
//! snapshot per run.

use vstd::prelude::*;
use vstd::hash_set::StringHashSet;
use vstd::std_specs::cmp::PartialEqSpecImpl;
use crate::version::{Version, VersionView};

verus! {

/// A point in time: whole seconds since the start of 1970 (UTC) and the
/// nanoseconds past that second.
#[derive(Clone, Copy, Debug, PartialEq, Eq, Structural)]
pub struct Timestamp {
    pub secs: i64,
    pub nanos: u32,
}

/// Reads the clock with `chrono::Utc::now` and hands the instant out as the
/// seconds (`DateTime::timestamp`) and nanoseconds
/// (`DateTime::timestamp_subsec_nanos`) since the start of 1970. Nothing is
/// claimed of the instant: it is whatever the clock reads. `chrono` gives up
/// on a clock that reads a time before 1970.
#[verifier::external_body]
pub(crate) fn now() -> (t: Timestamp) {
    let t = chrono::Utc::now();
    Timestamp { secs: t.timestamp(), nanos: t.timestamp_subsec_nanos() }
}

/// Another package that depends on a tracked package.
#[derive(Debug)]
pub struct ReverseDep {
    /// The identifier the registry gave to the dependency.
    pub id: usize,
    /// The name of the depending package.
    pub name: String,
    /// The version that is depended upon.
    pub version: Version,
}

/// What a [`ReverseDep`] stands for in contracts.
pub struct ReverseDepView {
    pub id: usize,
    pub name: Seq<char>,
    pub version: VersionView,
}

impl ReverseDepView {
    /// The comparison that `==` on dependents decides: identifier, name and
    /// version are equal.
    pub open spec fn same(self, other: ReverseDepView) -> bool {
        &&& self.id == other.id
        &&& self.name == other.name
        &&& self.version.same(other.version)
    }
}

impl View for ReverseDep {
    type V = ReverseDepView;

    open spec fn view(&self) -> ReverseDepView {
        ReverseDepView { id: self.id, name: self.name@, version: self.version@ }
    }
}

impl Clone for ReverseDep {
    fn clone(&self) -> (r: Self)
        ensures
            r@ == self@,
    {
        ReverseDep { id: self.id, name: self.name.clone(), version: self.version.clone() }
    }
}

impl PartialEq for ReverseDep {
    fn eq(&self, other: &Self) -> (r: bool) {
        self.id == other.id && self.name == other.name && self.version == other.version
    }
}

impl PartialEqSpecImpl for ReverseDep {
    open spec fn obeys_eq_spec() -> bool {
        true
    }

    open spec fn eq_spec(&self, other: &Self) -> bool {
        self@.same(other@)
    }
}

/// The views of a list of dependents, in order.
pub open spec fn reverse_deps_view(deps: Seq<ReverseDep>) -> Seq<ReverseDepView> {
    deps.map_values(|d: ReverseDep| d@)
}

/// Exact comparison of two lists of dependents: the same length and, position
/// by position, the same dependent. The order counts.
pub open spec fn same_reverse_deps(a: Seq<ReverseDepView>, b: Seq<ReverseDepView>) -> bool {
    &&& a.len() == b.len()
    &&& forall|i: int| 0 <= i < a.len() ==> (#[trigger] a[i]).same(b[i])
}

/// Copies a list of dependents.
pub fn clone_reverse_deps(deps: &Vec<ReverseDep>) -> (r: Vec<ReverseDep>)
    ensures
        reverse_deps_view(r@) == reverse_deps_view(deps@),
{
    let mut out: Vec<ReverseDep> = Vec::new();
    let mut i: usize = 0;
    while i < deps.len()
        invariant
            i <= deps.len(),
            out@.len() == i,
            forall|k: int| 0 <= k < i ==> out@[k]@ == deps@[k]@,
        decreases deps.len() - i,
    {
        out.push(deps[i].clone());
        i += 1;
    }
    assert(reverse_deps_view(out@) =~= reverse_deps_view(deps@));
    out
}

/// Decides [`same_reverse_deps`].
pub fn reverse_deps_equal(a: &Vec<ReverseDep>, b: &Vec<ReverseDep>) -> (r: bool)
    ensures
        r == same_reverse_deps(reverse_deps_view(a@), reverse_deps_view(b@)),
{
    if a.len() != b.len() {
        return false;
    }
    let mut i: usize = 0;
    while i < a.len()
        invariant
            i <= a.len(),
            a.len() == b.len(),
            forall|k: int| 0 <= k < i ==> (#[trigger] a@[k])@.same(b@[k]@),
        decreases a.len() - i,
    {
        if a[i] != b[i] {
            assert(!reverse_deps_view(a@)[i as int].same(reverse_deps_view(b@)[i as int]));
            return false;
        }
        i += 1;
    }
    assert forall|k: int| 0 <= k < reverse_deps_view(a@).len() implies (
    #[trigger] reverse_deps_view(a@)[k]).same(reverse_deps_view(b@)[k]) by {
        assert(a@[k]@.same(b@[k]@));
    }
    true
}

/// The observed state of one tracked package at one point in time.
#[derive(Debug)]
pub struct CrateInfo {
    /// The package's name; its identity across runs.
    pub name: String,
    /// The newest published version.
    pub current_version: Version,
    /// Downloads over the package's lifetime.
    pub downloads: usize,
    /// Downloads within the registry's rolling window.
    pub recent_downloads: usize,
    /// How far `downloads` moved since the previous run; absent when there
    /// was no previous record.
    pub change_in_downloads: Option<usize>,
    /// How far `recent_downloads` moved since the previous run; absent when
    /// there was no previous record.
    pub change_in_recent: Option<isize>,
    /// When this record was produced.
    pub last_checked: Timestamp,
    /// The packages that depend on this one, in the registry's order.
    pub reverse_deps: Vec<ReverseDep>,
}

/// What a [`CrateInfo`] stands for in contracts.
pub struct CrateInfoView {
    pub name: Seq<char>,
    pub current_version: VersionView,
    pub downloads: usize,
    pub recent_downloads: usize,
    pub change_in_downloads: Option<usize>,
    pub change_in_recent: Option<isize>,
    pub last_checked: Timestamp,
    pub reverse_deps: Seq<ReverseDepView>,
}

impl CrateInfoView {
    /// The comparison that `==` on records decides: every field is equal,
    /// versions and dependents by their own comparison.
    pub open spec fn same(self, other: CrateInfoView) -> bool {
        &&& self.name == other.name
        &&& self.current_version.same(other.current_version)
        &&& self.downloads == other.downloads
        &&& self.recent_downloads == other.recent_downloads
        &&& self.change_in_downloads == other.change_in_downloads
        &&& self.change_in_recent == other.change_in_recent
        &&& self.last_checked == other.last_checked
        &&& same_reverse_deps(self.reverse_deps, other.reverse_deps)
    }
}

impl View for CrateInfo {
    type V = CrateInfoView;

    open spec fn view(&self) -> CrateInfoView {
        CrateInfoView {
            name: self.name@,
            current_version: self.current_version@,
            downloads: self.downloads,
            recent_downloads: self.recent_downloads,
            change_in_downloads: self.change_in_downloads,
            change_in_recent: self.change_in_recent,
            last_checked: self.last_checked,
            reverse_deps: reverse_deps_view(self.reverse_deps@),
        }
    }
}

impl Clone for CrateInfo {
    fn clone(&self) -> (r: Self)
        ensures
            r@ == self@,
    {
        CrateInfo {
            name: self.name.clone(),
            current_version: self.current_version.clone(),
            downloads: self.downloads,
            recent_downloads: self.recent_downloads,
            change_in_downloads: self.change_in_downloads,
            change_in_recent: self.change_in_recent,
            last_checked: self.last_checked,
            reverse_deps: clone_reverse_deps(&self.reverse_deps),
        }
    }
}

impl PartialEq for CrateInfo {
    fn eq(&self, other: &Self) -> (r: bool) {
        self.name == other.name && self.current_version == other.current_version
            && self.downloads == other.downloads && self.recent_downloads
            == other.recent_downloads && self.change_in_downloads == other.change_in_downloads
            && self.change_in_recent == other.change_in_recent && self.last_checked
            == other.last_checked && reverse_deps_equal(&self.reverse_deps, &other.reverse_deps)
    }
}

impl PartialEqSpecImpl for CrateInfo {
    open spec fn obeys_eq_spec() -> bool {
        true
    }

    open spec fn eq_spec(&self, other: &Self) -> bool {
        self@.same(other@)
    }
}

/// The views of the records of a snapshot, in order.
pub open spec fn snapshot_view(records: Seq<CrateInfo>) -> Seq<CrateInfoView> {
    records.map_values(|c: CrateInfo| c@)
}

/// No two records of the snapshot carry the same name.
pub open spec fn unique_names(records: Seq<CrateInfoView>) -> bool {
    forall|i: int, j: int|
        0 <= i < j < records.len() ==> (#[trigger] records[i]).name != (#[trigger] records[j]).name
}

/// What holds of every snapshot that is fit for comparison: each record has a
/// name, and no name occurs twice.
pub open spec fn valid_snapshot(records: Seq<CrateInfoView>) -> bool {
    &&& forall|i: int| 0 <= i < records.len() ==> (#[trigger] records[i]).name.len() > 0
    &&& unique_names(records)
}

/// Decides [`valid_snapshot`], so that a caller can turn away a snapshot with
/// a nameless record or with two records of one name.
pub fn is_valid_snapshot(records: &[CrateInfo]) -> (r: bool)
    ensures
        r == valid_snapshot(snapshot_view(records@)),
{
    let ghost all = snapshot_view(records@);
    let mut seen = StringHashSet::new();
    let mut i: usize = 0;
    while i < records.len()
        invariant
            i <= records.len(),
            all == snapshot_view(records@),
            valid_snapshot(all.take(i as int)),
            forall|name: Seq<char>|
                seen@.contains(name) <==> exists|k: int| 0 <= k < i && (#[trigger] all[k]).name == name,
        decreases records.len() - i,
    {
        let name = records[i].name.as_str();
        if name.is_empty() {
            assert(all[i as int].name.len() == 0);
            return false;
        }
        if seen.contains(name) {
            let ghost k = choose|k: int| 0 <= k < i && (#[trigger] all[k]).name == name@;
            assert(all[k].name == all[i as int].name);
            return false;
        }
        seen.insert(records[i].name.clone());
        proof {
            let grown = all.take(i + 1);
            assert forall|a: int, b: int| 0 <= a < b < grown.len() implies (#[trigger] grown[a]).name
                != (#[trigger] grown[b]).name by {
                if b < i {
                    assert(all.take(i as int)[a].name != all.take(i as int)[b].name);
                } else {
                    assert(all[a].name != name@);
                }
            }
            assert forall|a: int| 0 <= a < grown.len() implies (#[trigger] grown[a]).name.len()
                > 0 by {
                if a < i {
                    assert(all.take(i as int)[a].name.len() > 0);
                }
            }
            assert forall|n: Seq<char>|
                seen@.contains(n) <==> exists|k: int|
                    0 <= k < i + 1 && (#[trigger] all[k]).name == n by {
                if n == name@ {
                    assert(all[i as int].name == n);
                }
            }
        }
        i += 1;
    }
    assert(all.take(i as int) =~= all);
    true
}

} // verus!
