//! What the registry answers, as plain data, and how a snapshot is made of
//! it.

use vstd::prelude::*;
use vstd::string::StringExecFns;
use crate::decimal::{append_decimal, decimal};
use crate::snapshot::{
    now, reverse_deps_view, CrateInfo, CrateInfoView, ReverseDep, Timestamp,
};
use crate::version::Version;

verus! {

/// The registry's identifier of the publisher whose packages are tracked.
pub const OWNER: usize = 11679;

/// Where the registry is found.
pub const BASE: &'static str = "https://crates.io";

/// The HTTP status with which the registry answers a request it has served.
pub const STATUS_OK: u16 = 200;

/// The registry's answer to a request for a publisher's packages.
#[derive(Debug)]
pub struct CratesResponse {
    pub crates: Vec<Crate>,
    pub meta: Meta,
}

/// One package as the registry lists it.
#[derive(Debug)]
pub struct Crate {
    pub id: String,
    pub name: String,
    pub downloads: usize,
    pub recent_downloads: usize,
    pub max_version: Version,
    pub description: String,
    pub links: Links,
}

/// Where further data about a listed package is found.
#[derive(Debug)]
pub struct Links {
    pub version_downloads: String,
    pub versions: String,
    pub owners: String,
    pub owner_team: String,
    pub owner_user: String,
    pub reverse_dependencies: String,
}

/// The registry's answer to a request for a package's dependents.
#[derive(Debug)]
pub struct ReverseDepsResponse {
    pub versions: Vec<ReverseDep>,
    pub meta: Meta,
}

/// Paging data of an answer.
#[derive(Debug)]
pub struct Meta {
    pub total: usize,
    pub next_page: Option<String>,
    pub prev_page: Option<String>,
}

/// Whether the registry served a request, going by the status of its answer.
pub fn response_accepted(status: u16) -> (r: bool)
    ensures
        r == (status == STATUS_OK),
{
    status == STATUS_OK
}

/// The address that answers with the packages of the publisher `user_id`.
pub fn crates_url(user_id: usize) -> (url: String)
    ensures
        url@ == BASE@ + "/api/v1/crates?user_id="@ + decimal(user_id as nat),
{
    let mut url = String::from_str(BASE);
    url.append("/api/v1/crates?user_id=");
    append_decimal(&mut url, user_id);
    url
}

/// The address that answers with a package's dependents, given the place
/// that the package's listing names for them.
pub fn rev_deps_url(endpoint: &str) -> (url: String)
    ensures
        url@ == BASE@ + endpoint@,
{
    let mut url = String::from_str(BASE);
    url.append(endpoint);
    url
}

/// The record that a listing gives when it is checked at `checked`: name,
/// version and both download counts are the listing's, no change is recorded
/// and no dependent is known yet.
pub open spec fn listed_record(listing: Crate, checked: Timestamp) -> CrateInfoView {
    CrateInfoView {
        name: listing.name@,
        current_version: listing.max_version@,
        downloads: listing.downloads,
        recent_downloads: listing.recent_downloads,
        change_in_downloads: None,
        change_in_recent: None,
        last_checked: checked,
        reverse_deps: Seq::empty(),
    }
}

/// Turns a listing that was checked at `checked` into a record, and hands out
/// with it the place where the package's dependents are found.
pub fn crate_entry(listing: Crate, checked: Timestamp) -> (r: (CrateInfo, String))
    ensures
        r.0@ == listed_record(listing, checked),
        r.1@ == listing.links.reverse_dependencies@,
{
    let info = CrateInfo {
        name: listing.name,
        current_version: listing.max_version,
        downloads: listing.downloads,
        recent_downloads: listing.recent_downloads,
        change_in_downloads: None,
        change_in_recent: None,
        last_checked: checked,
        reverse_deps: Vec::new(),
    };
    assert(reverse_deps_view(info.reverse_deps@) =~= Seq::empty());
    (info, listing.links.reverse_dependencies)
}

/// Makes the current snapshot's records of the registry's listing, one for
/// each listed package and in the listing's order, each paired with the place
/// where the package's dependents are found. Each record is stamped with the
/// time at which it was made.
pub fn get_crates(raw: CratesResponse) -> (ret: Vec<(CrateInfo, String)>)
    ensures
        ret@.len() == raw.crates@.len(),
        forall|i: int|
            0 <= i < ret@.len() ==> {
                &&& (#[trigger] ret@[i]).0@ == listed_record(raw.crates@[i], ret@[i].0.last_checked)
                &&& ret@[i].1@ == raw.crates@[i].links.reverse_dependencies@
            },
{
    let ghost listed = raw.crates@;
    let mut ret: Vec<(CrateInfo, String)> = Vec::new();
    for listing in it: raw.crates
        invariant
            it.seq() == listed,
            ret@.len() == it.index(),
            forall|i: int|
                0 <= i < ret@.len() ==> {
                    &&& (#[trigger] ret@[i]).0@ == listed_record(listed[i], ret@[i].0.last_checked)
                    &&& ret@[i].1@ == listed[i].links.reverse_dependencies@
                },
    {
        let entry = crate_entry(listing, now());
        ret.push(entry);
    }
    ret
}

/// Completes a record with the dependents that the registry answered for its
/// package; everything else stays as it is.
pub fn attach_reverse_deps(info: CrateInfo, response: ReverseDepsResponse) -> (r: CrateInfo)
    ensures
        r@ == (CrateInfoView { reverse_deps: reverse_deps_view(response.versions@), ..info@ }),
{
    CrateInfo {
        name: info.name,
        current_version: info.current_version,
        downloads: info.downloads,
        recent_downloads: info.recent_downloads,
        change_in_downloads: info.change_in_downloads,
        change_in_recent: info.change_in_recent,
        last_checked: info.last_checked,
        reverse_deps: response.versions,
    }
}

} // verus!
