//! Shapes of the HTTP boundary and the listing of hosts page by page.

use vstd::prelude::*;
use crate::config::{HostConfig, HostPolicy};
use crate::message::HostStatus;
use crate::orchestrator::{has_name, texts};
use crate::state::{HostState, Timestamp};
use crate::text::{chars_of, pieces, split, split_bounds};

verus! {

/// Error body of the API.
#[derive(Debug, Clone, PartialEq, Eq)]
pub struct ApiError {
    /// Error code.
    pub code: String,
    /// Error message.
    pub message: String,
}

impl ApiError {
    /// An internal error with `message`.
    pub fn internal(message: String) -> (r: Self)
        ensures
            r.code@ == "INTERNAL_ERROR"@,
            r.message == message,
    {
        ApiError { code: String::from_str("INTERNAL_ERROR"), message }
    }
}

/// The page shown when none is asked for.
pub fn default_page() -> (r: u64)
    ensures
        r == 1,
{
    1
}

/// The page size used when none is asked for.
pub fn default_per_page() -> (r: u64)
    ensures
        r == 50,
{
    50
}

/// Parameters of a host listing.
#[derive(Debug, Clone, PartialEq, Eq)]
pub struct ListHostsQuery {
    /// Page number, from 1.
    pub page: u64,
    /// Hosts per page.
    pub per_page: u64,
    /// Comma-separated tags that every listed host must carry.
    pub tags: Option<String>,
}

/// One page of hosts.
#[derive(Debug, Clone, PartialEq, Eq)]
pub struct HostListResponse {
    pub hosts: Vec<HostSummary>,
    pub pagination: PaginationInfo,
}

/// A host in a listing.
#[derive(Debug, Clone, PartialEq, Eq)]
pub struct HostSummary {
    pub name: String,
    pub state: String,
    pub pending_updates: Option<u32>,
    pub tags: Vec<String>,
    pub last_updated: Option<String>,
    pub error: Option<String>,
}

/// Page bookkeeping of a host listing.
#[derive(Debug, Clone, Copy, PartialEq, Eq)]
pub struct PaginationInfo {
    pub page: u64,
    pub per_page: u64,
    pub total_items: u64,
    pub total_pages: u64,
}

/// Details of one host.
#[derive(Debug, Clone, PartialEq, Eq)]
pub struct HostDetailResponse {
    pub name: String,
    pub state: String,
    pub pending_updates: Option<u32>,
    pub tags: Vec<String>,
    pub last_updated: Option<String>,
    pub error: Option<String>,
}

/// Body of a registration request.
#[derive(Debug, Clone, PartialEq, Eq)]
pub struct RegisterHostRequest {
    pub name: String,
    pub addr: String,
    pub user: String,
    pub ssh_key: Option<String>,
    pub tags: Vec<String>,
}

impl RegisterHostRequest {
    /// The host settings of the request: no compose directories, default
    /// policy.
    pub fn into_config(self) -> (r: HostConfig)
        ensures
            r.name == self.name,
            r.addr == self.addr,
            r.user == self.user,
            r.ssh_key == self.ssh_key,
            r.tags == self.tags,
            r.compose_paths@.len() == 0,
            r.policy.auto_reboot,
            r.policy.maintenance_window is None,
    {
        HostConfig {
            name: self.name,
            addr: self.addr,
            user: self.user,
            ssh_key: self.ssh_key,
            compose_paths: Vec::new(),
            tags: self.tags,
            policy: HostPolicy::default(),
        }
    }
}

/// The name of a state in listings.
pub open spec fn listing_name(s: HostState) -> Seq<char> {
    match s {
        HostState::Idle => "Idle"@,
        HostState::Querying => "Querying"@,
        HostState::PendingUpdates => "PendingUpdates"@,
        HostState::Updating => "Updating"@,
        HostState::WaitingReboot => "WaitingReboot"@,
        HostState::Rebooting => "Rebooting"@,
        HostState::Verifying => "Verifying"@,
        HostState::Failed => "Failed"@,
    }
}

fn listing_str(s: HostState) -> (r: &'static str)
    ensures
        r@ == listing_name(s),
{
    match s {
        HostState::Idle => "Idle",
        HostState::Querying => "Querying",
        HostState::PendingUpdates => "PendingUpdates",
        HostState::Updating => "Updating",
        HostState::WaitingReboot => "WaitingReboot",
        HostState::Rebooting => "Rebooting",
        HostState::Verifying => "Verifying",
        HostState::Failed => "Failed",
    }
}

/// The RFC 3339 text of a time given in milliseconds since the epoch, or
/// `None` when chrono cannot represent it.
pub uninterp spec fn rfc3339_of(millis: i64) -> Option<Seq<char>>;

/// Relies on chrono's `DateTime::from_timestamp_millis` and
/// `DateTime::to_rfc3339`: the text depends on the time alone.
#[verifier::external_body]
fn rfc3339(millis: i64) -> (r: Option<String>)
    ensures
        match r {
            Some(s) => rfc3339_of(millis) == Some(s@),
            None => rfc3339_of(millis) is None,
        },
{
    chrono::DateTime::from_timestamp_millis(millis).map(|d| d.to_rfc3339())
}

/// Whether `s` is the text of the optional time `t`.
pub open spec fn time_text(t: Option<Timestamp>, s: Option<String>) -> bool {
    match t {
        None => s is None,
        Some(ts) => match rfc3339_of(ts.millis) {
            None => s is None,
            Some(x) => s is Some && s->0@ == x,
        },
    }
}

/// Whether `h` lists the host of status `st`.
pub open spec fn summarizes(h: HostSummary, st: HostStatus) -> bool {
    &&& h.name == st.name
    &&& h.state@ == listing_name(st.state)
    &&& h.pending_updates == st.pending_updates
    &&& h.tags@ == st.tags@
    &&& time_text(st.last_updated, h.last_updated)
    &&& h.error == st.error
}

/// The listing entry of a host.
pub fn summarize(st: &HostStatus) -> (r: HostSummary)
    ensures
        summarizes(r, *st),
{
    let last_updated = match st.last_updated {
        Some(t) => rfc3339(t.millis),
        None => None,
    };
    HostSummary {
        name: st.name.clone(),
        state: String::from_str(listing_str(st.state)),
        pending_updates: st.pending_updates,
        tags: crate::host::copy_strings(&st.tags),
        last_updated,
        error: match &st.error {
            Some(e) => Some(e.clone()),
            None => None,
        },
    }
}

/// The details of a host.
pub fn host_details(st: &HostStatus) -> (r: HostDetailResponse)
    ensures
        r.name == st.name,
        r.state@ == listing_name(st.state),
        r.pending_updates == st.pending_updates,
        r.tags@ == st.tags@,
        time_text(st.last_updated, r.last_updated),
        r.error == st.error,
{
    let s = summarize(st);
    HostDetailResponse {
        name: s.name,
        state: s.state,
        pending_updates: s.pending_updates,
        tags: s.tags,
        last_updated: s.last_updated,
        error: s.error,
    }
}

/// Whether a host carries every wanted tag.
pub open spec fn carries_all(wanted: Seq<Seq<char>>, tags: Seq<String>) -> bool {
    forall|i: int| 0 <= i < wanted.len() ==> has_name(tags, #[trigger] wanted[i])
}

/// The hosts kept by the tag filter, in order.
pub open spec fn kept(hosts: Seq<HostStatus>, wanted: Option<Seq<Seq<char>>>) -> Seq<HostStatus>
    decreases hosts.len(),
{
    if hosts.len() == 0 {
        Seq::empty()
    } else {
        let rest = kept(hosts.drop_last(), wanted);
        match wanted {
            Some(w) => if carries_all(w, hosts.last().tags@) {
                rest.push(hosts.last())
            } else {
                rest
            },
            None => rest.push(hosts.last()),
        }
    }
}

/// The tags wanted by a listing query.
pub open spec fn wanted_of(tags: Option<String>) -> Option<Seq<Seq<char>>> {
    match tags {
        Some(t) => Some(split(t@, ',')),
        None => None,
    }
}

/// `a / b` rounded up.
pub open spec fn div_ceil(a: nat, b: nat) -> nat {
    if b == 0 {
        0
    } else {
        (a / b + if a % b != 0 {
            1nat
        } else {
            0nat
        }) as nat
    }
}

fn has_all(wanted: &Vec<String>, tags: &Vec<String>) -> (r: bool)
    ensures
        r == carries_all(texts(wanted@), tags@),
{
    let mut i: usize = 0;
    while i < wanted.len()
        invariant
            i <= wanted@.len(),
            forall|j: int| 0 <= j < i ==> has_name(tags@, #[trigger] texts(wanted@)[j]),
        decreases wanted@.len() - i,
    {
        if !crate::orchestrator::list_has(tags, &wanted[i]) {
            proof {
                assert(texts(wanted@)[i as int] == wanted@[i as int]@);
            }
            return false;
        }
        i = i + 1;
    }
    true
}

/// The wanted tags of a listing query: its comma-separated pieces.
fn wanted_tags(tags: &String) -> (r: Vec<String>)
    ensures
        texts(r@) == split(tags@, ','),
{
    let v = chars_of(tags.as_str());
    let pb = split_bounds(&v, 0, v.len(), ',');
    proof {
        assert(v@.subrange(0, v@.len() as int) =~= v@);
    }
    let mut out: Vec<String> = Vec::new();
    let mut k: usize = 0;
    while k < pb.len()
        invariant
            v@ == tags@,
            pieces(v@, pb@) == split(tags@, ','),
            crate::text::bounded(pb@, 0, v@.len() as int),
            k <= pb@.len(),
            texts(out@) == split(tags@, ',').take(k as int),
        decreases pb@.len() - k,
    {
        let (a, b) = pb[k];
        proof {
            assert(pieces(v@, pb@)[k as int] == v@.subrange(a as int, b as int));
        }
        let ghost before = out@;
        let s = String::from_str(tags.as_str().substring_char(a, b));
        out.push(s);
        proof {
            assert(texts(out@) =~= texts(before).push(s@));
            assert(split(tags@, ',').take(k + 1) =~= split(tags@, ',').take(k as int).push(
                split(tags@, ',')[k as int],
            ));
        }
        k = k + 1;
    }
    proof {
        assert(split(tags@, ',').take(pb@.len() as int) =~= split(tags@, ','));
    }
    out
}

/// One page of the hosts that carry every tag of the query (all hosts
/// without a tag query), with the page bookkeeping. Pages start at 1; a
/// page past the end is empty.
pub fn list_page(hosts: &Vec<HostStatus>, query: &ListHostsQuery) -> (r: HostListResponse)
    requires
        query.page >= 1,
        query.per_page >= 1,
    ensures
        ({
            let all = kept(hosts@, wanted_of(query.tags));
            let start = (query.page - 1) * query.per_page;
            let lo = if start < all.len() {
                start
            } else {
                all.len() as int
            };
            let hi = if lo + query.per_page < all.len() {
                lo + query.per_page
            } else {
                all.len() as int
            };
            &&& r.pagination == (PaginationInfo {
                page: query.page,
                per_page: query.per_page,
                total_items: all.len() as u64,
                total_pages: div_ceil(all.len(), query.per_page as nat) as u64,
            })
            &&& r.hosts@.len() == hi - lo
            &&& forall|k: int| 0 <= k < r.hosts@.len() ==> summarizes(#[trigger] r.hosts@[k], all[lo + k])
        }),
{
    let wanted = match &query.tags {
        Some(t) => Some(wanted_tags(t)),
        None => None,
    };
    let ghost wanted_view = wanted_of(query.tags);
    let mut chosen: Vec<usize> = Vec::new();
    let mut i: usize = 0;
    while i < hosts.len()
        invariant
            i <= hosts@.len(),
            wanted_view == wanted_of(query.tags),
            match wanted {
                Some(w) => wanted_view == Some(texts(w@)),
                None => wanted_view is None,
            },
            chosen@.len() == kept(hosts@.take(i as int), wanted_view).len(),
            forall|k: int|
                0 <= k < chosen@.len() ==> #[trigger] chosen@[k] < hosts@.len() && hosts@[chosen@[k] as int]
                    == kept(hosts@.take(i as int), wanted_view)[k],
        decreases hosts@.len() - i,
    {
        proof {
            assert(hosts@.take(i + 1).drop_last() =~= hosts@.take(i as int));
            assert(hosts@.take(i + 1).last() == hosts@[i as int]);
        }
        let keep = match &wanted {
            Some(w) => has_all(w, &hosts[i].tags),
            None => true,
        };
        if keep {
            chosen.push(i);
        }
        i = i + 1;
    }
    proof {
        assert(hosts@.take(hosts@.len() as int) =~= hosts@);
    }
    let total = chosen.len() as u64;
    let per = query.per_page;
    let q = total / per;
    proof {
        if total % per != 0 {
            assert(per >= 2);
            assert(q < 0xffff_ffff_ffff_ffffu64) by (nonlinear_arith)
                requires
                    per >= 2,
                    q == total / per,
                    total <= 0xffff_ffff_ffff_ffffu64,
            ;
        }
    }
    let pages = if total % per != 0 {
        q + 1
    } else {
        q
    };
    let a: u128 = (query.page - 1) as u128;
    let b: u128 = per as u128;
    proof {
        assert(a * b <= 0xffff_ffff_ffff_fffe_0000_0000_0000_0001u128) by (nonlinear_arith)
            requires
                a <= 0xffff_ffff_ffff_ffffu128,
                b <= 0xffff_ffff_ffff_ffffu128,
        ;
    }
    let start: u128 = a * b;
    let n = chosen.len();
    let lo: usize = if start < n as u128 {
        start as usize
    } else {
        n
    };
    let hi: usize = if (lo as u128) + (query.per_page as u128) < n as u128 {
        lo + query.per_page as usize
    } else {
        n
    };
    let mut page: Vec<HostSummary> = Vec::new();
    let mut j = lo;
    while j < hi
        invariant
            lo <= j <= hi <= n,
            n == chosen@.len(),
            page@.len() == j - lo,
            forall|k: int|
                0 <= k < chosen@.len() ==> #[trigger] chosen@[k] < hosts@.len() && hosts@[chosen@[k] as int]
                    == kept(hosts@, wanted_view)[k],
            forall|k: int| 0 <= k < page@.len() ==> summarizes(#[trigger] page@[k], kept(hosts@, wanted_view)[lo + k]),
        decreases hi - j,
    {
        let idx = chosen[j];
        let s = summarize(&hosts[idx]);
        page.push(s);
        j = j + 1;
    }
    HostListResponse {
        hosts: page,
        pagination: PaginationInfo {
            page: query.page,
            per_page: query.per_page,
            total_items: total,
            total_pages: pages,
        },
    }
}

} // verus!
