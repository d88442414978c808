//! The breakpoints of a session: what the user asked for, what the adapter
//! answered, and the requests that bring the adapter up to date.
//!
//! Breakpoints are kept in the order they were added, with increasing ids;
//! those on source lines are grouped by file for the adapter (the files in
//! the order they were first used), those on functions form one group.

use crate::common::Error;
use crate::dap::types::{Breakpoint, FunctionBreakpoint, SourceBreakpoint};
use crate::ipc::protocol::{BreakpointInfo, BreakpointLocation, LocationView};
use vstd::prelude::*;

verus! {

/// A breakpoint as the session keeps it.
#[derive(Debug)]
pub struct StoredBreakpoint {
    pub id: u32,
    pub location: BreakpointLocation,
    pub condition: Option<String>,
    pub hit_count: Option<u32>,
    pub enabled: bool,
    pub verified: bool,
    pub actual_line: Option<u32>,
    pub message: Option<String>,
}

/// A kept breakpoint as plain values.
pub struct StoredView {
    pub id: u32,
    pub location: LocationView,
    pub condition: Option<Seq<char>>,
    pub hit_count: Option<u32>,
    pub enabled: bool,
    pub verified: bool,
    pub actual_line: Option<u32>,
    pub message: Option<Seq<char>>,
}

/// The view of an optional string.
pub open spec fn opt_text(o: Option<String>) -> Option<Seq<char>> {
    match o {
        Some(s) => Some(s@),
        None => None,
    }
}

impl View for StoredBreakpoint {
    type V = StoredView;

    open spec fn view(&self) -> StoredView {
        StoredView {
            id: self.id,
            location: self.location@,
            condition: opt_text(self.condition),
            hit_count: self.hit_count,
            enabled: self.enabled,
            verified: self.verified,
            actual_line: self.actual_line,
            message: opt_text(self.message),
        }
    }
}

/// The breakpoints of a session as plain values.
pub struct StoreView {
    /// The files of source breakpoints, in the order first used.
    pub files: Seq<Seq<char>>,
    /// The breakpoints, in the order added.
    pub bps: Seq<StoredView>,
    /// The id the next breakpoint gets.
    pub next_id: nat,
}

/// The views of kept breakpoints.
pub open spec fn stored_views(bs: Seq<StoredBreakpoint>) -> Seq<StoredView> {
    bs.map_values(|b: StoredBreakpoint| b@)
}

/// A source breakpoint's file is among the files.
pub open spec fn file_listed(files: Seq<Seq<char>>, b: StoredView) -> bool {
    match b.location {
        LocationView::Line(f, _) => files.contains(f),
        LocationView::Function(_) => true,
    }
}

/// The store is consistent: ids increase in the order kept and are below the
/// next id, and every source breakpoint's file is listed, once.
pub open spec fn store_wf(s: StoreView) -> bool {
    &&& forall|i: int, j: int| 0 <= i < j < s.bps.len() ==> s.bps[i].id < s.bps[j].id
    &&& forall|i: int| 0 <= i < s.bps.len() ==> s.bps[i].id < s.next_id
    &&& s.next_id <= u32::MAX
    &&& forall|i: int| 0 <= i < s.bps.len() ==> file_listed(s.files, #[trigger] s.bps[i])
    &&& s.files.no_duplicates()
}

/// The breakpoint belongs to the group of a file (`Some`), or to the
/// function group (`None`).
pub open spec fn in_group(b: StoredView, file: Option<Seq<char>>) -> bool {
    match file {
        Some(f) => b.location matches LocationView::Line(g, _) && g == f,
        None => b.location is Function,
    }
}

/// A fresh breakpoint.
pub open spec fn fresh(id: u32, location: LocationView, condition: Option<Seq<char>>, hit_count: Option<u32>) -> StoredView {
    StoredView {
        id,
        location,
        condition,
        hit_count,
        enabled: true,
        verified: false,
        actual_line: None,
        message: None,
    }
}

/// The store after adding a breakpoint.
pub open spec fn add_view(s: StoreView, location: LocationView, condition: Option<Seq<char>>, hit_count: Option<u32>) -> StoreView {
    let b = fresh(s.next_id as u32, location, condition, hit_count);
    StoreView {
        files: match location {
            LocationView::Line(f, _) => if s.files.contains(f) {
                s.files
            } else {
                s.files.push(f)
            },
            LocationView::Function(_) => s.files,
        },
        bps: s.bps.push(b),
        next_id: s.next_id + 1,
    }
}

/// The index of the breakpoint with the given id, searching from `k`.
pub open spec fn index_of(bps: Seq<StoredView>, id: u32, k: int) -> Option<int>
    decreases bps.len() - k,
{
    if k < 0 || k >= bps.len() {
        None
    } else if bps[k].id == id {
        Some(k)
    } else {
        index_of(bps, id, k + 1)
    }
}

/// The breakpoint with the given id.
pub open spec fn find(s: StoreView, id: u32) -> Option<StoredView> {
    match index_of(s.bps, id, 0) {
        Some(k) => Some(s.bps[k]),
        None => None,
    }
}

/// A breakpoint's report, as plain values.
pub struct InfoView {
    pub id: u32,
    pub verified: bool,
    pub source: Option<Seq<char>>,
    pub line: Option<u32>,
    pub message: Option<Seq<char>>,
    pub enabled: bool,
    pub condition: Option<Seq<char>>,
    pub hit_count: Option<u32>,
}

/// The report of a breakpoint: for a source line, its file and the line the
/// adapter placed it on (else the line asked for); for a function, its name
/// and the line the adapter reported.
pub open spec fn info_of(b: StoredView) -> InfoView {
    InfoView {
        id: b.id,
        verified: b.verified,
        source: match b.location {
            LocationView::Line(f, _) => Some(f),
            LocationView::Function(n) => Some(n),
        },
        line: match b.location {
            LocationView::Line(_, l) => match b.actual_line {
                Some(a) => Some(a),
                None => Some(l as u32),
            },
            LocationView::Function(_) => b.actual_line,
        },
        message: b.message,
        enabled: b.enabled,
        condition: b.condition,
        hit_count: b.hit_count,
    }
}

/// The view of a report.
pub open spec fn info_view(i: BreakpointInfo) -> InfoView {
    InfoView {
        id: i.id,
        verified: i.verified,
        source: opt_text(i.source),
        line: i.line,
        message: opt_text(i.message),
        enabled: i.enabled,
        condition: opt_text(i.condition),
        hit_count: i.hit_count,
    }
}

/// The store without the breakpoint at index `k`.
pub open spec fn remove_at(s: StoreView, k: int) -> StoreView {
    StoreView { files: s.files, bps: s.bps.remove(k), next_id: s.next_id }
}

/// The store with the breakpoint at index `k` enabled or disabled.
pub open spec fn enable_at(s: StoreView, k: int, enabled: bool) -> StoreView {
    let b = s.bps[k];
    StoreView {
        files: s.files,
        bps: s.bps.update(
            k,
            StoredView {
                id: b.id,
                location: b.location,
                condition: b.condition,
                hit_count: b.hit_count,
                enabled,
                verified: b.verified,
                actual_line: b.actual_line,
                message: b.message,
            },
        ),
        next_id: s.next_id,
    }
}

/// An adapter's answer for a breakpoint, as plain values: whether it is
/// verified, its line and its message.
pub open spec fn answer_of(r: Breakpoint) -> (bool, Option<u32>, Option<Seq<char>>) {
    (r.verified, r.line, opt_text(r.message))
}

/// The breakpoints after the adapter answered for a group: the `n`-th
/// breakpoint of the group (counting from `pos` at the front of `bps`) takes
/// the `n`-th answer, while there are answers.
pub open spec fn applied(
    bps: Seq<StoredView>,
    group: Option<Seq<char>>,
    answers: Seq<(bool, Option<u32>, Option<Seq<char>>)>,
    pos: nat,
) -> Seq<StoredView>
    decreases bps.len(),
{
    if bps.len() == 0 {
        seq![]
    } else {
        let b = bps[0];
        if in_group(b, group) {
            let head = if pos < answers.len() {
                let (verified, line, message) = answers[pos as int];
                StoredView {
                    id: b.id,
                    location: b.location,
                    condition: b.condition,
                    hit_count: b.hit_count,
                    enabled: b.enabled,
                    verified,
                    actual_line: line,
                    message,
                }
            } else {
                b
            };
            seq![head] + applied(bps.drop_first(), group, answers, pos + 1)
        } else {
            seq![b] + applied(bps.drop_first(), group, answers, pos)
        }
    }
}

/// A request for a source breakpoint, as plain values: line, condition and
/// hit condition.
pub open spec fn source_request_view(r: SourceBreakpoint) -> (u32, Option<Seq<char>>, Option<Seq<char>>) {
    (r.line, opt_text(r.condition), opt_text(r.hit_condition))
}

/// The hit condition sent for a hit count: the count in decimal.
pub open spec fn hit_condition(h: Option<u32>) -> Option<Seq<char>> {
    match h {
        Some(n) => Some(crate::number::decimal_of(n as nat)),
        None => None,
    }
}

/// The requests for the enabled breakpoints of a file, in order.
pub open spec fn source_requests_of(bps: Seq<StoredView>, file: Seq<char>) -> Seq<(u32, Option<Seq<char>>, Option<Seq<char>>)>
    decreases bps.len(),
{
    if bps.len() == 0 {
        seq![]
    } else {
        let b = bps[0];
        let rest = source_requests_of(bps.drop_first(), file);
        if in_group(b, Some(file)) && b.enabled {
            let line = match b.location {
                LocationView::Line(_, l) => l as u32,
                LocationView::Function(_) => 0,
            };
            seq![(line, b.condition, hit_condition(b.hit_count))] + rest
        } else {
            rest
        }
    }
}

/// A request for a function breakpoint, as plain values: name, condition
/// and hit condition.
pub open spec fn function_request_view(r: FunctionBreakpoint) -> (Seq<char>, Option<Seq<char>>, Option<Seq<char>>) {
    (r.name@, opt_text(r.condition), opt_text(r.hit_condition))
}

/// The requests for the enabled function breakpoints, in order.
pub open spec fn function_requests_of(bps: Seq<StoredView>) -> Seq<(Seq<char>, Option<Seq<char>>, Option<Seq<char>>)>
    decreases bps.len(),
{
    if bps.len() == 0 {
        seq![]
    } else {
        let b = bps[0];
        let rest = function_requests_of(bps.drop_first());
        if in_group(b, None) && b.enabled {
            let name = match b.location {
                LocationView::Function(n) => n,
                LocationView::Line(_, _) => seq![],
            };
            seq![(name, b.condition, hit_condition(b.hit_count))] + rest
        } else {
            rest
        }
    }
}

/// The reports of the breakpoints of a group, in order.
pub open spec fn group_infos(bps: Seq<StoredView>, group: Option<Seq<char>>) -> Seq<InfoView>
    decreases bps.len(),
{
    if bps.len() == 0 {
        seq![]
    } else {
        let rest = group_infos(bps.drop_first(), group);
        if in_group(bps[0], group) {
            seq![info_of(bps[0])] + rest
        } else {
            rest
        }
    }
}

/// The reports of all breakpoints: file by file in the order the files were
/// first used, then the function breakpoints.
pub open spec fn listing(files: Seq<Seq<char>>, bps: Seq<StoredView>) -> Seq<InfoView>
    decreases files.len(),
{
    if files.len() == 0 {
        group_infos(bps, None)
    } else {
        group_infos(bps, Some(files[0])) + listing(files.drop_first(), bps)
    }
}

/// Ids increase along the sequence.
pub open spec fn ids_increase(bps: Seq<StoredView>) -> bool {
    forall|i: int, j: int| 0 <= i < j < bps.len() ==> bps[i].id < bps[j].id
}

/// What the search from `k` finds: the first index from `k` on with the id.
proof fn lemma_index_of(bps: Seq<StoredView>, id: u32, k: int)
    requires
        0 <= k,
    ensures
        match index_of(bps, id, k) {
            Some(j) => k <= j < bps.len() && bps[j].id == id && forall|m: int| k <= m < j ==> bps[m].id != id,
            None => forall|m: int| k <= m < bps.len() ==> bps[m].id != id,
        },
    decreases bps.len() - k,
{
    if k < bps.len() && bps[k].id != id {
        lemma_index_of(bps, id, k + 1);
    }
}

/// With increasing ids, the search finds the one index that has the id.
pub proof fn lemma_index_unique(bps: Seq<StoredView>, id: u32)
    requires
        ids_increase(bps),
    ensures
        forall|j: int| 0 <= j < bps.len() && bps[j].id == id ==> index_of(bps, id, 0) == Some(j),
        (forall|m: int| 0 <= m < bps.len() ==> bps[m].id != id) ==> index_of(bps, id, 0) is None,
        index_of(bps, id, 0) matches Some(j) ==> 0 <= j < bps.len() && bps[j].id == id,
{
    lemma_index_of(bps, id, 0);
    assert forall|j: int| 0 <= j < bps.len() && bps[j].id == id implies index_of(bps, id, 0) == Some(j) by {
        match index_of(bps, id, 0) {
            Some(i) => {
                if i < j {
                    assert(bps[i].id < bps[j].id);
                } else if j < i {
                    assert(bps[j].id != id);
                }
            },
            None => {},
        }
    }
}

/// Adding a breakpoint keeps the store consistent and gives it a fresh id:
/// no breakpoint had it before, the new breakpoint has it after (enabled,
/// not yet verified, on the line asked for), and every other breakpoint is
/// found as before.
pub proof fn law_add_fresh(s: StoreView, location: LocationView, condition: Option<Seq<char>>, hit_count: Option<u32>)
    requires
        store_wf(s),
        s.next_id < u32::MAX,
        location matches LocationView::Line(_, l) ==> l <= u32::MAX,
    ensures
        ({
            let id = s.next_id as u32;
            let t = add_view(s, location, condition, hit_count);
            &&& store_wf(t)
            &&& t.next_id == s.next_id + 1
            &&& find(s, id) is None
            &&& find(t, id) == Some(fresh(id, location, condition, hit_count))
            &&& info_of(fresh(id, location, condition, hit_count)).enabled
            &&& !info_of(fresh(id, location, condition, hit_count)).verified
            &&& (location matches LocationView::Line(f, l) ==> info_of(fresh(id, location, condition, hit_count)).line
                == Some(l as u32) && info_of(fresh(id, location, condition, hit_count)).source == Some(f))
            &&& forall|other: u32| other != id ==> find(t, other) == find(s, other)
        }),
{
    let id = s.next_id as u32;
    let t = add_view(s, location, condition, hit_count);
    let b = fresh(id, location, condition, hit_count);
    assert(t.bps == s.bps.push(b));
    assert forall|i: int| 0 <= i < t.bps.len() implies file_listed(t.files, #[trigger] t.bps[i]) by {
        if i < s.bps.len() {
            assert(t.bps[i] == s.bps[i]);
            assert(file_listed(s.files, s.bps[i]));
            match s.bps[i].location {
                LocationView::Line(f, _) => {
                    match location {
                        LocationView::Line(g, _) => {
                            if !s.files.contains(g) {
                                assert(s.files.push(g)[s.files.index_of(f)] == f);
                            }
                        },
                        _ => {},
                    }
                },
                _ => {},
            }
        } else {
            match location {
                LocationView::Line(g, _) => {
                    if !s.files.contains(g) {
                        assert(s.files.push(g)[s.files.len() as int] == g);
                    }
                },
                _ => {},
            }
        }
    }
    match location {
        LocationView::Line(g, _) => {
            if !s.files.contains(g) {
                assert(s.files.push(g).no_duplicates()) by {
                    assert forall|i: int, j: int| 0 <= i < j < s.files.push(g).len() implies s.files.push(g)[i]
                        != s.files.push(g)[j] by {
                        if j == s.files.len() {
                            assert(s.files[i] != g);
                        }
                    }
                }
            }
        },
        _ => {},
    }
    lemma_index_unique(s.bps, id);
    lemma_index_unique(t.bps, id);
    assert(t.bps[s.bps.len() as int] == b);
    assert forall|other: u32| other != id implies find(t, other) == find(s, other) by {
        lemma_index_unique(s.bps, other);
        lemma_index_unique(t.bps, other);
        match index_of(s.bps, other, 0) {
            Some(j) => {
                assert(t.bps[j] == s.bps[j]);
            },
            None => {
                assert forall|m: int| 0 <= m < t.bps.len() implies t.bps[m].id != other by {
                    if m < s.bps.len() {
                        assert(t.bps[m] == s.bps[m]);
                    }
                }
            },
        }
    }
}

/// Removing a breakpoint keeps the store consistent; the breakpoint is no
/// longer found, and every other one is found as before.
pub proof fn law_remove(s: StoreView, id: u32)
    requires
        store_wf(s),
        index_of(s.bps, id, 0) is Some,
    ensures
        ({
            let k = index_of(s.bps, id, 0)->0;
            let t = remove_at(s, k);
            &&& store_wf(t)
            &&& find(t, id) is None
            &&& forall|other: u32| other != id ==> find(t, other) == find(s, other)
        }),
{
    let k = index_of(s.bps, id, 0)->0;
    let t = remove_at(s, k);
    lemma_index_unique(s.bps, id);
    assert forall|i: int| 0 <= i < t.bps.len() implies #[trigger] t.bps[i] == if i < k {
        s.bps[i]
    } else {
        s.bps[i + 1]
    } by {}
    assert forall|i: int, j: int| 0 <= i < j < t.bps.len() implies t.bps[i].id < t.bps[j].id by {
        assert(t.bps[i] == if i < k { s.bps[i] } else { s.bps[i + 1] });
        assert(t.bps[j] == if j < k { s.bps[j] } else { s.bps[j + 1] });
    }
    assert forall|i: int| 0 <= i < t.bps.len() implies file_listed(t.files, #[trigger] t.bps[i]) by {
        if i < k {
            assert(file_listed(s.files, s.bps[i]));
        } else {
            assert(file_listed(s.files, s.bps[i + 1]));
        }
    }
    assert forall|i: int| 0 <= i < t.bps.len() implies t.bps[i].id < t.next_id by {
        if i >= k {
            assert(s.bps[i + 1].id < s.next_id);
        }
    }
    lemma_index_unique(t.bps, id);
    assert forall|m: int| 0 <= m < t.bps.len() implies t.bps[m].id != id by {
        if m < k {
            assert(s.bps[m].id < s.bps[k].id);
        } else {
            assert(s.bps[k].id < s.bps[m + 1].id);
        }
    }
    assert forall|other: u32| other != id implies find(t, other) == find(s, other) by {
        lemma_index_unique(s.bps, other);
        lemma_index_unique(t.bps, other);
        match index_of(s.bps, other, 0) {
            Some(j) => {
                if j < k {
                    assert(t.bps[j] == s.bps[j]);
                } else {
                    assert(j != k);
                    assert(t.bps[j - 1] == s.bps[j]);
                }
            },
            None => {
                assert forall|m: int| 0 <= m < t.bps.len() implies t.bps[m].id != other by {
                    if m < k {
                        assert(t.bps[m] == s.bps[m]);
                    } else {
                        assert(t.bps[m] == s.bps[m + 1]);
                    }
                }
            },
        }
    }
}

/// Enabling or disabling a breakpoint keeps the store consistent and
/// changes that breakpoint's flag alone.
pub proof fn law_enable(s: StoreView, id: u32, enabled: bool)
    requires
        store_wf(s),
        index_of(s.bps, id, 0) is Some,
    ensures
        ({
            let k = index_of(s.bps, id, 0)->0;
            let t = enable_at(s, k, enabled);
            &&& store_wf(t)
            &&& find(t, id) matches Some(b) && b.enabled == enabled && b.id == id && b.location == s.bps[k].location
                && b.condition == s.bps[k].condition && b.hit_count == s.bps[k].hit_count && b.verified
                == s.bps[k].verified && b.actual_line == s.bps[k].actual_line && b.message == s.bps[k].message
            &&& forall|other: u32| other != id ==> find(t, other) == find(s, other)
        }),
{
    let k = index_of(s.bps, id, 0)->0;
    let t = enable_at(s, k, enabled);
    lemma_index_unique(s.bps, id);
    assert forall|i: int| 0 <= i < t.bps.len() implies #[trigger] t.bps[i].id == s.bps[i].id && t.bps[i].location
        == s.bps[i].location by {}
    assert forall|i: int| 0 <= i < t.bps.len() implies file_listed(t.files, #[trigger] t.bps[i]) by {
        assert(file_listed(s.files, s.bps[i]));
    }
    assert forall|i: int, j: int| 0 <= i < j < t.bps.len() implies t.bps[i].id < t.bps[j].id by {
        assert(t.bps[i].id == s.bps[i].id);
        assert(t.bps[j].id == s.bps[j].id);
    }
    assert(store_wf(t));
    lemma_index_unique(t.bps, id);
    assert(t.bps[k].id == id);
    assert(index_of(t.bps, id, 0) == Some(k));
    assert(find(t, id) == Some(t.bps[k]));
    assert forall|other: u32| other != id implies find(t, other) == find(s, other) by {
        lemma_index_unique(s.bps, other);
        lemma_index_unique(t.bps, other);
        match index_of(s.bps, other, 0) {
            Some(j) => {
                assert(j != k);
                assert(t.bps[j] == s.bps[j]);
            },
            None => {
                assert forall|m: int| 0 <= m < t.bps.len() implies t.bps[m].id != other by {
                    assert(t.bps[m].id == s.bps[m].id);
                }
            },
        }
    }
}

/// The group a breakpoint belongs to, for the requests that resend it.
#[derive(Debug)]
pub enum BreakpointGroup {
    /// The source breakpoints of a file.
    Source(String),
    /// The function breakpoints.
    Function,
}

/// The group a value names: a file, or the functions.
pub open spec fn group_key(g: BreakpointGroup) -> Option<Seq<char>> {
    match g {
        BreakpointGroup::Source(f) => Some(f@),
        BreakpointGroup::Function => None,
    }
}

/// The group of a location.
pub open spec fn group_of(l: LocationView) -> Option<Seq<char>> {
    match l {
        LocationView::Line(f, _) => Some(f),
        LocationView::Function(_) => None,
    }
}

/// The breakpoints of a session.
pub struct BreakpointStore {
    files: Vec<String>,
    bps: Vec<StoredBreakpoint>,
    next_id: u32,
}

/// The views of strings.
pub open spec fn texts(v: Seq<String>) -> Seq<Seq<char>> {
    v.map_values(|s: String| s@)
}

impl View for BreakpointStore {
    type V = StoreView;

    closed spec fn view(&self) -> StoreView {
        StoreView { files: texts(self.files@), bps: stored_views(self.bps@), next_id: self.next_id as nat }
    }
}

/// A copy of an optional string.
fn copy_text(o: &Option<String>) -> (r: Option<String>)
    ensures
        opt_text(r) == opt_text(*o),
{
    match o {
        Some(s) => Some(s.clone()),
        None => None,
    }
}

/// Whether two strings are equal.
fn same_text(a: &String, b: &String) -> (r: bool)
    ensures
        r == (a@ == b@),
{
    let x = crate::text::chars_of(a.as_str());
    let y = crate::text::chars_of(b.as_str());
    crate::text::seq_eq(x.as_slice(), y.as_slice())
}

/// Whether a breakpoint belongs to a group.
fn belongs(b: &StoredBreakpoint, group: &BreakpointGroup) -> (r: bool)
    ensures
        r == in_group(b@, group_key(*group)),
{
    match (&b.location, group) {
        (BreakpointLocation::Line { file, .. }, BreakpointGroup::Source(f)) => same_text(file, f),
        (BreakpointLocation::Function { .. }, BreakpointGroup::Function) => true,
        _ => false,
    }
}

/// The hit condition sent for a hit count.
fn hit_text(h: Option<u32>) -> (r: Option<String>)
    ensures
        opt_text(r) == hit_condition(h),
{
    match h {
        Some(n) => {
            let d = crate::number::decimal_chars(n as u64);
            Some(crate::text::string_from(d.as_slice()))
        },
        None => None,
    }
}

/// The report of a kept breakpoint.
fn report(b: &StoredBreakpoint) -> (r: BreakpointInfo)
    ensures
        info_view(r) == info_of(b@),
{
    let (source, line) = match &b.location {
        BreakpointLocation::Line { file, line } => (
            Some(file.clone()),
            match b.actual_line {
                Some(a) => Some(a),
                None => Some(*line),
            },
        ),
        BreakpointLocation::Function { name } => (Some(name.clone()), b.actual_line),
    };
    BreakpointInfo {
        id: b.id,
        verified: b.verified,
        source,
        line,
        message: copy_text(&b.message),
        enabled: b.enabled,
        condition: copy_text(&b.condition),
        hit_count: b.hit_count,
    }
}

impl BreakpointStore {
    /// An empty store; the first breakpoint gets id 1.
    pub fn new() -> (r: Self)
        ensures
            r@.files.len() == 0,
            r@.bps.len() == 0,
            r@.next_id == 1,
            store_wf(r@),
    {
        let r = BreakpointStore { files: Vec::new(), bps: Vec::new(), next_id: 1 };
        proof {
            assert(r@.files =~= Seq::<Seq<char>>::empty());
            assert(r@.bps =~= Seq::<StoredView>::empty());
        }
        r
    }

    /// The index of the breakpoint with the given id.
    fn position(&self, id: u32) -> (r: Option<usize>)
        ensures
            match r {
                Some(k) => index_of(self@.bps, id, 0) == Some(k as int),
                None => index_of(self@.bps, id, 0) is None,
            },
    {
        let ghost v = self@.bps;
        let mut k: usize = 0;
        while k < self.bps.len()
            invariant
                k <= self.bps@.len(),
                v == stored_views(self.bps@),
                index_of(v, id, 0) == index_of(v, id, k as int),
            decreases self.bps@.len() - k,
        {
            assert(v[k as int] == self.bps@[k as int]@);
            if self.bps[k].id == id {
                return Some(k);
            }
            k = k + 1;
        }
        None
    }

    /// Whether a file is listed.
    fn has_file(&self, file: &String) -> (r: bool)
        ensures
            r == self@.files.contains(file@),
    {
        let ghost fs = self@.files;
        let mut k: usize = 0;
        while k < self.files.len()
            invariant
                k <= self.files@.len(),
                fs == texts(self.files@),
                forall|j: int| 0 <= j < k ==> fs[j] != file@,
            decreases self.files@.len() - k,
        {
            if same_text(&self.files[k], file) {
                assert(fs[k as int] == file@);
                return true;
            }
            k = k + 1;
        }
        false
    }

    /// The id the next breakpoint gets.
    pub fn next_id(&self) -> (r: u32)
        ensures
            r == self@.next_id,
    {
        self.next_id
    }

    /// Adds a breakpoint and gives its id, the next one.
    pub fn add(&mut self, location: BreakpointLocation, condition: Option<String>, hit_count: Option<u32>) -> (id: u32)
        requires
            store_wf(old(self)@),
            old(self)@.next_id < u32::MAX,
        ensures
            id == old(self)@.next_id,
            final(self)@ == add_view(old(self)@, location@, opt_text(condition), hit_count),
    {
        let id = self.next_id;
        self.next_id = self.next_id + 1;
        let ghost files_before = self@.files;
        match &location {
            BreakpointLocation::Line { file, .. } => {
                if !self.has_file(file) {
                    let f = file.clone();
                    self.files.push(f);
                    proof {
                        assert(texts(self.files@) =~= files_before.push(file@));
                    }
                }
            },
            BreakpointLocation::Function { .. } => {},
        }
        let ghost bps_before = self@.bps;
        let b = StoredBreakpoint {
            id,
            location,
            condition,
            hit_count,
            enabled: true,
            verified: false,
            actual_line: None,
            message: None,
        };
        self.bps.push(b);
        proof {
            assert(stored_views(self.bps@) =~= bps_before.push(b@));
        }
        id
    }

    /// The report of the breakpoint with the given id.
    pub fn info(&self, id: u32) -> (r: Result<BreakpointInfo, Error>)
        ensures
            match find(self@, id) {
                Some(b) => (r matches Ok(i) && info_view(i) == info_of(b)),
                None => r == Err::<BreakpointInfo, Error>(Error::BreakpointNotFound { id }),
            },
    {
        match self.position(id) {
            Some(k) => {
                proof {
                    lemma_index_of(self@.bps, id, 0);
                }
                assert(self@.bps[k as int] == self.bps@[k as int]@);
                Ok(report(&self.bps[k]))
            },
            None => Err(Error::BreakpointNotFound { id }),
        }
    }

    /// Removes the breakpoint with the given id and says which group to
    /// resend; an unknown id is an error.
    pub fn remove(&mut self, id: u32) -> (r: Result<BreakpointGroup, Error>)
        ensures
            match index_of(old(self)@.bps, id, 0) {
                Some(k) => final(self)@ == remove_at(old(self)@, k) && (r matches Ok(g) && group_key(g) == group_of(
                    old(self)@.bps[k].location,
                )),
                None => final(self)@ == old(self)@ && r == Err::<BreakpointGroup, Error>(
                    Error::BreakpointNotFound { id },
                ),
            },
    {
        match self.position(id) {
            Some(k) => {
                proof {
                    lemma_index_of(self@.bps, id, 0);
                }
                let ghost before = self.bps@;
                let b = self.bps.remove(k);
                proof {
                    assert(stored_views(self.bps@) =~= stored_views(before).remove(k as int));
                    assert(stored_views(before)[k as int] == b@);
                }
                match b.location {
                    BreakpointLocation::Line { file, .. } => Ok(BreakpointGroup::Source(file)),
                    BreakpointLocation::Function { .. } => Ok(BreakpointGroup::Function),
                }
            },
            None => Err(Error::BreakpointNotFound { id }),
        }
    }

    /// Enables or disables the breakpoint with the given id and says which
    /// group to resend; an unknown id is an error.
    pub fn set_enabled(&mut self, id: u32, enabled: bool) -> (r: Result<BreakpointGroup, Error>)
        ensures
            match index_of(old(self)@.bps, id, 0) {
                Some(k) => final(self)@ == enable_at(old(self)@, k, enabled) && (r matches Ok(g) && group_key(g)
                    == group_of(old(self)@.bps[k].location)),
                None => final(self)@ == old(self)@ && r == Err::<BreakpointGroup, Error>(
                    Error::BreakpointNotFound { id },
                ),
            },
    {
        match self.position(id) {
            Some(k) => {
                proof {
                    lemma_index_of(self@.bps, id, 0);
                }
                let ghost before = self.bps@;
                let b = self.bps.remove(k);
                let group = match &b.location {
                    BreakpointLocation::Line { file, .. } => BreakpointGroup::Source(file.clone()),
                    BreakpointLocation::Function { .. } => BreakpointGroup::Function,
                };
                let nb = StoredBreakpoint {
                    id: b.id,
                    location: b.location,
                    condition: b.condition,
                    hit_count: b.hit_count,
                    enabled,
                    verified: b.verified,
                    actual_line: b.actual_line,
                    message: b.message,
                };
                self.bps.insert(k, nb);
                proof {
                    assert(stored_views(self.bps@) =~= stored_views(before).update(k as int, nb@));
                }
                Ok(group)
            },
            None => Err(Error::BreakpointNotFound { id }),
        }
    }

    /// The requests for the enabled breakpoints of a file, in order.
    pub fn source_requests(&self, file: &String) -> (r: Vec<SourceBreakpoint>)
        ensures
            r@.map_values(|x: SourceBreakpoint| source_request_view(x)) == source_requests_of(self@.bps, file@),
    {
        let ghost v = self@.bps;
        let group = BreakpointGroup::Source(file.clone());
        let mut out: Vec<SourceBreakpoint> = Vec::new();
        let mut k: usize = 0;
        proof {
            assert(v.skip(0) =~= v);
            assert(out@.map_values(|x: SourceBreakpoint| source_request_view(x)) =~= Seq::<(u32, Option<Seq<char>>, Option<Seq<char>>)>::empty());
        }
        while k < self.bps.len()
            invariant
                k <= self.bps@.len(),
                v == stored_views(self.bps@),
                group_key(group) == Some(file@),
                out@.map_values(|x: SourceBreakpoint| source_request_view(x)) + source_requests_of(v.skip(k as int), file@)
                    == source_requests_of(v, file@),
            decreases self.bps@.len() - k,
        {
            let b = &self.bps[k];
            proof {
                assert(v.skip(k as int)[0] == b@);
                assert(v.skip(k as int).drop_first() =~= v.skip(k + 1));
            }
            if belongs(b, &group) && b.enabled {
                let line = match &b.location {
                    BreakpointLocation::Line { line, .. } => *line,
                    BreakpointLocation::Function { .. } => 0,
                };
                let req = SourceBreakpoint {
                    line,
                    column: None,
                    condition: copy_text(&b.condition),
                    hit_condition: hit_text(b.hit_count),
                    log_message: None,
                };
                proof {
                    let m = out@.map_values(|x: SourceBreakpoint| source_request_view(x));
                    assert(out@.push(req).map_values(|x: SourceBreakpoint| source_request_view(x)) =~= m.push(
                        source_request_view(req),
                    ));
                    assert(m.push(source_request_view(req)) + source_requests_of(v.skip(k + 1), file@) =~= m + (seq![
                        source_request_view(req),
                    ] + source_requests_of(v.skip(k + 1), file@)));
                }
                out.push(req);
            }
            k = k + 1;
        }
        proof {
            assert(v.skip(k as int) =~= Seq::<StoredView>::empty());
            let m = out@.map_values(|x: SourceBreakpoint| source_request_view(x));
            assert(m + Seq::<(u32, Option<Seq<char>>, Option<Seq<char>>)>::empty() =~= m);
        }
        out
    }

    /// The requests for the enabled function breakpoints, in order.
    pub fn function_requests(&self) -> (r: Vec<FunctionBreakpoint>)
        ensures
            r@.map_values(|x: FunctionBreakpoint| function_request_view(x)) == function_requests_of(self@.bps),
    {
        let ghost v = self@.bps;
        let group = BreakpointGroup::Function;
        let mut out: Vec<FunctionBreakpoint> = Vec::new();
        let mut k: usize = 0;
        proof {
            assert(v.skip(0) =~= v);
            assert(out@.map_values(|x: FunctionBreakpoint| function_request_view(x)) =~= Seq::<(Seq<char>, Option<Seq<char>>, Option<Seq<char>>)>::empty());
        }
        while k < self.bps.len()
            invariant
                k <= self.bps@.len(),
                v == stored_views(self.bps@),
                group_key(group) is None,
                out@.map_values(|x: FunctionBreakpoint| function_request_view(x)) + function_requests_of(v.skip(k as int))
                    == function_requests_of(v),
            decreases self.bps@.len() - k,
        {
            let b = &self.bps[k];
            proof {
                assert(v.skip(k as int)[0] == b@);
                assert(v.skip(k as int).drop_first() =~= v.skip(k + 1));
            }
            if belongs(b, &group) && b.enabled {
                let name = match &b.location {
                    BreakpointLocation::Function { name } => name.clone(),
                    BreakpointLocation::Line { .. } => String::new(),
                };
                let req = FunctionBreakpoint {
                    name,
                    condition: copy_text(&b.condition),
                    hit_condition: hit_text(b.hit_count),
                };
                proof {
                    let m = out@.map_values(|x: FunctionBreakpoint| function_request_view(x));
                    assert(out@.push(req).map_values(|x: FunctionBreakpoint| function_request_view(x)) =~= m.push(
                        function_request_view(req),
                    ));
                    assert(m.push(function_request_view(req)) + function_requests_of(v.skip(k + 1)) =~= m + (seq![
                        function_request_view(req),
                    ] + function_requests_of(v.skip(k + 1))));
                }
                out.push(req);
            }
            k = k + 1;
        }
        proof {
            assert(v.skip(k as int) =~= Seq::<StoredView>::empty());
            let m = out@.map_values(|x: FunctionBreakpoint| function_request_view(x));
            assert(m + Seq::<(Seq<char>, Option<Seq<char>>, Option<Seq<char>>)>::empty() =~= m);
        }
        out
    }

    /// Takes the adapter's answers for a group: the group's breakpoints, in
    /// order, take the answers in order (verified flag, line, message), as
    /// far as there are answers.
    pub fn apply_results(&mut self, group: &BreakpointGroup, results: &[Breakpoint])
        requires
            store_wf(old(self)@),
        ensures
            store_wf(final(self)@),
            final(self)@.files == old(self)@.files,
            final(self)@.next_id == old(self)@.next_id,
            final(self)@.bps == applied(
                old(self)@.bps,
                group_key(*group),
                results@.map_values(|r: Breakpoint| answer_of(r)),
                0,
            ),
    {
        let ghost answers = results@.map_values(|r: Breakpoint| answer_of(r));
        let ghost whole = self@.bps;
        let ghost g = group_key(*group);
        let ghost files0 = self.files@;
        let next0 = self.next_id;
        let n = self.bps.len();
        let mut rest: Vec<StoredBreakpoint> = Vec::new();
        std::mem::swap(&mut rest, &mut self.bps);
        let mut pos: usize = 0;
        proof {
            assert(stored_views(self.bps@) =~= Seq::<StoredView>::empty());
        }
        while rest.len() > 0
            invariant
                stored_views(self.bps@) + applied(stored_views(rest@), g, answers, pos as nat) == applied(whole, g, answers, 0),
                g == group_key(*group),
                answers == results@.map_values(|r: Breakpoint| answer_of(r)),
                pos <= self.bps@.len(),
                self.bps@.len() + rest@.len() == n,
                self.files@ == files0,
                self.next_id == next0,
            decreases rest@.len(),
        {
            let ghost rv = stored_views(rest@);
            let b = rest.remove(0);
            proof {
                assert(stored_views(rest@) =~= rv.drop_first());
                assert(rv[0] == b@);
            }
            let ghost done = stored_views(self.bps@);
            if belongs(&b, group) {
                let nb = if pos < results.len() {
                    let r = &results[pos];
                    StoredBreakpoint {
                        id: b.id,
                        location: b.location,
                        condition: b.condition,
                        hit_count: b.hit_count,
                        enabled: b.enabled,
                        verified: r.verified,
                        actual_line: r.line,
                        message: copy_text(&r.message),
                    }
                } else {
                    b
                };
                proof {
                    assert(stored_views(self.bps@.push(nb)) =~= done.push(nb@));
                    assert(done.push(nb@) + applied(stored_views(rest@), g, answers, (pos + 1) as nat) =~= done + (seq![nb@]
                        + applied(stored_views(rest@), g, answers, (pos + 1) as nat)));
                }
                self.bps.push(nb);
                pos = pos + 1;
            } else {
                proof {
                    assert(stored_views(self.bps@.push(b)) =~= done.push(b@));
                    assert(done.push(b@) + applied(stored_views(rest@), g, answers, pos as nat) =~= done + (seq![b@]
                        + applied(stored_views(rest@), g, answers, pos as nat)));
                }
                self.bps.push(b);
            }
        }
        proof {
            assert(stored_views(rest@) =~= Seq::<StoredView>::empty());
            assert(stored_views(self.bps@) + Seq::<StoredView>::empty() =~= stored_views(self.bps@));
            lemma_applied_keeps(whole, g, answers, 0);
            let t = self@;
            assert(t.bps == applied(whole, g, answers, 0));
            assert forall|i: int| 0 <= i < t.bps.len() implies file_listed(t.files, #[trigger] t.bps[i]) by {
                assert(t.bps[i].location == whole[i].location);
                assert(file_listed(t.files, whole[i]));
            }
            assert forall|i: int, j: int| 0 <= i < j < t.bps.len() implies t.bps[i].id < t.bps[j].id by {
                assert(t.bps[i].id == whole[i].id);
                assert(t.bps[j].id == whole[j].id);
            }
            assert forall|i: int| 0 <= i < t.bps.len() implies t.bps[i].id < t.next_id by {
                assert(t.bps[i].id == whole[i].id);
            }
        }
    }

    /// Appends the reports of a group's breakpoints, in order.
    fn append_group(&self, group: &BreakpointGroup, out: &mut Vec<BreakpointInfo>)
        ensures
            final(out)@.map_values(|x: BreakpointInfo| info_view(x)) == old(out)@.map_values(|x: BreakpointInfo| info_view(x))
                + group_infos(self@.bps, group_key(*group)),
    {
        let ghost v = self@.bps;
        let ghost g = group_key(*group);
        let ghost base = out@.map_values(|x: BreakpointInfo| info_view(x));
        let mut k: usize = 0;
        proof {
            assert(v.skip(0) =~= v);
        }
        while k < self.bps.len()
            invariant
                k <= self.bps@.len(),
                v == stored_views(self.bps@),
                g == group_key(*group),
                out@.map_values(|x: BreakpointInfo| info_view(x)) + group_infos(v.skip(k as int), g) == base + group_infos(v, g),
            decreases self.bps@.len() - k,
        {
            let b = &self.bps[k];
            proof {
                assert(v.skip(k as int)[0] == b@);
                assert(v.skip(k as int).drop_first() =~= v.skip(k + 1));
            }
            if belongs(b, group) {
                let info = report(b);
                proof {
                    let m = out@.map_values(|x: BreakpointInfo| info_view(x));
                    assert(out@.push(info).map_values(|x: BreakpointInfo| info_view(x)) =~= m.push(info_view(info)));
                    assert(m.push(info_view(info)) + group_infos(v.skip(k + 1), g) =~= m + (seq![info_view(info)]
                        + group_infos(v.skip(k + 1), g)));
                }
                out.push(info);
            }
            k = k + 1;
        }
        proof {
            assert(v.skip(k as int) =~= Seq::<StoredView>::empty());
            let m = out@.map_values(|x: BreakpointInfo| info_view(x));
            assert(m + Seq::<InfoView>::empty() =~= m);
        }
    }

    /// The reports of all breakpoints: file by file in the order the files
    /// were first used, then the function breakpoints.
    pub fn list(&self) -> (r: Vec<BreakpointInfo>)
        ensures
            r@.map_values(|i: BreakpointInfo| info_view(i)) == listing(self@.files, self@.bps),
    {
        let ghost fs = self@.files;
        let ghost v = self@.bps;
        let mut out: Vec<BreakpointInfo> = Vec::new();
        let mut i: usize = 0;
        proof {
            assert(fs.skip(0) =~= fs);
            assert(out@.map_values(|x: BreakpointInfo| info_view(x)) =~= Seq::<InfoView>::empty());
            assert(Seq::<InfoView>::empty() + listing(fs, v) =~= listing(fs, v));
        }
        while i < self.files.len()
            invariant
                i <= self.files@.len(),
                fs == texts(self.files@),
                v == self@.bps,
                out@.map_values(|x: BreakpointInfo| info_view(x)) + listing(fs.skip(i as int), v) == listing(fs, v),
            decreases self.files@.len() - i,
        {
            let group = BreakpointGroup::Source(self.files[i].clone());
            let ghost m = out@.map_values(|x: BreakpointInfo| info_view(x));
            proof {
                assert(fs.skip(i as int)[0] == fs[i as int]);
                assert(fs.skip(i as int).drop_first() =~= fs.skip(i + 1));
                assert(group_key(group) == Some(fs[i as int]));
            }
            self.append_group(&group, &mut out);
            proof {
                assert(m + group_infos(v, group_key(group)) + listing(fs.skip(i + 1), v) =~= m + (group_infos(
                    v,
                    group_key(group),
                ) + listing(fs.skip(i + 1), v)));
            }
            i = i + 1;
        }
        proof {
            assert(fs.skip(i as int) =~= Seq::<Seq<char>>::empty());
        }
        self.append_group(&BreakpointGroup::Function, &mut out);
        out
    }

    /// Forgets every breakpoint and file, and gives the files whose
    /// breakpoints the adapter must drop. Ids keep counting.
    pub fn clear(&mut self) -> (r: Vec<String>)
        ensures
            texts(r@) == old(self)@.files,
            final(self)@.files.len() == 0,
            final(self)@.bps.len() == 0,
            final(self)@.next_id == old(self)@.next_id,
            store_wf(old(self)@) ==> store_wf(final(self)@),
    {
        let mut files: Vec<String> = Vec::new();
        std::mem::swap(&mut files, &mut self.files);
        self.bps.clear();
        proof {
            assert(texts(self.files@) =~= Seq::<Seq<char>>::empty());
            assert(stored_views(self.bps@) =~= Seq::<StoredView>::empty());
        }
        files
    }
}

/// Taking answers keeps ids, locations and the store's consistency.
proof fn lemma_applied_keeps(
    bps: Seq<StoredView>,
    group: Option<Seq<char>>,
    answers: Seq<(bool, Option<u32>, Option<Seq<char>>)>,
    pos: nat,
)
    ensures
        applied(bps, group, answers, pos).len() == bps.len(),
        forall|i: int| 0 <= i < bps.len() ==> (#[trigger] applied(bps, group, answers, pos)[i]).id == bps[i].id
            && applied(bps, group, answers, pos)[i].location == bps[i].location,
    decreases bps.len(),
{
    if bps.len() > 0 {
        lemma_applied_keeps(bps.drop_first(), group, answers, if in_group(bps[0], group) { pos + 1 } else { pos });
        let rest = applied(bps.drop_first(), group, answers, if in_group(bps[0], group) { pos + 1 } else { pos });
        assert forall|i: int| 0 <= i < bps.len() implies (#[trigger] applied(bps, group, answers, pos)[i]).id
            == bps[i].id && applied(bps, group, answers, pos)[i].location == bps[i].location by {
            if i > 0 {
                assert(applied(bps, group, answers, pos)[i] == rest[i - 1]);
                assert(bps.drop_first()[i - 1] == bps[i]);
            }
        }
    }
}

/// The requests of a file after one more breakpoint: those before, then the
/// new one's when it is enabled and in that file.
proof fn lemma_requests_push(bps: Seq<StoredView>, x: StoredView, file: Seq<char>)
    ensures
        source_requests_of(bps.push(x), file) == source_requests_of(bps, file) + source_requests_of(seq![x], file),
    decreases bps.len(),
{
    if bps.len() == 0 {
        assert(bps.push(x) =~= seq![x]);
        assert(Seq::<(u32, Option<Seq<char>>, Option<Seq<char>>)>::empty() + source_requests_of(seq![x], file)
            =~= source_requests_of(seq![x], file));
    } else {
        assert(bps.push(x).drop_first() =~= bps.drop_first().push(x));
        assert(bps.push(x)[0] == bps[0]);
        lemma_requests_push(bps.drop_first(), x, file);
        let head = source_requests_of(seq![bps[0]], file);
        assert(seq![bps[0]].drop_first() =~= Seq::<StoredView>::empty());
        let r = source_requests_of(bps.drop_first(), file);
        let t = source_requests_of(seq![x], file);
        if in_group(bps[0], Some(file)) && bps[0].enabled {
            assert(head =~= head + Seq::<(u32, Option<Seq<char>>, Option<Seq<char>>)>::empty());
            assert(head + (r + t) =~= (head + r) + t);
        }
    }
}

/// Adding a breakpoint on a line of a file makes the file's requests those
/// it had, followed by the new breakpoint's: its line, condition and hit
/// count in decimal.
pub proof fn law_add_requests(
    s: StoreView,
    file: Seq<char>,
    line: nat,
    condition: Option<Seq<char>>,
    hit_count: Option<u32>,
)
    requires
        line <= u32::MAX,
    ensures
        source_requests_of(add_view(s, LocationView::Line(file, line), condition, hit_count).bps, file)
            == source_requests_of(s.bps, file).push((line as u32, condition, hit_condition(hit_count))),
{
    let b = fresh(s.next_id as u32, LocationView::Line(file, line), condition, hit_count);
    lemma_requests_push(s.bps, b, file);
    assert(seq![b].drop_first() =~= Seq::<StoredView>::empty());
    assert(seq![b][0] == b);
    assert(source_requests_of(Seq::<StoredView>::empty(), file) =~= Seq::<(u32, Option<Seq<char>>, Option<Seq<char>>)>::empty());
    assert(in_group(b, Some(file)));
    assert(source_requests_of(seq![b], file) =~= seq![(line as u32, condition, hit_condition(hit_count))]);
}

} // verus!
