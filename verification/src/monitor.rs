//! Live target event monitor: a tab table kept fresh by folding
//! `Target.*` lifecycle events and `Inspector.detached` into it.
//!
//! The browser owns the truth; this table is a best-effort cache keyed by
//! target id, never a lock. The fold below is verified: insertions,
//! updates and removals are pinned down per event, and the table's target
//! ids stay unique throughout.

use vstd::prelude::*;

use crate::commands::set_discover_targets_command;
use crate::frame::{CdpEvent, TargetEntry};
use crate::text::{opt_string_view, str_eq};
use crate::wire::spec_request;

verus! {

/// One cached tab.
#[derive(Debug, Clone)]
pub struct Tab {
    /// Browser-assigned id, the table key.
    pub target_id: String,
    /// Last known navigation URL.
    pub url: String,
    /// Last known document title.
    pub title: String,
    /// Caller-assigned correlation id, when one is known.
    pub bang_id: String,
    /// Profile partition the tab belongs to, when isolated.
    pub browser_context_id: Option<String>,
}

/// The mathematical value of one cached tab.
pub struct TabView {
    pub target_id: Seq<char>,
    pub url: Seq<char>,
    pub title: Seq<char>,
    pub bang_id: Seq<char>,
    pub browser_context_id: Option<Seq<char>>,
}

impl View for Tab {
    type V = TabView;

    open spec fn view(&self) -> TabView {
        TabView {
            target_id: self.target_id@,
            url: self.url@,
            title: self.title@,
            bang_id: self.bang_id@,
            browser_context_id: opt_string_view(self.browser_context_id),
        }
    }
}

/// The views of a row sequence.
pub open spec fn views_of(s: Seq<Tab>) -> Seq<TabView> {
    s.map_values(|t: Tab| t@)
}

/// Some row of `s` has target id `id`.
pub open spec fn has_id(s: Seq<TabView>, id: Seq<char>) -> bool {
    exists|i: int| 0 <= i < s.len() && s[i].target_id == id
}

/// `new` is `old` with the row keyed like `tab` replaced by `tab`, or with
/// `tab` appended when no row had its key.
pub open spec fn spec_upserted(old: Seq<TabView>, new: Seq<TabView>, tab: TabView) -> bool {
    if has_id(old, tab.target_id) {
        exists|i: int| 0 <= i < old.len() && old[i].target_id == tab.target_id && new == old.update(
            i,
            tab,
        )
    } else {
        new == old.push(tab)
    }
}

/// `new` is `old` without the row keyed `id`, or unchanged when no row had
/// that key.
pub open spec fn spec_removed(old: Seq<TabView>, new: Seq<TabView>, id: Seq<char>) -> bool {
    if has_id(old, id) {
        exists|i: int| 0 <= i < old.len() && old[i].target_id == id && new == old.remove(i)
    } else {
        new == old
    }
}

/// A target is a content tab worth caching: a `"page"` target that is not
/// explicitly detached.
pub open spec fn spec_is_page_entry(kind: Seq<char>, attached: Option<bool>) -> bool {
    kind == "page"@ && attached != Some(false)
}

/// The row a `Target.targetCreated` event inserts for `e`: the pushed url
/// and title, no correlation id yet.
pub open spec fn spec_created_row(e: TargetEntry) -> TabView {
    TabView {
        target_id: e.target_id@,
        url: e.url@,
        title: e.title@,
        bang_id: Seq::<char>::empty(),
        browser_context_id: opt_string_view(e.browser_context_id),
    }
}

/// Target ids are pairwise distinct in `s`.
pub open spec fn ids_unique(s: Seq<TabView>) -> bool {
    forall|i: int, j: int| 0 <= i < j < s.len() ==> s[i].target_id != s[j].target_id
}

/// Once a `Target.targetDestroyed` event is folded in, no row with the
/// destroyed id remains in the table.
pub proof fn lemma_removed_row_is_gone(old: Seq<TabView>, new: Seq<TabView>, id: Seq<char>)
    requires
        ids_unique(old),
        spec_removed(old, new, id),
    ensures
        !has_id(new, id),
{
    if has_id(old, id) {
        let i = choose|i: int|
            0 <= i < old.len() && old[i].target_id == id && new == old.remove(i);
        assert forall|j: int| 0 <= j < new.len() implies new[j].target_id != id by {
            if j < i {
                assert(new[j] == old[j]);
            } else {
                assert(new[j] == old[j + 1]);
            }
        }
    }
}

/// Once a row is upserted, the table holds exactly that row under its id.
pub proof fn lemma_upserted_row_is_present(old: Seq<TabView>, new: Seq<TabView>, tab: TabView)
    requires
        spec_upserted(old, new, tab),
    ensures
        exists|i: int| 0 <= i < new.len() && new[i] == tab,
        has_id(new, tab.target_id),
{
    if has_id(old, tab.target_id) {
        let i = choose|i: int|
            0 <= i < old.len() && old[i].target_id == tab.target_id && new == old.update(i, tab);
        assert(new[i] == tab);
    } else {
        assert(new[old.len() as int] == tab);
    }
}

/// What the monitor asks its caller to do after folding one event.
pub enum MonitorAction {
    /// Nothing to do.
    Nothing,
    /// Fetch the tab's title over a fresh attach + evaluate round-trip
    /// (the title pushed with `Target.targetInfoChanged` can be stale),
    /// then call [`TabTable::apply_info_changed`] with the result.
    QueryTitle { target_id: String },
    /// `Inspector.detached` arrived: probe `GET /json` once and hand the
    /// outcome to [`DisconnectLatch::on_probe`]; a single detached frame is
    /// not yet proof that the browser is gone.
    ProbeEndpoint,
}

/// The shared tab table.
pub struct TabTable {
    tabs: Vec<Tab>,
}

impl View for TabTable {
    type V = Seq<TabView>;

    closed spec fn view(&self) -> Seq<TabView> {
        views_of(self.tabs@)
    }
}

impl TabTable {
    /// Target ids are unique across the table.
    pub open spec fn wf(self) -> bool {
        ids_unique(self@)
    }

    /// An empty table.
    pub fn new() -> (r: TabTable)
        ensures
            r.wf(),
            r@ == Seq::<TabView>::empty(),
    {
        let t = TabTable { tabs: Vec::new() };
        proof {
            assert(t@ =~= Seq::<TabView>::empty());
        }
        t
    }

    /// How many tabs are cached.
    pub fn len(&self) -> (r: usize)
        ensures
            r == self@.len(),
    {
        self.tabs.len()
    }

    /// Drops every row (used when a monitor connection is re-established
    /// and the table is rebuilt from a fresh listing).
    pub fn clear(&mut self)
        ensures
            final(self).wf(),
            final(self)@ == Seq::<TabView>::empty(),
    {
        self.tabs.clear();
        proof {
            assert(self@ =~= Seq::<TabView>::empty());
        }
    }

    /// The rows, in insertion order.
    pub fn rows(&self) -> (r: &Vec<Tab>)
        ensures
            views_of(r@) == self@,
    {
        &self.tabs
    }

    fn index_of(&self, id: &str) -> (r: Option<usize>)
        ensures
            match r {
                Some(i) => i < self@.len() && self@[i as int].target_id == id@ && forall|j: int|
                    0 <= j < i ==> self@[j].target_id != id@,
                None => !has_id(self@, id@),
            },
    {
        let n = self.tabs.len();
        let mut i: usize = 0;
        while i < n
            invariant
                i <= n,
                n == self@.len(),
                n == self.tabs@.len(),
                forall|j: int| 0 <= j < i ==> self@[j].target_id != id@,
            decreases n - i,
        {
            if str_eq(self.tabs[i].target_id.as_str(), id) {
                return Some(i);
            }
            i += 1;
        }
        None
    }

    /// Looks a tab up by target id.
    pub fn get(&self, id: &str) -> (r: Option<&Tab>)
        ensures
            match r {
                Some(t) => has_id(self@, id@) && t@.target_id == id@ && exists|i: int|
                    0 <= i < self@.len() && self@[i] == t@,
                None => !has_id(self@, id@),
            },
    {
        match self.index_of(id) {
            Some(i) => Some(&self.tabs[i]),
            None => None,
        }
    }

    /// Inserts `tab`, replacing the row with the same target id if one is
    /// there.
    pub fn upsert(&mut self, tab: Tab)
        requires
            old(self).wf(),
        ensures
            final(self).wf(),
            spec_upserted(old(self)@, final(self)@, tab@),
    {
        match self.index_of(tab.target_id.as_str()) {
            Some(i) => {
                self.tabs[i] = tab;
                proof {
                    assert(self@ =~= old(self)@.update(i as int, tab@));
                }
            },
            None => {
                self.tabs.push(tab);
                proof {
                    assert(self@ =~= old(self)@.push(tab@));
                }
            },
        }
    }

    /// Removes the row keyed `id`; says whether one was there.
    pub fn remove(&mut self, id: &str) -> (r: bool)
        requires
            old(self).wf(),
        ensures
            final(self).wf(),
            spec_removed(old(self)@, final(self)@, id@),
            r == has_id(old(self)@, id@),
    {
        match self.index_of(id) {
            Some(i) => {
                self.tabs.remove(i);
                proof {
                    assert(self@ =~= old(self)@.remove(i as int));
                }
                true
            },
            None => false,
        }
    }

    /// Removes every row of the profile partition `ctx` (the browser
    /// detached from that whole context).
    pub fn remove_context(&mut self, ctx: &str)
        requires
            old(self).wf(),
        ensures
            final(self).wf(),
            final(self)@ == old(self)@.filter(
                |tv: TabView| tv.browser_context_id != Some(ctx@),
            ),
    {
        let ghost pred = |tv: TabView| tv.browser_context_id != Some(ctx@);
        let n = self.tabs.len();
        let mut kept: Vec<Tab> = Vec::new();
        proof {
            reveal(Seq::filter);
            assert(views_of(self.tabs@.take(0)) =~= Seq::<TabView>::empty());
            assert(views_of(kept@) =~= views_of(self.tabs@.take(0)).filter(pred));
        }
        let mut i: usize = 0;
        while i < n
            invariant
                i <= n,
                n == self.tabs@.len(),
                self.tabs@ == old(self).tabs@,
                old(self).wf(),
                views_of(kept@) == views_of(self.tabs@.take(i as int)).filter(pred),
                pred == (|tv: TabView| tv.browser_context_id != Some(ctx@)),
                forall|a: int| 0 <= a < kept@.len() ==> exists|k: int|
                    0 <= k < i && #[trigger] views_of(kept@)[a] == views_of(self.tabs@)[k],
                forall|a: int, b: int| 0 <= a < b < kept@.len() ==> views_of(
                    kept@,
                )[a].target_id != views_of(kept@)[b].target_id,
            decreases n - i,
        {
            let t = &self.tabs[i];
            let matches_ctx = match &t.browser_context_id {
                Some(c) => str_eq(c.as_str(), ctx),
                None => false,
            };
            proof {
                reveal(Seq::filter);
                let prefix = views_of(self.tabs@.take(i as int));
                let next = views_of(self.tabs@.take(i + 1));
                assert(next.drop_last() =~= prefix);
                assert(next.last() == self.tabs@[i as int]@);
            }
            if !matches_ctx {
                let copy = Tab {
                    target_id: t.target_id.clone(),
                    url: t.url.clone(),
                    title: t.title.clone(),
                    bang_id: t.bang_id.clone(),
                    browser_context_id: match &t.browser_context_id {
                        Some(c) => Some(c.clone()),
                        None => None,
                    },
                };
                proof {
                    assert(copy@ == self.tabs@[i as int]@);
                }
                let ghost kept_before = kept@;
                kept.push(copy);
                proof {
                    assert(views_of(kept@) =~= views_of(kept_before).push(self.tabs@[i as int]@));
                    assert forall|a: int| 0 <= a < kept@.len() implies exists|k: int|
                        0 <= k <= i && #[trigger] views_of(kept@)[a] == views_of(self.tabs@)[k] by {
                        if a < kept_before.len() {
                            assert(views_of(kept@)[a] == views_of(kept_before)[a]);
                        } else {
                            assert(views_of(kept@)[a] == views_of(self.tabs@)[i as int]);
                        }
                    }
                    assert forall|a: int, b: int|
                        0 <= a < b < kept@.len() implies views_of(kept@)[a].target_id != views_of(
                        kept@,
                    )[b].target_id by {
                        if b == kept@.len() - 1 {
                            let k = choose|k: int|
                                0 <= k < i && #[trigger] views_of(kept_before)[a] == views_of(
                                    self.tabs@,
                                )[k];
                            assert(views_of(self.tabs@)[k].target_id != views_of(
                                self.tabs@,
                            )[i as int].target_id);
                        }
                    }
                }
            }
            i += 1;
        }
        proof {
            assert(self.tabs@.take(n as int) =~= self.tabs@);
        }
        self.tabs = kept;
        proof {
            assert(self.wf());
        }
    }

    /// Applies a `Target.targetInfoChanged` event: the pushed url and the
    /// (separately queried) `title` replace the row's fields; a row the
    /// table did not have yet is inserted with no correlation id.
    pub fn apply_info_changed(&mut self, e: &TargetEntry, title: &str)
        requires
            old(self).wf(),
        ensures
            final(self).wf(),
            has_id(old(self)@, e.target_id@) ==> exists|i: int|
                0 <= i < old(self)@.len() && old(self)@[i].target_id == e.target_id@
                    && final(self)@ == old(self)@.update(
                    i,
                    TabView {
                        target_id: old(self)@[i].target_id,
                        url: e.url@,
                        title: title@,
                        bang_id: old(self)@[i].bang_id,
                        browser_context_id: old(self)@[i].browser_context_id,
                    },
                ),
            !has_id(old(self)@, e.target_id@) ==> final(self)@ == old(self)@.push(
                TabView {
                    target_id: e.target_id@,
                    url: e.url@,
                    title: title@,
                    bang_id: Seq::<char>::empty(),
                    browser_context_id: opt_string_view(e.browser_context_id),
                },
            ),
    {
        match self.index_of(e.target_id.as_str()) {
            Some(i) => {
                let row = &self.tabs[i];
                let updated = Tab {
                    target_id: row.target_id.clone(),
                    url: e.url.clone(),
                    title: String::from_str(title),
                    bang_id: row.bang_id.clone(),
                    browser_context_id: match &row.browser_context_id {
                        Some(c) => Some(c.clone()),
                        None => None,
                    },
                };
                self.tabs[i] = updated;
                proof {
                    assert(self@ =~= old(self)@.update(
                        i as int,
                        TabView {
                            target_id: old(self)@[i as int].target_id,
                            url: e.url@,
                            title: title@,
                            bang_id: old(self)@[i as int].bang_id,
                            browser_context_id: old(self)@[i as int].browser_context_id,
                        },
                    ));
                }
            },
            None => {
                let row = Tab {
                    target_id: e.target_id.clone(),
                    url: e.url.clone(),
                    title: String::from_str(title),
                    bang_id: String::new(),
                    browser_context_id: match &e.browser_context_id {
                        Some(c) => Some(c.clone()),
                        None => None,
                    },
                };
                self.tabs.push(row);
                proof {
                    assert(self@ =~= old(self)@.push(
                        TabView {
                            target_id: e.target_id@,
                            url: e.url@,
                            title: title@,
                            bang_id: Seq::<char>::empty(),
                            browser_context_id: opt_string_view(e.browser_context_id),
                        },
                    ));
                }
            },
        }
    }

    /// Folds one pushed event into the table.
    ///
    /// Creations insert content tabs (`"page"`, not explicitly detached)
    /// and ignore everything else; destructions remove by key; an info
    /// change only asks the caller to fetch a fresh title — the table
    /// changes when the caller comes back with `apply_info_changed`;
    /// a context-wide detach drops the whole partition; and
    /// `Inspector.detached` asks for a control-plane probe.
    pub fn apply_event(&mut self, ev: &CdpEvent) -> (act: MonitorAction)
        requires
            old(self).wf(),
        ensures
            final(self).wf(),
            match ev {
                CdpEvent::TargetCreated(e) => (if spec_is_page_entry(e.kind@, e.attached) {
                    spec_upserted(old(self)@, final(self)@, spec_created_row(*e))
                } else {
                    final(self)@ == old(self)@
                }) && act is Nothing,
                CdpEvent::TargetInfoChanged(e) => final(self)@ == old(self)@ && (if
                spec_is_page_entry(e.kind@, e.attached) {
                    act matches MonitorAction::QueryTitle { target_id } && target_id@
                        == e.target_id@
                } else {
                    act is Nothing
                }),
                CdpEvent::TargetDestroyed { target_id } => spec_removed(
                    old(self)@,
                    final(self)@,
                    target_id@,
                ) && act is Nothing,
                CdpEvent::DetachedFromTarget { browser_context_id } => (match browser_context_id {
                    Some(ctx) => final(self)@ == old(self)@.filter(
                        |tv: TabView| tv.browser_context_id != Some(ctx@),
                    ),
                    None => final(self)@ == old(self)@,
                }) && act is Nothing,
                CdpEvent::InspectorDetached => final(self)@ == old(self)@ && act is ProbeEndpoint,
                CdpEvent::Other { .. } => final(self)@ == old(self)@ && act is Nothing,
            },
    {
        match ev {
            CdpEvent::TargetCreated(e) => {
                if is_page_entry(e) {
                    let row = Tab {
                        target_id: e.target_id.clone(),
                        url: e.url.clone(),
                        title: e.title.clone(),
                        bang_id: String::new(),
                        browser_context_id: match &e.browser_context_id {
                            Some(c) => Some(c.clone()),
                            None => None,
                        },
                    };
                    proof {
                        assert(row@ == spec_created_row(*e));
                    }
                    self.upsert(row);
                }
                MonitorAction::Nothing
            },
            CdpEvent::TargetInfoChanged(e) => {
                if is_page_entry(e) {
                    MonitorAction::QueryTitle { target_id: e.target_id.clone() }
                } else {
                    MonitorAction::Nothing
                }
            },
            CdpEvent::TargetDestroyed { target_id } => {
                self.remove(target_id.as_str());
                MonitorAction::Nothing
            },
            CdpEvent::DetachedFromTarget { browser_context_id } => {
                match browser_context_id {
                    Some(ctx) => {
                        self.remove_context(ctx.as_str());
                    },
                    None => {},
                }
                MonitorAction::Nothing
            },
            CdpEvent::InspectorDetached => MonitorAction::ProbeEndpoint,
            CdpEvent::Other { .. } => MonitorAction::Nothing,
        }
    }
}

/// Whether an event's target is a content tab worth caching.
fn is_page_entry(e: &TargetEntry) -> (r: bool)
    ensures
        r == spec_is_page_entry(e.kind@, e.attached),
{
    let is_page = str_eq(e.kind.as_str(), "page");
    let detached = match e.attached {
        Some(a) => !a,
        None => false,
    };
    is_page && !detached
}

/// Begins one monitor session, on a fresh connection or after a socket
/// drop: the table is emptied — stale rows must not survive a reconnect —
/// and the first command to send on the new browser socket comes back:
/// `Target.setDiscoverTargets {"discover": true}`, so the table is rebuilt
/// solely from the lifecycle events that follow.
pub fn start_monitoring(table: &mut TabTable, command_id: u64) -> (cmd: String)
    ensures
        final(table).wf(),
        final(table)@ == Seq::<TabView>::empty(),
        cmd@ == spec_request(
            command_id,
            "Target.setDiscoverTargets"@,
            Some(crate::commands::spec_discover_params(true)),
        ),
{
    table.clear();
    set_discover_targets_command(command_id, true)
}

/// The one-time "browser likely gone" latch.
///
/// A single `Inspector.detached` frame is not treated as a disconnect: the
/// control plane is probed first, and only a failed probe flips the latch;
/// once flipped, later detach events are ignored.
pub struct DisconnectLatch {
    /// Whether the disconnect has already been reported.
    pub reported: bool,
}

impl DisconnectLatch {
    /// A latch that has reported nothing.
    pub fn new() -> (r: DisconnectLatch)
        ensures
            !r.reported,
    {
        DisconnectLatch { reported: false }
    }

    /// Whether an `Inspector.detached` event still warrants a probe.
    pub fn should_probe(&self) -> (r: bool)
        ensures
            r == !self.reported,
    {
        !self.reported
    }

    /// Folds a control-plane probe outcome in; the result says whether the
    /// disconnect must be reported now — true exactly once, on the first
    /// failed probe.
    pub fn on_probe(&mut self, reachable: bool) -> (report: bool)
        ensures
            report == (!old(self).reported && !reachable),
            final(self).reported == (old(self).reported || !reachable),
    {
        let report = !self.reported && !reachable;
        if !reachable {
            self.reported = true;
        }
        report
    }
}

} // verus!
