//! Tab correlator: finding the tab that carries a given correlation id.
//!
//! A correlation id ("bangId") is stored in a tab three ways, because no
//! single store survives everything the page may do: the URL fragment
//! `#<id>` survives same-origin navigation, the global `window.bangId`
//! survives until the next navigation, and `sessionStorage` survives a
//! same-origin reload. The correlator first scans the tab listing for the
//! fragment — a match there answers without opening any probing socket —
//! and otherwise probes every candidate tab's own debugger socket
//! concurrently, asking its JS runtime for the two stored values; the first
//! probe to observe the id wins the race.

use vstd::prelude::*;

use crate::errors::CdpError;
use crate::frame::TargetEntry;
use crate::text::{
    contains_sub, has_substring, is_prefix_of, opt_ref_string_view, opt_string_view, starts_with,
};

verus! {

/// URL schemes whose tabs cannot usefully run `Runtime.evaluate` probes, or
/// are not caller-created content tabs.
pub open spec fn spec_is_invalid_url(u: Seq<char>) -> bool {
    is_prefix_of("ws://"@, u) || is_prefix_of("chrome-extension://"@, u) || is_prefix_of(
        "chrome://"@,
        u,
    ) || is_prefix_of("chrome-untrusted://"@, u) || is_prefix_of("about:"@, u) || is_prefix_of(
        "file://"@,
        u,
    ) || is_prefix_of("data:"@, u) || is_prefix_of("javascript:"@, u)
}

/// Whether `url` is excluded from probing.
pub fn is_invalid_url(url: &str) -> (r: bool)
    ensures
        r == spec_is_invalid_url(url@),
{
    starts_with(url, "ws://") || starts_with(url, "chrome-extension://") || starts_with(
        url,
        "chrome://",
    ) || starts_with(url, "chrome-untrusted://") || starts_with(url, "about:") || starts_with(
        url,
        "file://",
    ) || starts_with(url, "data:") || starts_with(url, "javascript:")
}

/// Whether a tab at `url` can be probed over `Runtime.evaluate`.
pub fn is_probeable(url: &str) -> (r: bool)
    ensures
        r == !spec_is_invalid_url(url@),
{
    !is_invalid_url(url)
}

/// `url` carries the correlation id in its fragment: it contains `#<id>`.
pub open spec fn spec_has_fragment(url: Seq<char>, id: Seq<char>) -> bool {
    has_substring(url, seq!['#'] + id)
}

/// Whether `url` contains the literal text `#<id>`.
pub fn url_has_fragment(url: &str, id: &str) -> (r: bool)
    ensures
        r == spec_has_fragment(url@, id@),
{
    proof {
        reveal_strlit("#");
        assert("#"@ =~= seq!['#']);
    }
    let mut marker = String::from_str("#");
    marker.append(id);
    contains_sub(url, marker.as_str())
}

/// A URL built by appending `#<id>` — as the direct placeholder does, and
/// as stamping the location hash leaves it — always carries the fragment:
/// a tab opened or stamped that way is found on the fast path, with no
/// probing socket opened.
pub proof fn lemma_tagged_url_has_fragment(base: Seq<char>, id: Seq<char>)
    ensures
        spec_has_fragment(base + seq!['#'] + id, id),
{
    let url = base + seq!['#'] + id;
    let marker = seq!['#'] + id;
    assert(url.subrange(base.len() as int, base.len() + marker.len() as int) =~= marker);
    assert(crate::text::has_substring_at(url, marker, base.len() as int));
}

/// A tab worth probing: a content URL, and a debugger socket to probe over.
pub open spec fn spec_is_candidate(e: TargetEntry) -> bool {
    !spec_is_invalid_url(e.url@) && opt_string_view(e.ws_url) is Some
}

/// The correlator's plan for one search: answer from the listing alone, or
/// probe these tabs.
pub struct ProbePlan {
    /// Index of the first tab whose URL already carries `#<id>`; when set,
    /// the search is over and no socket is opened.
    pub fast: Option<usize>,
    /// Otherwise, the indices of every candidate tab, in listing order;
    /// all of them are probed concurrently.
    pub probes: Vec<usize>,
}

/// Plans the search for `id` over the tab listing `tabs`.
///
/// A tab whose URL already contains `#<id>` answers immediately: the plan
/// names the first such tab and no probes at all. Only when no URL carries
/// the fragment does the plan name probe targets: exactly the probeable
/// tabs that offer a debugger socket, each once, in listing order.
pub fn plan_probes(tabs: &Vec<TargetEntry>, id: &str) -> (plan: ProbePlan)
    ensures
        match plan.fast {
            Some(i) => i < tabs@.len() && spec_has_fragment(tabs@[i as int].url@, id@) && (forall|
                j: int,
            |
                0 <= j < i ==> !spec_has_fragment(tabs@[j].url@, id@)) && plan.probes@ == Seq::<
                usize,
            >::empty(),
            None => forall|j: int| 0 <= j < tabs@.len() ==> !spec_has_fragment(tabs@[j].url@, id@),
        },
        plan.fast is None ==> forall|a: int|
            0 <= a < plan.probes@.len() ==> (plan.probes@[a] as int) < tabs@.len()
                && spec_is_candidate(tabs@[plan.probes@[a] as int]),
        plan.fast is None ==> forall|a: int, b: int|
            0 <= a < b < plan.probes@.len() ==> plan.probes@[a] < plan.probes@[b],
        plan.fast is None ==> forall|k: int|
            0 <= k < tabs@.len() && spec_is_candidate(tabs@[k]) ==> exists|a: int|
                0 <= a < plan.probes@.len() && plan.probes@[a] as int == k,
{
    let n = tabs.len();
    let mut i: usize = 0;
    while i < n
        invariant
            i <= n,
            n == tabs@.len(),
            forall|j: int| 0 <= j < i ==> !spec_has_fragment(tabs@[j].url@, id@),
        decreases n - i,
    {
        if url_has_fragment(tabs[i].url.as_str(), id) {
            return ProbePlan { fast: Some(i), probes: Vec::new() };
        }
        i += 1;
    }
    let mut probes: Vec<usize> = Vec::new();
    let mut j: usize = 0;
    while j < n
        invariant
            j <= n,
            n == tabs@.len(),
            forall|a: int| 0 <= a < probes@.len() ==> (probes@[a] as int) < j
                && spec_is_candidate(tabs@[probes@[a] as int]),
            forall|a: int, b: int| 0 <= a < b < probes@.len() ==> probes@[a] < probes@[b],
            forall|k: int| 0 <= k < j && spec_is_candidate(tabs@[k]) ==> exists|a: int|
                0 <= a < probes@.len() && probes@[a] as int == k,
        decreases n - j,
    {
        let e = &tabs[j];
        let has_ws = match &e.ws_url {
            Some(_) => true,
            None => false,
        };
        let ghost probes_before = probes@;
        if is_probeable(e.url.as_str()) && has_ws {
            probes.push(j);
            proof {
                assert forall|k: int| 0 <= k < j + 1 && spec_is_candidate(tabs@[k]) implies exists|
                    a: int,
                |
                    0 <= a < probes@.len() && probes@[a] as int == k by {
                    if k < j {
                        let a = choose|a: int|
                            0 <= a < probes_before.len() && probes_before[a] as int == k;
                        assert(probes@[a] as int == k);
                    } else {
                        assert(probes@[probes@.len() - 1] as int == k);
                    }
                }
            }
        }
        j += 1;
    }
    let ghost final_probes = probes@;
    let plan = ProbePlan { fast: None, probes };
    proof {
        assert forall|k: int|
            0 <= k < tabs@.len() && spec_is_candidate(tabs@[k]) implies exists|a: int|
            0 <= a < plan.probes@.len() && plan.probes@[a] as int == k by {
            assert(exists|a: int| 0 <= a < final_probes.len() && final_probes[a] as int == k);
            let a = choose|a: int| 0 <= a < final_probes.len() && final_probes[a] as int == k;
            assert(plan.probes@[a] as int == k);
        }
    }
    plan
}

/// One tab probe's progress: ask for `window.bangId` first, then for
/// `sessionStorage.getItem('bangId')`, then report whether either value
/// equalled the id searched for.
#[derive(Clone, Copy, Debug, PartialEq, Eq, Structural)]
pub enum TabProbe {
    /// `window.bangId` was asked for; its value is awaited.
    AwaitWindowValue,
    /// `sessionStorage.getItem('bangId')` was asked for; its value is
    /// awaited.
    AwaitSessionValue,
    /// The probe is over; true means this tab carries the id.
    Finished(bool),
}

/// An evaluated store value equals the id searched for.
pub open spec fn spec_value_matches(value: Option<Seq<char>>, id: Seq<char>) -> bool {
    value == Some(id)
}

/// The expression a probe evaluates first.
pub fn window_probe_expression() -> (r: &'static str)
    ensures
        r@ == "window.bangId"@,
{
    "window.bangId"
}

/// The expression a probe evaluates second.
pub fn session_probe_expression() -> (r: &'static str)
    ensures
        r@ == "sessionStorage.getItem('bangId')"@,
{
    "sessionStorage.getItem('bangId')"
}

/// A probe that has asked for `window.bangId`.
pub fn probe_start() -> (r: TabProbe)
    ensures
        r == TabProbe::AwaitWindowValue,
{
    TabProbe::AwaitWindowValue
}

/// Feeds one evaluated value (or a timeout, `None`) into a probe.
///
/// A matching `window.bangId` finishes the probe at once; anything else
/// falls through to the session-storage question, whose answer decides.
pub fn probe_on_value(state: TabProbe, search_id: &str, value: Option<&String>) -> (next: TabProbe)
    ensures
        next == (match state {
            TabProbe::AwaitWindowValue => if spec_value_matches(
                opt_ref_string_view(value),
                search_id@,
            ) {
                TabProbe::Finished(true)
            } else {
                TabProbe::AwaitSessionValue
            },
            TabProbe::AwaitSessionValue => TabProbe::Finished(
                spec_value_matches(opt_ref_string_view(value), search_id@),
            ),
            TabProbe::Finished(b) => TabProbe::Finished(b),
        }),
{
    let matched = match value {
        Some(v) => crate::text::str_eq(v.as_str(), search_id),
        None => false,
    };
    match state {
        TabProbe::AwaitWindowValue => {
            if matched {
                TabProbe::Finished(true)
            } else {
                TabProbe::AwaitSessionValue
            }
        },
        TabProbe::AwaitSessionValue => TabProbe::Finished(matched),
        TabProbe::Finished(b) => TabProbe::Finished(b),
    }
}

/// One finished probe, in the order the probes completed (the fan-out is a
/// race; completion order is not listing order).
#[derive(Clone, Copy, Debug, PartialEq, Eq, Structural)]
pub struct ProbeResult {
    /// Which tab the probe ran against.
    pub tab_index: usize,
    /// Whether that tab carried the id.
    pub matched: bool,
}

/// The first completed probe that matched, if any.
pub open spec fn spec_first_match(results: Seq<ProbeResult>) -> Option<usize>
    decreases results.len(),
{
    if results.len() == 0 {
        None
    } else if results[0].matched {
        Some(results[0].tab_index)
    } else {
        spec_first_match(results.skip(1))
    }
}

/// What the whole search returns: the fast-path tab when the listing
/// already answered, else the first matching probe, else nothing.
pub open spec fn spec_correlate(fast: Option<usize>, results: Seq<ProbeResult>) -> Option<usize> {
    if fast is Some {
        fast
    } else {
        spec_first_match(results)
    }
}

/// Picks the race winner among completed probes: the first match in
/// completion order.
pub fn first_match(results: &Vec<ProbeResult>) -> (r: Option<usize>)
    ensures
        r == spec_first_match(results@),
{
    let n = results.len();
    proof {
        assert(results@.skip(0) =~= results@);
    }
    let mut i: usize = 0;
    while i < n
        invariant
            i <= n,
            n == results@.len(),
            spec_first_match(results@) == spec_first_match(results@.skip(i as int)),
        decreases n - i,
    {
        proof {
            assert(results@.skip(i as int)[0] == results@[i as int]);
            assert(results@.skip(i as int).skip(1) =~= results@.skip(i + 1));
        }
        if results[i].matched {
            return Some(results[i].tab_index);
        }
        i += 1;
    }
    None
}

/// Combines the plan's fast path with the completed probes.
pub fn correlate_outcome(plan: &ProbePlan, results: &Vec<ProbeResult>) -> (r: Option<usize>)
    ensures
        r == spec_correlate(plan.fast, results@),
{
    match plan.fast {
        Some(i) => Some(i),
        None => first_match(results),
    }
}

/// When no tab's URL carries the fragment and no probe observed the id in
/// `window.bangId` or `sessionStorage`, the search reports "not found" —
/// never some unrelated tab.
pub proof fn lemma_unmatched_probes_yield_none(fast: Option<usize>, results: Seq<ProbeResult>)
    requires
        fast is None,
        forall|a: int| 0 <= a < results.len() ==> !results[a].matched,
    ensures
        spec_correlate(fast, results) == None::<usize>,
    decreases results.len(),
{
    if results.len() > 0 {
        lemma_unmatched_probes_yield_none(fast, results.skip(1));
    }
}

/// What the page-side store of one tab holds: the three places a
/// correlation id is kept in.
#[derive(Debug, Clone)]
pub struct PageStore {
    /// `window.location.hash` (without the `#`).
    pub hash: String,
    /// The global `window.bangId`.
    pub global: Option<String>,
    /// `sessionStorage['bangId']`.
    pub session: Option<String>,
}

/// The mathematical value of a page-side store.
pub struct PageStoreView {
    pub hash: Seq<char>,
    pub global: Option<Seq<char>>,
    pub session: Option<Seq<char>>,
}

impl View for PageStore {
    type V = PageStoreView;

    open spec fn view(&self) -> PageStoreView {
        PageStoreView {
            hash: self.hash@,
            global: opt_string_view(self.global),
            session: opt_string_view(self.session),
        }
    }
}

/// What stamping writes: the id into the URL hash and into the global,
/// leaving session storage as it was.
pub open spec fn spec_apply_stamp(p: PageStoreView, id: Seq<char>) -> PageStoreView {
    PageStoreView { hash: id, global: Some(id), session: p.session }
}

/// What the verification read-back observes.
pub open spec fn spec_read_global(p: PageStoreView) -> Option<Seq<char>> {
    p.global
}

/// The script `stamp_correlation_id` runs first:
/// `window.location.hash = '<id>';`.
pub fn set_hash_script(bang_id: &str) -> (r: String)
    ensures
        r@ == "window.location.hash = '"@ + bang_id@ + "';"@,
{
    let mut s = String::from_str("window.location.hash = '");
    s.append(bang_id);
    s.append("';");
    s
}

/// The script `stamp_correlation_id` runs second: `window.bangId='<id>';`.
pub fn set_global_script(bang_id: &str) -> (r: String)
    ensures
        r@ == "window.bangId='"@ + bang_id@ + "';"@,
{
    let mut s = String::from_str("window.bangId='");
    s.append(bang_id);
    s.append("';");
    s
}

/// The read-back expression `stamp_correlation_id` verifies with.
pub fn read_global_expression() -> (r: &'static str)
    ensures
        r@ == "window.bangId"@,
{
    "window.bangId"
}

/// The effect of the two stamping scripts on a tab's page-side store.
pub fn apply_stamp(page: &mut PageStore, bang_id: &str)
    ensures
        final(page)@ == spec_apply_stamp(old(page)@, bang_id@),
{
    page.hash = String::from_str(bang_id);
    page.global = Some(String::from_str(bang_id));
}

/// The stored global of a page, as the read-back probe observes it.
pub fn read_global(page: &PageStore) -> (r: Option<&String>)
    ensures
        opt_ref_string_view(r) == spec_read_global(page@),
{
    match &page.global {
        Some(v) => Some(v),
        None => None,
    }
}

/// What stamping verification reports: success exactly when the read-back
/// observed the stamped id; a missing answer is a timeout and a different
/// answer a mismatch — both reported, neither fatal.
pub open spec fn spec_check_stamp(expected: Seq<char>, observed: Option<Seq<char>>) -> Result<
    (),
    CdpError,
> {
    match observed {
        None => Err(CdpError::RequestTimeout),
        Some(v) => if v == expected {
            Ok(())
        } else {
            Err(CdpError::VerificationMismatch)
        },
    }
}

/// Checks the read-back value against the id that was stamped.
pub fn check_stamp(expected: &str, observed: Option<&String>) -> (r: Result<(), CdpError>)
    ensures
        r == spec_check_stamp(expected@, opt_ref_string_view(observed)),
{
    match observed {
        None => Err(CdpError::RequestTimeout),
        Some(v) => {
            if crate::text::str_eq(v.as_str(), expected) {
                Ok(())
            } else {
                Err(CdpError::VerificationMismatch)
            }
        },
    }
}

/// Stamping a tab and immediately reading the store back observes the
/// stamped id, whatever the store held before — provided nothing navigated
/// in between (the model touches no other field): the verification
/// succeeds, and a probe for that id on the stamped store matches.
pub proof fn lemma_stamp_round_trip(p: PageStoreView, id: Seq<char>)
    ensures
        spec_read_global(spec_apply_stamp(p, id)) == Some(id),
        spec_check_stamp(id, spec_read_global(spec_apply_stamp(p, id))) is Ok,
        spec_value_matches(spec_read_global(spec_apply_stamp(p, id)), id),
{
}

} // verus!
