//! One tab-open request: its options, its placeholder URL, and its flow.
//!
//! A request travels `Idle → Resolving-Endpoint → Correlating`, then either
//! activates and positions an existing tab or creates, stamps and positions
//! a new one. Failures of secondary steps are reported, not fatal: the
//! request is best-effort by design.

use vstd::prelude::*;

use vstd::utf8::encode_utf8;

use crate::b64::{base64_encode, base64_encoding};
use crate::bangs::{spec_get_last, BangParams};
use crate::text::{all_digits, dec_val, opt_string_view, parse_u64};

verus! {

/// `v` equals `"true"` up to ASCII case.
pub open spec fn spec_is_true_ci(v: Seq<char>) -> bool {
    v.len() == 4 && (v[0] == 't' || v[0] == 'T') && (v[1] == 'r' || v[1] == 'R') && (v[2] == 'u'
        || v[2] == 'U') && (v[3] == 'e' || v[3] == 'E')
}

fn is_true_ci(v: &str) -> (r: bool)
    ensures
        r == spec_is_true_ci(v@),
{
    if v.unicode_len() != 4 {
        return false;
    }
    let c0 = v.get_char(0);
    let c1 = v.get_char(1);
    let c2 = v.get_char(2);
    let c3 = v.get_char(3);
    (c0 == 't' || c0 == 'T') && (c1 == 'r' || c1 == 'R') && (c2 == 'u' || c2 == 'U') && (c3 == 'e'
        || c3 == 'E')
}

/// The options one request carries in its bang parameters.
pub struct OpenConfig {
    /// The correlation id, exactly as written (possibly empty: the caller
    /// then substitutes a fresh one, see [`effective_bang_id`]).
    pub bang_id: Option<String>,
    /// Open a separate window in a fresh browser context.
    pub open_window: bool,
    /// Close the found tab instead of keeping it.
    pub close: bool,
    /// Reload the found tab.
    pub refresh: bool,
    /// Capture a screenshot after opening.
    pub screenshot: bool,
    /// Leave focus where it was.
    pub keep_focus: bool,
    /// Close the tab again after this many seconds.
    pub timeout_seconds: Option<u64>,
    /// Place the window on this monitor.
    pub monitor_index: Option<usize>,
    /// Undo the monitor's DPI scaling when positioning.
    pub dpi_scaling_enabled: bool,
}

/// Reads the request options out of the bang parameters: presence flags
/// for the switches, parsed numbers for timeout and monitor, and a
/// case-insensitive `true` for DPI scaling.
pub fn open_config_from_params(params: &BangParams) -> (c: OpenConfig)
    ensures
        opt_string_view(c.bang_id) == spec_get_last(params@, "id"@),
        c.open_window == (spec_get_last(params@, "openwindow"@) is Some),
        c.close == (spec_get_last(params@, "close"@) is Some),
        c.refresh == (spec_get_last(params@, "refresh"@) is Some),
        c.screenshot == (spec_get_last(params@, "screenshot"@) is Some),
        c.keep_focus == (spec_get_last(params@, "keep_focus"@) is Some),
        match spec_get_last(params@, "timeout"@) {
            None => c.timeout_seconds is None,
            Some(v) => (c.timeout_seconds is Some <==> v.len() > 0 && all_digits(v) && dec_val(v)
                <= u64::MAX) && (c.timeout_seconds matches Some(t) ==> t as nat == dec_val(v)),
        },
        match spec_get_last(params@, "monitor"@) {
            None => c.monitor_index is None,
            Some(v) => (c.monitor_index is Some <==> v.len() > 0 && all_digits(v) && dec_val(v)
                <= usize::MAX) && (c.monitor_index matches Some(m) ==> m as nat == dec_val(v)),
        },
        c.dpi_scaling_enabled == (match spec_get_last(params@, "dpi"@) {
            None => false,
            Some(v) => spec_is_true_ci(v),
        }),
{
    let bang_id = match params.get("id") {
        Some(v) => Some(v.clone()),
        None => None,
    };
    let timeout_seconds = match params.get("timeout") {
        Some(v) => parse_u64(v.as_str()),
        None => None,
    };
    let monitor_index = match params.get("monitor") {
        Some(v) => match parse_u64(v.as_str()) {
            Some(n) => {
                if n <= usize::MAX as u64 {
                    Some(n as usize)
                } else {
                    None
                }
            },
            None => None,
        },
        None => None,
    };
    let dpi_scaling_enabled = match params.get("dpi") {
        Some(v) => is_true_ci(v.as_str()),
        None => false,
    };
    OpenConfig {
        bang_id,
        open_window: params.contains_key("openwindow"),
        close: params.contains_key("close"),
        refresh: params.contains_key("refresh"),
        screenshot: params.contains_key("screenshot"),
        keep_focus: params.contains_key("keep_focus"),
        timeout_seconds,
        monitor_index,
        dpi_scaling_enabled,
    }
}

/// The id a request actually uses: the written one, or — when `id` was
/// written empty, asking for a generated one — the freshly minted
/// `fallback`; no id at all means the request is not correlated.
pub fn effective_bang_id(raw: Option<&String>, fallback: &str) -> (r: Option<String>)
    ensures
        match raw {
            None => r is None,
            Some(v) => if v@.len() == 0 {
                opt_string_view(r) == Some(fallback@)
            } else {
                opt_string_view(r) == Some(v@)
            },
        },
{
    match raw {
        None => None,
        Some(v) => {
            if v.as_str().unicode_len() == 0 {
                Some(String::from_str(fallback))
            } else {
                Some(v.clone())
            }
        },
    }
}

/// The URL a directly opened tab navigates to: the target with the
/// correlation id appended as its fragment.
pub fn direct_placeholder_url(clean_url: &str, bang_id: &str) -> (r: String)
    ensures
        r@ == clean_url@ + "#"@ + bang_id@,
{
    let mut s = String::from_str(clean_url);
    s.append("#");
    s.append(bang_id);
    s
}

/// The small redirect page embedded into a `data:` URL when a window is
/// opened with a display delay: it stores the correlation id in both
/// JS-visible stores first, then navigates to the real target.
pub open spec fn spec_redirect_page(bang_id: Seq<char>, clean_url: Seq<char>, delay: nat) -> Seq<
    char,
> {
    "<!DOCTYPE html><html><head><script>window.bangId='"@ + bang_id
        + "';try{sessionStorage.setItem('bangId','"@ + bang_id
        + "');}catch(e){}setTimeout(function(){window.location.replace('"@ + clean_url + "');},"@
        + crate::text::spec_dec(delay) + "*1000);</script></head><body></body></html>"@
}

/// Renders the redirect page for one request.
pub fn redirect_page_html(bang_id: &str, clean_url: &str, delay_seconds: u64) -> (r: String)
    ensures
        r@ == spec_redirect_page(bang_id@, clean_url@, delay_seconds as nat),
{
    let mut s = String::from_str("<!DOCTYPE html><html><head><script>window.bangId='");
    s.append(bang_id);
    s.append("';try{sessionStorage.setItem('bangId','");
    s.append(bang_id);
    s.append("');}catch(e){}setTimeout(function(){window.location.replace('");
    s.append(clean_url);
    s.append("');},");
    let delay = crate::text::u64_to_dec(delay_seconds);
    s.append(delay.as_str());
    s.append("*1000);</script></head><body></body></html>");
    s
}

/// The `data:` URL a delayed window navigates to: the redirect page,
/// base64-encoded, with the correlation id as the fragment — so the id
/// survives in the URL even before the page has run.
pub fn redirect_placeholder_url(bang_id: &str, clean_url: &str, delay_seconds: u64) -> (r: String)
    ensures
        r@ == "data:text/html;base64,"@ + base64_encoding(
            encode_utf8(spec_redirect_page(bang_id@, clean_url@, delay_seconds as nat)),
        ) + "#"@ + bang_id@,
{
    let html = redirect_page_html(bang_id, clean_url, delay_seconds);
    let bytes = html.as_str().as_bytes_vec();
    let encoded = base64_encode(&bytes);
    let mut s = String::from_str("data:text/html;base64,");
    s.append(encoded.as_str());
    s.append("#");
    s.append(bang_id);
    s
}

/// The URL a new target navigates to: direct (fragment-tagged) unless a
/// delayed redirect was asked for.
pub fn placeholder_url(clean_url: &str, bang_id: &str, use_direct: bool, redirect_seconds: Option<
    u64,
>) -> (r: String)
    ensures
        (match redirect_seconds {
            None => true,
            Some(d) => use_direct || d == 0,
        }) ==> r@ == clean_url@ + "#"@ + bang_id@,
        (match redirect_seconds {
            None => false,
            Some(d) => !use_direct && d > 0,
        }) ==> r@ == "data:text/html;base64,"@ + base64_encoding(
            encode_utf8(
                spec_redirect_page(bang_id@, clean_url@, (redirect_seconds->0) as nat),
            ),
        ) + "#"@ + bang_id@,
{
    let delay: u64 = match redirect_seconds {
        Some(d) => d,
        None => 0,
    };
    if use_direct || delay == 0 {
        direct_placeholder_url(clean_url, bang_id)
    } else {
        redirect_placeholder_url(bang_id, clean_url, delay)
    }
}

/// Which close command a tab gets: closing the profile picker shuts the
/// whole browser down, anything else closes only the target.
#[derive(Clone, Copy, Debug, PartialEq, Eq, Structural)]
pub enum CloseChoice {
    /// Send `Browser.close`.
    CloseBrowser,
    /// Send `Target.closeTarget`.
    CloseTarget,
}

/// Decides between closing the browser and closing one tab.
pub fn close_choice_for(url: &str) -> (r: CloseChoice)
    ensures
        r == (if url@ == "chrome://profile-picker/"@ {
            CloseChoice::CloseBrowser
        } else {
            CloseChoice::CloseTarget
        }),
{
    if crate::text::str_eq(url, "chrome://profile-picker/") {
        CloseChoice::CloseBrowser
    } else {
        CloseChoice::CloseTarget
    }
}

/// Where one tab-open request stands.
#[derive(Clone, Copy, Debug, PartialEq, Eq, Structural)]
pub enum OpenPhase {
    /// Nothing submitted yet.
    Idle,
    /// Waiting for the endpoint resolver.
    ResolvingEndpoint,
    /// Searching for a tab that already carries the id.
    Correlating,
    /// A tab was found; it is being activated.
    Activating,
    /// No tab carried the id; one is being created.
    Creating,
    /// The new tab is being stamped with the id.
    Stamping,
    /// The window is being positioned.
    Positioning,
    /// The request is over (also reached on a create failure: the request
    /// is best-effort, failures are reported, not retried).
    Done,
}

/// What happened to the request since the last step.
#[derive(Clone, Copy, Debug, PartialEq, Eq, Structural)]
pub enum OpenEvent {
    Submitted,
    EndpointReady,
    TabFound,
    TabNotFound,
    Activated,
    Created,
    CreateFailed,
    Stamped,
    Positioned,
}

/// The request's transition relation.
pub open spec fn spec_open_step(phase: OpenPhase, ev: OpenEvent) -> OpenPhase {
    match (phase, ev) {
        (OpenPhase::Idle, OpenEvent::Submitted) => OpenPhase::ResolvingEndpoint,
        (OpenPhase::ResolvingEndpoint, OpenEvent::EndpointReady) => OpenPhase::Correlating,
        (OpenPhase::Correlating, OpenEvent::TabFound) => OpenPhase::Activating,
        (OpenPhase::Correlating, OpenEvent::TabNotFound) => OpenPhase::Creating,
        (OpenPhase::Activating, OpenEvent::Activated) => OpenPhase::Positioning,
        (OpenPhase::Creating, OpenEvent::Created) => OpenPhase::Stamping,
        (OpenPhase::Creating, OpenEvent::CreateFailed) => OpenPhase::Done,
        (OpenPhase::Stamping, OpenEvent::Stamped) => OpenPhase::Positioning,
        (OpenPhase::Positioning, OpenEvent::Positioned) => OpenPhase::Done,
        _ => phase,
    }
}

/// Advances one request by one event; an event that does not belong to
/// the current phase changes nothing.
pub fn open_step(phase: OpenPhase, ev: OpenEvent) -> (next: OpenPhase)
    ensures
        next == spec_open_step(phase, ev),
{
    match (phase, ev) {
        (OpenPhase::Idle, OpenEvent::Submitted) => OpenPhase::ResolvingEndpoint,
        (OpenPhase::ResolvingEndpoint, OpenEvent::EndpointReady) => OpenPhase::Correlating,
        (OpenPhase::Correlating, OpenEvent::TabFound) => OpenPhase::Activating,
        (OpenPhase::Correlating, OpenEvent::TabNotFound) => OpenPhase::Creating,
        (OpenPhase::Activating, OpenEvent::Activated) => OpenPhase::Positioning,
        (OpenPhase::Creating, OpenEvent::Created) => OpenPhase::Stamping,
        (OpenPhase::Creating, OpenEvent::CreateFailed) => OpenPhase::Done,
        (OpenPhase::Stamping, OpenEvent::Stamped) => OpenPhase::Positioning,
        (OpenPhase::Positioning, OpenEvent::Positioned) => OpenPhase::Done,
        _ => phase,
    }
}

/// The pushed title of a `Target.targetInfoChanged` event can be stale, so
/// the monitor re-queries it; the queried title wins, the pushed one is
/// only the fallback when the query failed.
pub fn title_from_eval(pushed: &str, queried: Option<String>) -> (r: String)
    ensures
        match queried {
            Some(t) => r@ == t@,
            None => r@ == pushed@,
        },
{
    match queried {
        Some(t) => t,
        None => String::from_str(pushed),
    }
}

} // verus!
