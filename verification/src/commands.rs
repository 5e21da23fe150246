//! The typed tab command set.
//!
//! Each builder returns the exact text frame of one CDP command; the
//! contracts pin the full JSON text down to the character, so a caller can
//! see, for instance, that window geometry is sent if and only if it was
//! given. The close-retry policy and the screenshot decoding live here too.

use vstd::prelude::*;

use crate::errors::CdpError;
use crate::frame::ResponsePayload;
use crate::text::{opt_str_view, spec_dec, spec_dec_int};
use crate::wire::{
    append_bool_field, append_int_field, append_obj_field, append_str_field, append_uint_field,
    encode_request, field_text, json_bool, json_string, spec_request,
};

verus! {

/// Window geometry for a newly created window: absolute pixels, already
/// resolved against the target monitor.
#[derive(Clone, Copy, Debug, PartialEq, Eq, Structural)]
pub struct Bounds {
    pub x: i32,
    pub y: i32,
    pub w: i32,
    pub h: i32,
}

/// Params body of the commands that take only a `targetId`.
pub open spec fn spec_target_id_params(target_id: Seq<char>) -> Seq<char> {
    field_text("targetId"@, json_string(target_id))
}

/// Params body of `Target.createTarget`.
///
/// The four geometry members appear if and only if `bounds` is given; a
/// call without bounds omits them entirely rather than sending zeros.
pub open spec fn spec_create_target_params(
    url: Seq<char>,
    ctx: Option<Seq<char>>,
    bounds: Option<Bounds>,
    new_window: bool,
) -> Seq<char> {
    field_text("url"@, json_string(url)) + (match ctx {
        None => Seq::<char>::empty(),
        Some(c) => seq![','] + field_text("browserContextId"@, json_string(c)),
    }) + (match bounds {
        None => Seq::<char>::empty(),
        Some(b) => seq![','] + field_text("left"@, spec_dec_int(b.x as int)) + seq![',']
            + field_text("top"@, spec_dec_int(b.y as int)) + seq![','] + field_text(
            "width"@,
            spec_dec_int(b.w as int),
        ) + seq![','] + field_text("height"@, spec_dec_int(b.h as int)),
    }) + (if new_window {
        seq![','] + field_text("newWindow"@, json_bool(true))
    } else {
        Seq::<char>::empty()
    })
}

/// Params body of `Runtime.evaluate`.
pub open spec fn spec_evaluate_params(expression: Seq<char>, return_by_value: Option<
    bool,
>) -> Seq<char> {
    field_text("expression"@, json_string(expression)) + (match return_by_value {
        None => Seq::<char>::empty(),
        Some(b) => seq![','] + field_text("returnByValue"@, json_bool(b)),
    })
}

/// Params body of `Browser.setWindowBounds`.
pub open spec fn spec_set_window_bounds_params(window_id: u64, b: Bounds) -> Seq<char> {
    field_text("windowId"@, spec_dec(window_id as nat)) + seq![','] + field_text(
        "bounds"@,
        seq!['{'] + field_text("left"@, spec_dec_int(b.x as int)) + seq![','] + field_text(
            "top"@,
            spec_dec_int(b.y as int),
        ) + seq![','] + field_text("width"@, spec_dec_int(b.w as int)) + seq![','] + field_text(
            "height"@,
            spec_dec_int(b.h as int),
        ) + seq!['}'],
    )
}

/// Params body of `Target.attachToTarget`.
pub open spec fn spec_attach_params(target_id: Seq<char>) -> Seq<char> {
    field_text("targetId"@, json_string(target_id)) + seq![','] + field_text(
        "flatten"@,
        json_bool(true),
    )
}

/// Params body of `Target.setDiscoverTargets`.
pub open spec fn spec_discover_params(discover: bool) -> Seq<char> {
    field_text("discover"@, json_bool(discover))
}

/// `Target.createBrowserContext`: opens an isolated profile partition.
pub fn create_browser_context_command(id: u64) -> (r: String)
    ensures
        r@ == spec_request(id, "Target.createBrowserContext"@, None),
{
    encode_request(id, "Target.createBrowserContext", None)
}

/// `Target.createTarget`: navigates a new tab (or window) to `url`.
///
/// Geometry is included if and only if `bounds` is given.
#[verifier::rlimit(60)]
pub fn create_target_command(
    id: u64,
    url: &str,
    ctx: Option<&str>,
    bounds: Option<Bounds>,
    new_window: bool,
) -> (r: String)
    ensures
        r@ == spec_request(
            id,
            "Target.createTarget"@,
            Some(spec_create_target_params(url@, opt_str_view(ctx), bounds, new_window)),
        ),
{
    let mut body = String::new();
    append_str_field(&mut body, "url", url);
    proof {
        assert(body@.len() > 0);
    }
    match ctx {
        None => {},
        Some(c) => {
            append_str_field(&mut body, "browserContextId", c);
            proof {
                assert(body@.len() > 0);
            }
        },
    }
    match bounds {
        None => {},
        Some(b) => {
            append_int_field(&mut body, "left", b.x as i64);
            proof {
                assert(body@.len() > 0);
            }
            append_int_field(&mut body, "top", b.y as i64);
            proof {
                assert(body@.len() > 0);
            }
            append_int_field(&mut body, "width", b.w as i64);
            proof {
                assert(body@.len() > 0);
            }
            append_int_field(&mut body, "height", b.h as i64);
            proof {
                assert(body@.len() > 0);
            }
        },
    }
    if new_window {
        append_bool_field(&mut body, "newWindow", true);
    }
    proof {
        assert(body@ =~= spec_create_target_params(url@, opt_str_view(ctx), bounds, new_window));
    }
    encode_request(id, "Target.createTarget", Some(&body))
}

/// `Target.activateTarget`: brings the tab to the front inside the browser;
/// fire-and-acknowledge, with no guarantee about OS-level window order.
pub fn activate_target_command(id: u64, target_id: &str) -> (r: String)
    ensures
        r@ == spec_request(id, "Target.activateTarget"@, Some(spec_target_id_params(target_id@))),
{
    let mut body = String::new();
    append_str_field(&mut body, "targetId", target_id);
    proof {
        assert(body@ =~= spec_target_id_params(target_id@));
    }
    encode_request(id, "Target.activateTarget", Some(&body))
}

/// `Target.closeTarget`: asks the browser to close the tab.
pub fn close_target_command(id: u64, target_id: &str) -> (r: String)
    ensures
        r@ == spec_request(id, "Target.closeTarget"@, Some(spec_target_id_params(target_id@))),
{
    let mut body = String::new();
    append_str_field(&mut body, "targetId", target_id);
    proof {
        assert(body@ =~= spec_target_id_params(target_id@));
    }
    encode_request(id, "Target.closeTarget", Some(&body))
}

/// `Target.setDiscoverTargets`: subscribes to target lifecycle events.
pub fn set_discover_targets_command(id: u64, discover: bool) -> (r: String)
    ensures
        r@ == spec_request(id, "Target.setDiscoverTargets"@, Some(spec_discover_params(discover))),
{
    let mut body = String::new();
    append_bool_field(&mut body, "discover", discover);
    proof {
        assert(body@ =~= spec_discover_params(discover));
    }
    encode_request(id, "Target.setDiscoverTargets", Some(&body))
}

/// `Target.attachToTarget`: attaches to a tab over the browser connection.
pub fn attach_to_target_command(id: u64, target_id: &str) -> (r: String)
    ensures
        r@ == spec_request(id, "Target.attachToTarget"@, Some(spec_attach_params(target_id@))),
{
    let mut body = String::new();
    append_str_field(&mut body, "targetId", target_id);
    proof {
        assert(body@.len() > 0);
    }
    append_bool_field(&mut body, "flatten", true);
    proof {
        assert(body@ =~= spec_attach_params(target_id@));
    }
    encode_request(id, "Target.attachToTarget", Some(&body))
}

/// `Browser.getWindowForTarget`: resolves the OS window owning a tab.
pub fn get_window_for_target_command(id: u64, target_id: &str) -> (r: String)
    ensures
        r@ == spec_request(
            id,
            "Browser.getWindowForTarget"@,
            Some(spec_target_id_params(target_id@)),
        ),
{
    let mut body = String::new();
    append_str_field(&mut body, "targetId", target_id);
    proof {
        assert(body@ =~= spec_target_id_params(target_id@));
    }
    encode_request(id, "Browser.getWindowForTarget", Some(&body))
}

/// `Browser.setWindowBounds`: positions the window found by
/// `Browser.getWindowForTarget`.
pub fn set_window_bounds_command(id: u64, window_id: u64, b: Bounds) -> (r: String)
    ensures
        r@ == spec_request(
            id,
            "Browser.setWindowBounds"@,
            Some(spec_set_window_bounds_params(window_id, b)),
        ),
{
    let mut inner = String::new();
    append_int_field(&mut inner, "left", b.x as i64);
    proof {
        assert(inner@.len() > 0);
    }
    append_int_field(&mut inner, "top", b.y as i64);
    proof {
        assert(inner@.len() > 0);
    }
    append_int_field(&mut inner, "width", b.w as i64);
    proof {
        assert(inner@.len() > 0);
    }
    append_int_field(&mut inner, "height", b.h as i64);
    let mut body = String::new();
    append_uint_field(&mut body, "windowId", window_id);
    proof {
        assert(body@.len() > 0);
    }
    append_obj_field(&mut body, "bounds", &inner);
    proof {
        assert(body@ =~= spec_set_window_bounds_params(window_id, b));
    }
    encode_request(id, "Browser.setWindowBounds", Some(&body))
}

/// `Browser.close`: shuts the whole browser down.
pub fn browser_close_command(id: u64) -> (r: String)
    ensures
        r@ == spec_request(id, "Browser.close"@, None),
{
    encode_request(id, "Browser.close", None)
}

/// `Page.enable`: required before `Page.captureScreenshot`.
pub fn page_enable_command(id: u64) -> (r: String)
    ensures
        r@ == spec_request(id, "Page.enable"@, None),
{
    encode_request(id, "Page.enable", None)
}

/// `Page.reload`: best-effort refresh; a response is not required for
/// success.
pub fn page_reload_command(id: u64) -> (r: String)
    ensures
        r@ == spec_request(id, "Page.reload"@, Some(Seq::<char>::empty())),
{
    let body = String::new();
    encode_request(id, "Page.reload", Some(&body))
}

/// `Page.captureScreenshot`: the response carries the image base64-encoded.
pub fn capture_screenshot_command(id: u64) -> (r: String)
    ensures
        r@ == spec_request(id, "Page.captureScreenshot"@, None),
{
    encode_request(id, "Page.captureScreenshot", None)
}

/// `Runtime.enable`: required before evaluating scripts on some tabs.
pub fn runtime_enable_command(id: u64) -> (r: String)
    ensures
        r@ == spec_request(id, "Runtime.enable"@, None),
{
    encode_request(id, "Runtime.enable", None)
}

/// `Runtime.evaluate`: runs `expression` in the tab; `return_by_value`
/// is sent only when given.
pub fn runtime_evaluate_command(id: u64, expression: &str, return_by_value: Option<bool>) -> (r:
    String)
    ensures
        r@ == spec_request(
            id,
            "Runtime.evaluate"@,
            Some(spec_evaluate_params(expression@, return_by_value)),
        ),
{
    let mut body = String::new();
    append_str_field(&mut body, "expression", expression);
    proof {
        assert(body@.len() > 0);
    }
    match return_by_value {
        None => {},
        Some(b) => {
            append_bool_field(&mut body, "returnByValue", b);
        },
    }
    proof {
        assert(body@ =~= spec_evaluate_params(expression@, return_by_value));
    }
    encode_request(id, "Runtime.evaluate", Some(&body))
}

/// How many times a close is retried before giving up.
pub const CLOSE_MAX_ATTEMPTS: u32 = 20;

/// What one close attempt produced.
#[derive(Clone, Copy, Debug, PartialEq, Eq, Structural)]
pub enum CloseOutcome {
    /// A frame with the command's own id came back: the browser acknowledged
    /// the close (even an error body is a clear answer — the tab is gone or
    /// never existed).
    Confirmed,
    /// No frame with the command's id arrived within the attempt's bound.
    NoConfirmation,
}

/// Where the close loop stands after an attempt.
#[derive(Clone, Copy, Debug, PartialEq, Eq, Structural)]
pub enum CloseStatus {
    /// Acknowledged; the loop is over.
    Closed,
    /// Not acknowledged yet; send again after the retry delay.
    Retry,
    /// The attempt budget is exhausted; logged, non-fatal to the caller
    /// (the tab may already be gone).
    GaveUp,
}

/// The retry loop of `Target.closeTarget`: one command under one id, its
/// identical frame re-sent every attempt, each attempt awaiting that same
/// id — so a late acknowledgement still counts. The browser may be slow to
/// acknowledge under load, so the command is re-sent a bounded number of
/// times with a fixed spacing.
pub struct CloseRetry {
    /// Attempts made so far.
    pub attempts: u32,
}

impl CloseRetry {
    /// One attempt's effect on the loop state.
    pub open spec fn spec_step(self, outcome: CloseOutcome) -> (CloseRetry, CloseStatus) {
        match outcome {
            CloseOutcome::Confirmed => (self, CloseStatus::Closed),
            CloseOutcome::NoConfirmation => {
                let next = CloseRetry { attempts: (self.attempts + 1) as u32 };
                if self.attempts + 1 >= CLOSE_MAX_ATTEMPTS {
                    (next, CloseStatus::GaveUp)
                } else {
                    (next, CloseStatus::Retry)
                }
            },
        }
    }

    /// A loop that has not tried yet.
    pub fn new() -> (r: CloseRetry)
        ensures
            r.attempts == 0,
    {
        CloseRetry { attempts: 0 }
    }

    /// Records one attempt's outcome and says whether to retry.
    pub fn record(&mut self, outcome: CloseOutcome) -> (s: CloseStatus)
        requires
            old(self).attempts < CLOSE_MAX_ATTEMPTS,
        ensures
            (*final(self), s) == old(self).spec_step(outcome),
            s == CloseStatus::Retry ==> final(self).attempts < CLOSE_MAX_ATTEMPTS,
    {
        match outcome {
            CloseOutcome::Confirmed => CloseStatus::Closed,
            CloseOutcome::NoConfirmation => {
                self.attempts = self.attempts + 1;
                if self.attempts >= CLOSE_MAX_ATTEMPTS {
                    CloseStatus::GaveUp
                } else {
                    CloseStatus::Retry
                }
            },
        }
    }
}

/// Where a close loop run ends after the given attempt outcomes: it walks
/// the outcomes until one attempt closes the tab or the budget runs out;
/// `Retry` means the outcomes ran out first.
pub open spec fn spec_close_run(start: CloseRetry, outcomes: Seq<CloseOutcome>) -> CloseStatus
    decreases outcomes.len(),
{
    if outcomes.len() == 0 {
        CloseStatus::Retry
    } else {
        let stepped = start.spec_step(outcomes[0]);
        match stepped.1 {
            CloseStatus::Closed => CloseStatus::Closed,
            CloseStatus::GaveUp => CloseStatus::GaveUp,
            CloseStatus::Retry => spec_close_run(stepped.0, outcomes.skip(1)),
        }
    }
}

/// Closing a tab never hangs: whatever the browser does — including never
/// acknowledging, as for a target it already destroyed — the retry loop
/// ends within the attempt budget, either on a confirming response or by
/// giving up.
pub proof fn lemma_close_run_terminates(start: CloseRetry, outcomes: Seq<CloseOutcome>)
    requires
        start.attempts < CLOSE_MAX_ATTEMPTS,
        outcomes.len() >= CLOSE_MAX_ATTEMPTS - start.attempts,
    ensures
        spec_close_run(start, outcomes) != CloseStatus::Retry,
    decreases outcomes.len(),
{
    let stepped = start.spec_step(outcomes[0]);
    match stepped.1 {
        CloseStatus::Closed => {},
        CloseStatus::GaveUp => {},
        CloseStatus::Retry => {
            lemma_close_run_terminates(stepped.0, outcomes.skip(1));
        },
    }
}

/// What `screenshot_from_response` returns: a timeout is reported as
/// `ScreenshotTimeout`, a response without usable base64 data as
/// `ProtocolError`, and anything else as the decoded image bytes.
pub open spec fn spec_screenshot_result(r: Option<ResponsePayload>) -> Result<Seq<u8>, CdpError> {
    match r {
        None => Err(CdpError::ScreenshotTimeout),
        Some(p) => match p.data {
            None => Err(CdpError::ProtocolError),
            Some(d) => match crate::b64::base64_decoding(d@) {
                None => Err(CdpError::ProtocolError),
                Some(bytes) => Ok(bytes),
            },
        },
    }
}

/// Turns the awaited `Page.captureScreenshot` response into image bytes.
///
/// `None` stands for a round-trip that timed out: it yields
/// `ScreenshotTimeout`, never a hang or a crash.
pub fn screenshot_from_response(r: Option<ResponsePayload>) -> (res: Result<Vec<u8>, CdpError>)
    ensures
        match res {
            Ok(bytes) => spec_screenshot_result(r) == Ok::<Seq<u8>, CdpError>(bytes@),
            Err(e) => spec_screenshot_result(r) == Err::<Seq<u8>, CdpError>(e),
        },
{
    match r {
        None => Err(CdpError::ScreenshotTimeout),
        Some(p) => match p.data {
            None => Err(CdpError::ProtocolError),
            Some(d) => match crate::b64::base64_decode(d.as_str()) {
                None => Err(CdpError::ProtocolError),
                Some(bytes) => Ok(bytes),
            },
        },
    }
}

} // verus!
