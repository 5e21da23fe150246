//! Plain-value model of inbound CDP frames.
//!
//! The browser sends JSON text frames; the crate's logic never looks at raw
//! JSON but at these types, which hold exactly the fields the logic reads.
//! A frame is a response if and only if it carries a top-level `id`;
//! otherwise it is an event (`method` + `params`).

use vstd::prelude::*;

use crate::text::opt_string_view;

verus! {

/// The mathematical value of one target entry.
pub struct TargetEntryView {
    pub target_id: Seq<char>,
    pub url: Seq<char>,
    pub title: Seq<char>,
    pub kind: Seq<char>,
    pub attached: Option<bool>,
    pub browser_context_id: Option<Seq<char>>,
    pub ws_url: Option<Seq<char>>,
}

/// One target (tab) as the control plane and the lifecycle events describe
/// it: an entry of `GET /json`, or the `targetInfo` member of a
/// `Target.targetCreated` / `Target.targetInfoChanged` event.
#[derive(Debug, Clone)]
pub struct TargetEntry {
    /// Opaque id, stable for the tab's lifetime, assigned by the browser.
    pub target_id: String,
    /// Current navigation URL.
    pub url: String,
    /// Current document title.
    pub title: String,
    /// The target's type; only `"page"` targets are content tabs.
    pub kind: String,
    /// Whether a client is attached; absent in control-plane listings.
    pub attached: Option<bool>,
    /// Profile partition the tab was created in, when isolated.
    pub browser_context_id: Option<String>,
    /// The tab's own debugger socket URL, when the control plane offers one.
    pub ws_url: Option<String>,
}

impl View for TargetEntry {
    type V = TargetEntryView;

    open spec fn view(&self) -> TargetEntryView {
        TargetEntryView {
            target_id: self.target_id@,
            url: self.url@,
            title: self.title@,
            kind: self.kind@,
            attached: self.attached,
            browser_context_id: opt_string_view(self.browser_context_id),
            ws_url: opt_string_view(self.ws_url),
        }
    }
}

/// The mathematical value of a response's result fields.
pub struct ResponsePayloadView {
    pub target_id: Option<Seq<char>>,
    pub browser_context_id: Option<Seq<char>>,
    pub data: Option<Seq<char>>,
    pub eval_value: Option<Seq<char>>,
    pub window_id: Option<u64>,
}

/// The result fields a response can carry; each command reads a subset.
#[derive(Debug, Clone)]
pub struct ResponsePayload {
    /// `result.targetId` of `Target.createTarget`.
    pub target_id: Option<String>,
    /// `result.browserContextId` of `Target.createBrowserContext`.
    pub browser_context_id: Option<String>,
    /// `result.data` of `Page.captureScreenshot`: base64-encoded image bytes.
    pub data: Option<String>,
    /// `result.result.value` of `Runtime.evaluate`, when it is a string.
    pub eval_value: Option<String>,
    /// `result.windowId` of `Browser.getWindowForTarget`.
    pub window_id: Option<u64>,
}

impl ResponsePayload {
    /// A payload with no fields set.
    pub fn empty() -> (r: ResponsePayload)
        ensures
            r.target_id is None,
            r.browser_context_id is None,
            r.data is None,
            r.eval_value is None,
            r.window_id is None,
    {
        ResponsePayload {
            target_id: None,
            browser_context_id: None,
            data: None,
            eval_value: None,
            window_id: None,
        }
    }
}

impl View for ResponsePayload {
    type V = ResponsePayloadView;

    open spec fn view(&self) -> ResponsePayloadView {
        ResponsePayloadView {
            target_id: opt_string_view(self.target_id),
            browser_context_id: opt_string_view(self.browser_context_id),
            data: opt_string_view(self.data),
            eval_value: opt_string_view(self.eval_value),
            window_id: self.window_id,
        }
    }
}

/// The mathematical value of a pushed event.
pub enum CdpEventView {
    TargetCreated(TargetEntryView),
    TargetInfoChanged(TargetEntryView),
    TargetDestroyed { target_id: Seq<char> },
    DetachedFromTarget { browser_context_id: Option<Seq<char>> },
    InspectorDetached,
    Other { method: Seq<char> },
}

/// A browser-pushed event, already narrowed to the methods the monitor and
/// the correlator consume.
#[derive(Debug, Clone)]
pub enum CdpEvent {
    /// `Target.targetCreated`.
    TargetCreated(TargetEntry),
    /// `Target.targetInfoChanged`.
    TargetInfoChanged(TargetEntry),
    /// `Target.targetDestroyed`.
    TargetDestroyed { target_id: String },
    /// `Target.detachedFromTarget`.
    DetachedFromTarget { browser_context_id: Option<String> },
    /// `Inspector.detached`: the browser may be gone; confirm before
    /// declaring a disconnect.
    InspectorDetached,
    /// Any other pushed method; carried for logging, never acted upon.
    Other { method: String },
}

impl View for CdpEvent {
    type V = CdpEventView;

    open spec fn view(&self) -> CdpEventView {
        match self {
            CdpEvent::TargetCreated(e) => CdpEventView::TargetCreated(e@),
            CdpEvent::TargetInfoChanged(e) => CdpEventView::TargetInfoChanged(e@),
            CdpEvent::TargetDestroyed { target_id } => (CdpEventView::TargetDestroyed {
                target_id: target_id@,
            }),
            CdpEvent::DetachedFromTarget { browser_context_id } => (
            CdpEventView::DetachedFromTarget {
                browser_context_id: opt_string_view(*browser_context_id),
            }),
            CdpEvent::InspectorDetached => CdpEventView::InspectorDetached,
            CdpEvent::Other { method } => (CdpEventView::Other { method: method@ }),
        }
    }
}

/// The mathematical value of one inbound frame.
pub enum InboundFrameView {
    Response { id: u64, is_error: bool, payload: ResponsePayloadView },
    Event(CdpEventView),
    Malformed,
}

/// One decoded inbound frame.
#[derive(Debug, Clone)]
pub enum InboundFrame {
    /// A frame with a top-level `id`: the response to the pending request
    /// with that id. `is_error` says whether it carried an `error` member
    /// instead of a `result`.
    Response { id: u64, is_error: bool, payload: ResponsePayload },
    /// A frame without an `id`: a pushed event.
    Event(CdpEvent),
    /// Text that did not parse as a JSON object: logged and skipped,
    /// never fatal.
    Malformed,
}

impl View for InboundFrame {
    type V = InboundFrameView;

    open spec fn view(&self) -> InboundFrameView {
        match self {
            InboundFrame::Response { id, is_error, payload } => (InboundFrameView::Response {
                id: *id,
                is_error: *is_error,
                payload: payload@,
            }),
            InboundFrame::Event(ev) => InboundFrameView::Event(ev@),
            InboundFrame::Malformed => InboundFrameView::Malformed,
        }
    }
}

} // verus!
