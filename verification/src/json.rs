//! Decoding inbound JSON text into the crate's plain frame model.
//!
//! Parsing is done by `serde_json` behind trusted wrappers. What a parsed
//! value holds is described by [`JsonModel`], a mathematical JSON tree:
//! the name [`spec_parsed_json`] stands for the (deterministic) parse of a
//! text, and [`spec_value_model`] for the tree a parsed value holds. Each
//! accessor wrapper is specified against that tree, and the decoders below
//! are then verified: their contracts pin, member by member, which
//! [`InboundFrame`](crate::frame::InboundFrame) and
//! [`TargetEntry`](crate::frame::TargetEntry) a given JSON tree yields.

use vstd::prelude::*;

use crate::frame::{
    CdpEvent, CdpEventView, InboundFrame, InboundFrameView, ResponsePayload, ResponsePayloadView,
    TargetEntry, TargetEntryView,
};
use crate::text::{opt_string_view, str_eq};

verus! {

#[verifier::external_type_specification]
#[verifier::external_body]
pub struct ExValue(serde_json::Value);

/// A mathematical JSON tree: what one parsed value holds.
///
/// A number is modelled by its `u64` reading alone — `None` when it is
/// negative, fractional or too large — because that is all the protocol
/// logic ever reads of a number.
pub enum JsonModel {
    Null,
    Bool(bool),
    Num(Option<u64>),
    Text(Seq<char>),
    Items(Seq<JsonModel>),
    Obj(Map<Seq<char>, JsonModel>),
}

/// The tree that parsing `s` yields; `None` when the parser rejects the
/// text (not valid JSON, or a number or nesting depth beyond what it
/// accepts). Parsing is a function of the text alone.
pub uninterp spec fn spec_parsed_json(s: Seq<char>) -> Option<JsonModel>;

/// The tree a parsed value holds.
pub uninterp spec fn spec_value_model(v: serde_json::Value) -> JsonModel;

/// Member lookup on a tree: `None` when it is not an object or has no
/// such member.
pub open spec fn model_get(m: JsonModel, key: Seq<char>) -> Option<JsonModel> {
    match m {
        JsonModel::Obj(members) => if members.contains_key(key) {
            Some(members[key])
        } else {
            None
        },
        _ => None,
    }
}

/// The string content of an optional tree, when it is a string.
pub open spec fn model_str(o: Option<JsonModel>) -> Option<Seq<char>> {
    match o {
        Some(JsonModel::Text(t)) => Some(t),
        _ => None,
    }
}

/// The boolean content of an optional tree, when it is a boolean.
pub open spec fn model_bool(o: Option<JsonModel>) -> Option<bool> {
    match o {
        Some(JsonModel::Bool(b)) => Some(b),
        _ => None,
    }
}

/// The `u64` reading of an optional tree, when it is such a number.
pub open spec fn model_u64(o: Option<JsonModel>) -> Option<u64> {
    match o {
        Some(JsonModel::Num(n)) => n,
        _ => None,
    }
}

/// The elements of a tree, when it is an array.
pub open spec fn model_items(m: JsonModel) -> Option<Seq<JsonModel>> {
    match m {
        JsonModel::Items(ms) => Some(ms),
        _ => None,
    }
}

/// The trees of a list of parsed values.
pub open spec fn models_of(items: Seq<serde_json::Value>) -> Seq<JsonModel> {
    items.map_values(|x: serde_json::Value| spec_value_model(x))
}

/// Relies on serde_json::from_str: parses text into a generic JSON value;
/// the parse is deterministic in the text, and fails exactly when the
/// name's tree is `None`.
#[verifier::external_body]
fn js_parse(s: &str) -> (r: Option<serde_json::Value>)
    ensures
        r is Some <==> spec_parsed_json(s@) is Some,
        r matches Some(v) ==> Some(spec_value_model(v)) == spec_parsed_json(s@),
{
    serde_json::from_str(s).ok()
}

/// Relies on serde_json::Value::get: member lookup on a JSON object,
/// `None` when the value is not an object or has no such member; the
/// returned value is that member.
#[verifier::external_body]
fn js_get<'a>(v: &'a serde_json::Value, key: &str) -> (r: Option<&'a serde_json::Value>)
    ensures
        match r {
            Some(m) => model_get(spec_value_model(*v), key@) == Some(spec_value_model(*m)),
            None => model_get(spec_value_model(*v), key@) is None,
        },
{
    v.get(key)
}

/// Relies on serde_json::Value::as_str: the string content of a JSON
/// string value, `None` for any other value shape.
#[verifier::external_body]
fn js_as_str(v: &serde_json::Value) -> (r: Option<String>)
    ensures
        match r {
            Some(s) => spec_value_model(*v) == JsonModel::Text(s@),
            None => !(spec_value_model(*v) is Text),
        },
{
    match v.as_str() {
        Some(s) => Some(s.to_owned()),
        None => None,
    }
}

/// Relies on serde_json::Value::as_bool: the content of a JSON boolean,
/// `None` for any other value shape.
#[verifier::external_body]
fn js_as_bool(v: &serde_json::Value) -> (r: Option<bool>)
    ensures
        match r {
            Some(b) => spec_value_model(*v) == JsonModel::Bool(b),
            None => !(spec_value_model(*v) is Bool),
        },
{
    v.as_bool()
}

/// Relies on serde_json::Value::as_u64: the content of a JSON number when
/// it is a non-negative integer fitting `u64`, `None` otherwise.
#[verifier::external_body]
fn js_as_u64(v: &serde_json::Value) -> (r: Option<u64>)
    ensures
        match r {
            Some(n) => spec_value_model(*v) == JsonModel::Num(Some(n)),
            None => !(spec_value_model(*v) matches JsonModel::Num(Some(_))),
        },
{
    v.as_u64()
}

/// Relies on serde_json::Value::as_array: the elements of a JSON array in
/// order, `None` for any other value shape.
#[verifier::external_body]
fn js_items(v: &serde_json::Value) -> (r: Option<Vec<serde_json::Value>>)
    ensures
        match r {
            Some(items) => model_items(spec_value_model(*v)) == Some(models_of(items@)),
            None => model_items(spec_value_model(*v)) is None,
        },
{
    match v.as_array() {
        Some(items) => Some(items.clone()),
        None => None,
    }
}

fn get_str(v: &serde_json::Value, key: &str) -> (r: Option<String>)
    ensures
        opt_string_view(r) == model_str(model_get(spec_value_model(*v), key@)),
{
    match js_get(v, key) {
        Some(x) => js_as_str(x),
        None => None,
    }
}

fn get_bool(v: &serde_json::Value, key: &str) -> (r: Option<bool>)
    ensures
        r == model_bool(model_get(spec_value_model(*v), key@)),
{
    match js_get(v, key) {
        Some(x) => js_as_bool(x),
        None => None,
    }
}

fn get_u64(v: &serde_json::Value, key: &str) -> (r: Option<u64>)
    ensures
        r == model_u64(model_get(spec_value_model(*v), key@)),
{
    match js_get(v, key) {
        Some(x) => js_as_u64(x),
        None => None,
    }
}

/// The result fields a response tree carries: nothing when it has no
/// `result` member, else the named members of that object.
pub open spec fn spec_payload_of(m: JsonModel) -> ResponsePayloadView {
    match model_get(m, "result"@) {
        None => ResponsePayloadView {
            target_id: None,
            browser_context_id: None,
            data: None,
            eval_value: None,
            window_id: None,
        },
        Some(res) => ResponsePayloadView {
            target_id: model_str(model_get(res, "targetId"@)),
            browser_context_id: model_str(model_get(res, "browserContextId"@)),
            data: model_str(model_get(res, "data"@)),
            eval_value: (match model_get(res, "result"@) {
                Some(inner) => model_str(model_get(inner, "value"@)),
                None => None,
            }),
            window_id: model_u64(model_get(res, "windowId"@)),
        },
    }
}

fn extract_payload(v: &serde_json::Value) -> (p: ResponsePayload)
    ensures
        p@ == spec_payload_of(spec_value_model(*v)),
{
    let mut p = ResponsePayload::empty();
    match js_get(v, "result") {
        None => p,
        Some(r) => {
            p.target_id = get_str(r, "targetId");
            p.browser_context_id = get_str(r, "browserContextId");
            p.data = get_str(r, "data");
            p.window_id = get_u64(r, "windowId");
            match js_get(r, "result") {
                Some(inner) => {
                    p.eval_value = get_str(inner, "value");
                },
                None => {},
            }
            p
        },
    }
}

/// The target entry a tree denotes, keyed by `id_key`: `None` when the
/// tree has no string member under that key; url, title and type default
/// to empty when absent.
pub open spec fn spec_entry_of(m: JsonModel, id_key: Seq<char>) -> Option<TargetEntryView> {
    match model_str(model_get(m, id_key)) {
        None => None,
        Some(tid) => Some(
            TargetEntryView {
                target_id: tid,
                url: (match model_str(model_get(m, "url"@)) {
                    Some(u) => u,
                    None => Seq::<char>::empty(),
                }),
                title: (match model_str(model_get(m, "title"@)) {
                    Some(t) => t,
                    None => Seq::<char>::empty(),
                }),
                kind: (match model_str(model_get(m, "type"@)) {
                    Some(k) => k,
                    None => Seq::<char>::empty(),
                }),
                attached: model_bool(model_get(m, "attached"@)),
                browser_context_id: model_str(model_get(m, "browserContextId"@)),
                ws_url: model_str(model_get(m, "webSocketDebuggerUrl"@)),
            },
        ),
    }
}

fn entry_of_value(v: &serde_json::Value, id_key: &str) -> (r: Option<TargetEntry>)
    ensures
        match r {
            Some(e) => spec_entry_of(spec_value_model(*v), id_key@) == Some(e@),
            None => spec_entry_of(spec_value_model(*v), id_key@) is None,
        },
{
    let target_id = match get_str(v, id_key) {
        Some(t) => t,
        None => {
            return None;
        },
    };
    let url = match get_str(v, "url") {
        Some(u) => u,
        None => String::new(),
    };
    let title = match get_str(v, "title") {
        Some(t) => t,
        None => String::new(),
    };
    let kind = match get_str(v, "type") {
        Some(k) => k,
        None => String::new(),
    };
    let attached = get_bool(v, "attached");
    let browser_context_id = get_str(v, "browserContextId");
    let ws_url = get_str(v, "webSocketDebuggerUrl");
    Some(TargetEntry { target_id, url, title, kind, attached, browser_context_id, ws_url })
}

/// The event a pushed frame denotes, given its `method` and its tree.
///
/// Creations and info changes need a `params.targetInfo` with a string
/// `targetId`; destructions need a `params.targetId`; a context detach
/// takes the context id when one is there; anything unrecognized — or a
/// recognized method whose members are missing — is carried as `Other`.
pub open spec fn spec_event_of(method: Seq<char>, m: JsonModel) -> CdpEventView {
    if method == "Target.targetCreated"@ || method == "Target.targetInfoChanged"@ {
        match (match model_get(m, "params"@) {
            Some(p) => model_get(p, "targetInfo"@),
            None => None,
        }) {
            Some(ti) => match spec_entry_of(ti, "targetId"@) {
                Some(e) => if method == "Target.targetCreated"@ {
                    CdpEventView::TargetCreated(e)
                } else {
                    CdpEventView::TargetInfoChanged(e)
                },
                None => CdpEventView::Other { method },
            },
            None => CdpEventView::Other { method },
        }
    } else if method == "Target.targetDestroyed"@ {
        match (match model_get(m, "params"@) {
            Some(p) => model_str(model_get(p, "targetId"@)),
            None => None,
        }) {
            Some(tid) => CdpEventView::TargetDestroyed { target_id: tid },
            None => CdpEventView::Other { method },
        }
    } else if method == "Target.detachedFromTarget"@ {
        CdpEventView::DetachedFromTarget {
            browser_context_id: (match model_get(m, "params"@) {
                Some(p) => model_str(model_get(p, "browserContextId"@)),
                None => None,
            }),
        }
    } else if method == "Inspector.detached"@ {
        CdpEventView::InspectorDetached
    } else {
        CdpEventView::Other { method }
    }
}

fn decode_event(method: String, v: &serde_json::Value) -> (r: CdpEvent)
    ensures
        r@ == spec_event_of(method@, spec_value_model(*v)),
{
    let params = js_get(v, "params");
    if str_eq(method.as_str(), "Target.targetCreated") || str_eq(
        method.as_str(),
        "Target.targetInfoChanged",
    ) {
        let info = match params {
            Some(p) => match js_get(p, "targetInfo") {
                Some(ti) => entry_of_value(ti, "targetId"),
                None => None,
            },
            None => None,
        };
        match info {
            Some(entry) => {
                if str_eq(method.as_str(), "Target.targetCreated") {
                    CdpEvent::TargetCreated(entry)
                } else {
                    CdpEvent::TargetInfoChanged(entry)
                }
            },
            None => CdpEvent::Other { method },
        }
    } else if str_eq(method.as_str(), "Target.targetDestroyed") {
        let target_id = match params {
            Some(p) => get_str(p, "targetId"),
            None => None,
        };
        match target_id {
            Some(t) => CdpEvent::TargetDestroyed { target_id: t },
            None => CdpEvent::Other { method },
        }
    } else if str_eq(method.as_str(), "Target.detachedFromTarget") {
        let browser_context_id = match params {
            Some(p) => get_str(p, "browserContextId"),
            None => None,
        };
        CdpEvent::DetachedFromTarget { browser_context_id }
    } else if str_eq(method.as_str(), "Inspector.detached") {
        CdpEvent::InspectorDetached
    } else {
        CdpEvent::Other { method }
    }
}

/// The frame a text denotes: unparseable text is `Malformed`; a tree with
/// a numeric top-level `id` is the response to that id, its error flag the
/// presence of an `error` member and its payload the `result` fields; any
/// other tree with a string `method` is the corresponding event; the rest
/// is `Malformed`.
pub open spec fn spec_decoded_frame(p: Option<JsonModel>) -> InboundFrameView {
    match p {
        None => InboundFrameView::Malformed,
        Some(m) => match model_u64(model_get(m, "id"@)) {
            Some(id) => InboundFrameView::Response {
                id,
                is_error: model_get(m, "error"@) is Some,
                payload: spec_payload_of(m),
            },
            None => match model_str(model_get(m, "method"@)) {
                Some(method) => InboundFrameView::Event(spec_event_of(method, m)),
                None => InboundFrameView::Malformed,
            },
        },
    }
}

/// Decodes one inbound text frame: exactly the frame that
/// `spec_decoded_frame` assigns to the parse of `s`.
pub fn decode_frame(s: &str) -> (r: InboundFrame)
    ensures
        r@ == spec_decoded_frame(spec_parsed_json(s@)),
{
    let v = match js_parse(s) {
        Some(v) => v,
        None => {
            return InboundFrame::Malformed;
        },
    };
    let id_opt = match js_get(&v, "id") {
        Some(idv) => js_as_u64(idv),
        None => None,
    };
    match id_opt {
        Some(id) => {
            let is_error = match js_get(&v, "error") {
                Some(_) => true,
                None => false,
            };
            let payload = extract_payload(&v);
            InboundFrame::Response { id, is_error, payload }
        },
        None => {
            let method = match js_get(&v, "method") {
                Some(m) => js_as_str(m),
                None => None,
            };
            match method {
                Some(m) => InboundFrame::Event(decode_event(m, &v)),
                None => InboundFrame::Malformed,
            }
        },
    }
}

/// The tab listing a tree array denotes: elements carrying a string `id`,
/// in listing order; elements without one are dropped.
pub open spec fn spec_target_list_of(ms: Seq<JsonModel>) -> Seq<TargetEntryView>
    decreases ms.len(),
{
    if ms.len() == 0 {
        Seq::<TargetEntryView>::empty()
    } else {
        spec_target_list_of(ms.drop_last()) + (match spec_entry_of(ms.last(), "id"@) {
            Some(e) => seq![e],
            None => Seq::<TargetEntryView>::empty(),
        })
    }
}

/// The views of a list of target entries.
pub open spec fn entry_views(s: Seq<TargetEntry>) -> Seq<TargetEntryView> {
    s.map_values(|e: TargetEntry| e@)
}

/// The parse of `s` when it is a JSON array: its element trees.
pub open spec fn spec_parsed_items(s: Seq<char>) -> Option<Seq<JsonModel>> {
    match spec_parsed_json(s) {
        None => None,
        Some(m) => model_items(m),
    }
}

/// Decodes the body of `GET /json`: the control plane's tab listing.
///
/// `None` exactly when the body is not a JSON array; otherwise the entries
/// are exactly those `spec_target_list_of` reads off the element trees:
/// each element carrying a string `id`, in listing order.
pub fn parse_target_list(s: &str) -> (r: Option<Vec<TargetEntry>>)
    ensures
        match r {
            Some(entries) => spec_parsed_items(s@) matches Some(ms) && entry_views(entries@)
                == spec_target_list_of(ms),
            None => spec_parsed_items(s@) is None,
        },
{
    let v = match js_parse(s) {
        Some(v) => v,
        None => {
            return None;
        },
    };
    let items = match js_items(&v) {
        Some(items) => items,
        None => {
            return None;
        },
    };
    let ghost ms = models_of(items@);
    let mut out: Vec<TargetEntry> = Vec::new();
    proof {
        assert(entry_views(out@) =~= spec_target_list_of(ms.take(0)));
    }
    let mut i: usize = 0;
    while i < items.len()
        invariant
            i <= items@.len(),
            ms == models_of(items@),
            ms.len() == items@.len(),
            entry_views(out@) == spec_target_list_of(ms.take(i as int)),
        decreases items.len() - i,
    {
        proof {
            assert(ms.take(i + 1).drop_last() =~= ms.take(i as int));
            assert(ms.take(i + 1).last() == ms[i as int]);
            assert(ms[i as int] == spec_value_model(items@[i as int]));
        }
        let ghost out_before = out@;
        match entry_of_value(&items[i], "id") {
            Some(entry) => {
                let ghost entry_view = entry@;
                out.push(entry);
                proof {
                    assert(entry_views(out@) =~= entry_views(out_before).push(entry_view));
                    assert(entry_views(out@) =~= spec_target_list_of(ms.take(i + 1)));
                }
            },
            None => {
                proof {
                    assert(entry_views(out@) =~= spec_target_list_of(ms.take(i + 1)));
                }
            },
        }
        i += 1;
    }
    proof {
        assert(ms.take(items@.len() as int) =~= ms);
    }
    Some(out)
}

/// Extracts `webSocketDebuggerUrl` from the body of `GET /json/version`:
/// exactly the string content of that member of the parsed tree, `None`
/// when the body does not parse or the member is absent or not a string.
pub fn parse_browser_ws_url(s: &str) -> (r: Option<String>)
    ensures
        opt_string_view(r) == (match spec_parsed_json(s@) {
            None => None,
            Some(m) => model_str(model_get(m, "webSocketDebuggerUrl"@)),
        }),
{
    let v = match js_parse(s) {
        Some(v) => v,
        None => {
            return None;
        },
    };
    get_str(&v, "webSocketDebuggerUrl")
}

} // verus!
