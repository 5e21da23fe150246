//! Verified core of a Chrome DevTools Protocol (CDP) tab-automation library.
//!
//! The crate models the protocol-level logic of driving a Chromium browser
//! over CDP: framing JSON-RPC-like commands, correlating responses with
//! requests, resolving a debugging endpoint, finding a tab by an
//! application-assigned correlation id ("bangId"), building the typed tab
//! commands, and folding target lifecycle events into a tab table.
//!
//! All socket, process and file I/O lives outside this crate; callers feed
//! the decoded frames and poll outcomes in, and execute the actions and
//! command strings that come out.

pub mod b64;
pub mod bangs;
pub mod channel;
pub mod commands;
pub mod correlate;
pub mod endpoint;
pub mod errors;
pub mod frame;
pub mod geometry;
pub mod jokes;
pub mod json;
pub mod monitor;
pub mod session;
pub mod text;
pub mod wire;
