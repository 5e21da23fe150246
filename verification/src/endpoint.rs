//! Endpoint resolver: discovering — or launching — the browser's debugging
//! control plane.
//!
//! The control plane is polled; if it is unreachable, a browser is launched
//! once, with a dedicated copied profile (never the user's live one), and
//! polling resumes under a bounded attempt budget with fixed backoff.
//! Exhausting the budget is a launch timeout, distinct from a reachable
//! endpoint whose socket cannot be used — recovery differs between the two.

use vstd::prelude::*;

use crate::text::{spec_dec, u64_to_dec};

verus! {

/// The resolved control surface: the HTTP base, and the browser-level
/// debugger socket URL once it has been fetched. Only one socket URL is
/// valid at a time; any connect failure must discard it before resolution
/// is retried.
pub struct Endpoint {
    /// For instance `http://localhost:9222`.
    pub http_base: String,
    /// The cached `webSocketDebuggerUrl` from `GET /json/version`.
    pub browser_ws_url: Option<String>,
}

impl Endpoint {
    /// An endpoint with nothing cached yet.
    pub fn new(http_base: String) -> (r: Endpoint)
        ensures
            r.http_base@ == http_base@,
            r.browser_ws_url is None,
    {
        Endpoint { http_base, browser_ws_url: None }
    }

    /// Caches the socket URL fetched from `GET /json/version`.
    pub fn cache_ws_url(&mut self, url: String)
        ensures
            final(self).http_base@ == old(self).http_base@,
            crate::text::opt_string_view(final(self).browser_ws_url) == Some(url@),
    {
        self.browser_ws_url = Some(url);
    }

    /// Discards a stale socket URL after a connect failure.
    pub fn invalidate_ws_url(&mut self)
        ensures
            final(self).http_base@ == old(self).http_base@,
            final(self).browser_ws_url is None,
    {
        self.browser_ws_url = None;
    }
}

/// Whether an HTTP status from the control plane counts as success.
pub fn endpoint_reachable(status: u16) -> (r: bool)
    ensures
        r == (200 <= status && status < 300),
{
    200 <= status && status < 300
}

/// What the resolver asks its caller to do next.
#[derive(Clone, Copy, Debug, PartialEq, Eq, Structural)]
pub enum ResolveStep {
    /// The control plane answered: fetch `/json/version` once and cache the
    /// browser socket URL.
    FetchVersion,
    /// Unreachable and nothing launched yet: prepare a fresh profile, spawn
    /// the browser, then poll again.
    LaunchBrowser,
    /// Unreachable, browser already launched, budget remains: sleep the
    /// fixed backoff and poll again.
    Backoff,
    /// Unreachable and the attempt budget is exhausted: give up with a
    /// launch timeout.
    Fail,
}

/// The endpoint resolution loop.
pub struct Resolver {
    /// Unreachable polls seen since the launch.
    pub attempts: u32,
    /// Total polls allowed after the launch.
    pub max_attempts: u32,
    /// Whether a browser has been launched by this resolver.
    pub launched: bool,
}

impl Resolver {
    /// One poll outcome's effect on the loop.
    pub open spec fn spec_on_poll(self, reachable: bool) -> (Resolver, ResolveStep) {
        if reachable {
            (self, ResolveStep::FetchVersion)
        } else if !self.launched {
            (
                Resolver { attempts: self.attempts, max_attempts: self.max_attempts, launched: true },
                ResolveStep::LaunchBrowser,
            )
        } else {
            let bumped = Resolver {
                attempts: (self.attempts + 1) as u32,
                max_attempts: self.max_attempts,
                launched: true,
            };
            if self.attempts + 1 >= self.max_attempts {
                (bumped, ResolveStep::Fail)
            } else {
                (bumped, ResolveStep::Backoff)
            }
        }
    }

    /// A fresh resolver that may launch once and then poll up to
    /// `max_attempts` times.
    pub fn new(max_attempts: u32) -> (r: Resolver)
        ensures
            r.attempts == 0,
            r.max_attempts == max_attempts,
            !r.launched,
    {
        Resolver { attempts: 0, max_attempts, launched: false }
    }

    /// Feeds one poll outcome in and says what to do next.
    ///
    /// A reachable control plane always ends the loop with `FetchVersion`;
    /// an unreachable one launches the browser exactly once, then backs off
    /// until the budget is spent, and then fails — so the loop can neither
    /// hang nor launch twice.
    pub fn on_poll(&mut self, reachable: bool) -> (step: ResolveStep)
        requires
            old(self).attempts < old(self).max_attempts,
        ensures
            (*final(self), step) == old(self).spec_on_poll(reachable),
            step == ResolveStep::Backoff ==> final(self).attempts < final(self).max_attempts,
    {
        if reachable {
            ResolveStep::FetchVersion
        } else if !self.launched {
            self.launched = true;
            ResolveStep::LaunchBrowser
        } else {
            self.attempts = self.attempts + 1;
            if self.attempts >= self.max_attempts {
                ResolveStep::Fail
            } else {
                ResolveStep::Backoff
            }
        }
    }
}

/// However the polls go, the resolver launches at most one browser: once
/// `launched` is set, no later poll outcome can yield `LaunchBrowser`
/// again.
pub proof fn lemma_launches_at_most_once(r: Resolver, reachable: bool)
    requires
        r.launched,
    ensures
        r.spec_on_poll(reachable).1 != ResolveStep::LaunchBrowser,
        r.spec_on_poll(reachable).0.launched,
{
}

/// What of the live profile is copied into the dedicated directory; the
/// browser is never pointed at the live profile itself.
pub struct ProfilePlan {
    /// Name of the directory to create under the temp root.
    pub dir_name: String,
    /// Copy the profile's `Local State` file.
    pub copy_local_state: bool,
    /// Copy the `Default` profile directory.
    pub copy_default: bool,
    /// Copy the `Default/Sessions` files.
    pub copy_sessions: bool,
}

/// Plans the dedicated user-data directory.
///
/// A fresh environment gets a directory named `debugchrome-<stamp>` and a
/// copy of `Local State` alone; otherwise the fixed `debugchrome`
/// directory is rebuilt with `Default` and its `Sessions` copied too.
pub fn profile_plan(new_environment: bool, stamp: &str) -> (p: ProfilePlan)
    ensures
        new_environment ==> p.dir_name@ == "debugchrome-"@ + stamp@ && p.copy_local_state
            && !p.copy_default && !p.copy_sessions,
        !new_environment ==> p.dir_name@ == "debugchrome"@ && p.copy_local_state && p.copy_default
            && p.copy_sessions,
{
    if new_environment {
        let mut name = String::from_str("debugchrome-");
        name.append(stamp);
        ProfilePlan {
            dir_name: name,
            copy_local_state: true,
            copy_default: false,
            copy_sessions: false,
        }
    } else {
        ProfilePlan {
            dir_name: String::from_str("debugchrome"),
            copy_local_state: true,
            copy_default: true,
            copy_sessions: true,
        }
    }
}

/// The fixed flags the browser is spawned with: the debugging port, the
/// automation switches, and the dedicated user-data directory.
pub fn chrome_launch_args(port: u16, user_data_dir: &str) -> (v: Vec<String>)
    ensures
        v@.len() == 4,
        v@[0]@ == "--remote-debugging-port="@ + spec_dec(port as nat),
        v@[1]@ == "--enable-automation"@,
        v@[2]@ == "--no-first-run"@,
        v@[3]@ == "--user-data-dir="@ + user_data_dir@,
{
    let mut port_flag = String::from_str("--remote-debugging-port=");
    let port_text = u64_to_dec(port as u64);
    port_flag.append(port_text.as_str());
    let mut dir_flag = String::from_str("--user-data-dir=");
    dir_flag.append(user_data_dir);
    let mut v: Vec<String> = Vec::new();
    v.push(port_flag);
    v.push(String::from_str("--enable-automation"));
    v.push(String::from_str("--no-first-run"));
    v.push(dir_flag);
    v
}

} // verus!
