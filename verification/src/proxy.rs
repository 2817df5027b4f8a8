//! Following the system proxy switch: git is pointed at the local proxy when
//! the switch turns on, and away from it when the switch turns off.
use vstd::prelude::*;
use vstd::string::*;
use crate::shell::{owned_strings, ShellCommand};

verus! {

/// The local proxy that git is pointed at.
pub const Proxy_Addr: &'static str = "http://127.0.0.1:7897";

/// What a look at the proxy switch calls for.
#[derive(Debug, Clone, Copy, PartialEq, Eq, Structural)]
pub enum ProxyChange {
    /// The switch turned on: point git at the proxy.
    Apply,
    /// The switch turned off: remove git's proxy.
    Remove,
    /// The switch is as it was: nothing to do.
    Keep,
}

/// Whether the system proxy is on, given the registry's `ProxyEnable` value
/// (`None` when the key or the value cannot be read): it is on when the value
/// is 1.
pub fn proxy_enabled(proxy_enable: Option<u32>) -> (r: bool)
    ensures
        r == (proxy_enable == Some(1u32)),
{
    match proxy_enable {
        Some(v) => v == 1,
        None => false,
    }
}

/// One look at the switch: from the state last seen and the state seen now,
/// the state to remember and what to do. Nothing is done while the state
/// stays the same; the first look always acts.
pub open spec fn watch_step(last: Option<bool>, enabled: bool) -> (Option<bool>, ProxyChange) {
    if last == Some(enabled) {
        (last, ProxyChange::Keep)
    } else if enabled {
        (Some(enabled), ProxyChange::Apply)
    } else {
        (Some(enabled), ProxyChange::Remove)
    }
}

/// Remembers the state of the proxy switch between looks.
pub struct ProxyWatcher {
    last_state: Option<bool>,
}

impl ProxyWatcher {
    /// The state last seen, if the switch was looked at yet.
    pub closed spec fn last(&self) -> Option<bool> {
        self.last_state
    }

    /// A watcher that has not looked at the switch yet.
    pub fn new() -> (r: ProxyWatcher)
        ensures
            r.last() is None,
    {
        ProxyWatcher { last_state: None }
    }

    /// Takes in the state of the switch seen now and says what to do.
    pub fn on_tick(&mut self, enabled: bool) -> (r: ProxyChange)
        ensures
            (final(self).last(), r) == watch_step(old(self).last(), enabled),
    {
        let unchanged = match self.last_state {
            Some(b) => b == enabled,
            None => false,
        };
        if unchanged {
            ProxyChange::Keep
        } else {
            self.last_state = Some(enabled);
            if enabled {
                ProxyChange::Apply
            } else {
                ProxyChange::Remove
            }
        }
    }
}

/// The git commands that carry out a change: `git config --global
/// http.proxy <addr>` and the same for `https.proxy` to set,
/// `git config --global --unset http.proxy` and the same for `https.proxy`
/// to remove, none to keep.
pub fn git_proxy_commands(change: ProxyChange) -> (r: Vec<ShellCommand>)
    ensures
        change is Keep ==> r@.len() == 0,
        change is Apply ==> r@.len() == 2 && r@[0].program@ == "git"@ && r@[1].program@ == "git"@
            && r@[0].arg_texts() == seq!["config"@, "--global"@, "http.proxy"@, Proxy_Addr@]
            && r@[1].arg_texts() == seq!["config"@, "--global"@, "https.proxy"@, Proxy_Addr@]
            && r@[0].current_dir is None && r@[1].current_dir is None,
        change is Remove ==> r@.len() == 2 && r@[0].program@ == "git"@ && r@[1].program@ == "git"@
            && r@[0].arg_texts() == seq!["config"@, "--global"@, "--unset"@, "http.proxy"@]
            && r@[1].arg_texts() == seq!["config"@, "--global"@, "--unset"@, "https.proxy"@]
            && r@[0].current_dir is None && r@[1].current_dir is None,
{
    let mut out: Vec<ShellCommand> = Vec::new();
    match change {
        ProxyChange::Apply => {
            let http = owned_strings(&["config", "--global", "http.proxy", Proxy_Addr]);
            let https = owned_strings(&["config", "--global", "https.proxy", Proxy_Addr]);
            assert(http.deep_view() =~= seq!["config"@, "--global"@, "http.proxy"@, Proxy_Addr@]);
            assert(https.deep_view() =~= seq![
                "config"@,
                "--global"@,
                "https.proxy"@,
                Proxy_Addr@,
            ]);
            out.push(ShellCommand { program: "git".to_owned(), args: http, current_dir: None });
            out.push(ShellCommand { program: "git".to_owned(), args: https, current_dir: None });
        },
        ProxyChange::Remove => {
            let http = owned_strings(&["config", "--global", "--unset", "http.proxy"]);
            let https = owned_strings(&["config", "--global", "--unset", "https.proxy"]);
            assert(http.deep_view() =~= seq!["config"@, "--global"@, "--unset"@, "http.proxy"@]);
            assert(https.deep_view() =~= seq![
                "config"@,
                "--global"@,
                "--unset"@,
                "https.proxy"@,
            ]);
            out.push(ShellCommand { program: "git".to_owned(), args: http, current_dir: None });
            out.push(ShellCommand { program: "git".to_owned(), args: https, current_dir: None });
        },
        ProxyChange::Keep => {},
    }
    out
}

/// After a look, the watcher remembers what it saw, and a second look at the
/// same state does nothing.
pub proof fn lemma_watch_settles(last: Option<bool>, enabled: bool)
    ensures
        watch_step(last, enabled).0 == Some(enabled),
        watch_step(watch_step(last, enabled).0, enabled) == (
            watch_step(last, enabled).0,
            ProxyChange::Keep,
        ),
{
}

/// A look acts exactly when the state differs from the one last seen, and
/// then sets the proxy exactly when the switch is on.
pub proof fn lemma_watch_acts_on_change(last: Option<bool>, enabled: bool)
    ensures
        (watch_step(last, enabled).1 != ProxyChange::Keep) <==> (last != Some(enabled)),
        (watch_step(last, enabled).1 == ProxyChange::Apply) <==> (last != Some(enabled) && enabled),
        (watch_step(last, enabled).1 == ProxyChange::Remove) <==> (last != Some(enabled)
            && !enabled),
{
}

} // verus!
