//! The agent runner's bookkeeping: which tmux sessions have a handler, which
//! to start and stop after a scan, and what to say when tmux is missing.
use crate::config::AgentConfig;
use crate::text::owned;
use vstd::prelude::*;

verus! {

/// The names that occur in `v`.
pub open spec fn name_set(v: Seq<String>) -> Set<Seq<char>> {
    Set::new(|x: Seq<char>| exists|i: int| 0 <= i < v.len() && v[i]@ == x)
}

/// No name occurs twice in `v`.
pub open spec fn distinct_names(v: Seq<String>) -> bool {
    forall|i: int, j: int| 0 <= i < j < v.len() ==> v[i]@ != v[j]@
}

/// Whether some element of `v` has the characters of `s`.
pub fn contains_name(v: &Vec<String>, s: &String) -> (b: bool)
    ensures
        b == name_set(v@).contains(s@),
{
    let n = v.len();
    for i in 0..n
        invariant
            n == v@.len(),
            forall|k: int| 0 <= k < i ==> v@[k]@ != s@,
    {
        if v[i] == *s {
            assert(name_set(v@).contains(s@)) by {
                assert(v@[i as int]@ == s@);
            }
            return true;
        }
    }
    false
}

/// The names of `v` that are not in `exclude`, each once, in order of first
/// appearance.
fn names_not_in(v: &Vec<String>, exclude: &Vec<String>) -> (out: Vec<String>)
    ensures
        name_set(out@) == name_set(v@).difference(name_set(exclude@)),
        distinct_names(out@),
{
    let mut out: Vec<String> = Vec::new();
    let n = v.len();
    for i in 0..n
        invariant
            n == v@.len(),
            distinct_names(out@),
            name_set(out@) == name_set(v@.take(i as int)).difference(name_set(exclude@)),
    {
        let s = &v[i];
        let skip = contains_name(exclude, s) || contains_name(&out, s);
        let ghost before = out@;
        if !skip {
            out.push(owned(s.as_str()));
            assert(distinct_names(out@)) by {
                assert forall|a: int, b: int| 0 <= a < b < out@.len() implies out@[a]@ != out@[b]@ by {
                    if b == before.len() {
                        assert(!name_set(before).contains(s@));
                        assert(before[a]@ != s@);
                    } else {
                        assert(before[a]@ != before[b]@);
                    }
                }
            }
        }
        let ghost t0 = v@.take(i as int);
        let ghost t1 = v@.take(i + 1);
        assert(name_set(out@) =~= name_set(t1).difference(name_set(exclude@))) by {
            assert forall|x: Seq<char>| name_set(t1).contains(x) <==> (name_set(t0).contains(x)
                || x == s@) by {
                if name_set(t1).contains(x) {
                    let k = choose|k: int| 0 <= k < t1.len() && #[trigger] t1[k]@ == x;
                    if k < i {
                        assert(t0[k]@ == x);
                    }
                }
                if name_set(t0).contains(x) {
                    let k = choose|k: int| 0 <= k < t0.len() && #[trigger] t0[k]@ == x;
                    assert(t1[k]@ == x);
                }
                if x == s@ {
                    assert(t1[i as int]@ == x);
                }
            }
            assert forall|x: Seq<char>| name_set(out@).contains(x) <==> (name_set(before).contains(x)
                || (!skip && x == s@)) by {
                if name_set(out@).contains(x) {
                    let k = choose|k: int| 0 <= k < out@.len() && #[trigger] out@[k]@ == x;
                    if k < before.len() {
                        assert(before[k]@ == x);
                    }
                }
                if name_set(before).contains(x) {
                    let k = choose|k: int| 0 <= k < before.len() && #[trigger] before[k]@ == x;
                    assert(out@[k]@ == x);
                }
                if !skip && x == s@ {
                    assert(out@[before.len() as int]@ == x);
                }
            }
            assert forall|x: Seq<char>| name_set(out@).contains(x) == name_set(t1).difference(
                name_set(exclude@),
            ).contains(x) by {
                if x == s@ {
                } else {
                    assert(name_set(before).contains(x) == name_set(t0).difference(
                        name_set(exclude@),
                    ).contains(x));
                }
            }
        }
    }
    assert(v@.take(n as int) =~= v@);
    out
}

/// Agent runner state: the tmux sessions that have a handler.
#[derive(Debug)]
pub struct AgentRunner {
    config: AgentConfig,
    handlers: Vec<String>,
    running: bool,
}

/// Which handlers a scan starts and stops.
#[derive(Debug)]
pub struct SessionChanges {
    /// Sessions that appeared: start a handler for each.
    pub to_start: Vec<String>,
    /// Sessions that disappeared: stop their handlers.
    pub to_stop: Vec<String>,
}

impl AgentRunner {
    #[verifier::type_invariant]
    spec fn handlers_distinct(self) -> bool {
        distinct_names(self.handlers@)
    }

    /// The sessions that have a handler.
    pub closed spec fn handled(&self) -> Set<Seq<char>> {
        name_set(self.handlers@)
    }

    /// Whether the runner has been started and not stopped.
    pub closed spec fn is_running(&self) -> bool {
        self.running
    }

    /// The runner's agent configuration.
    pub closed spec fn agent_config(&self) -> AgentConfig {
        self.config
    }

    /// A stopped runner with no handlers.
    pub fn new(config: AgentConfig) -> (r: Self)
        ensures
            r.handled() == Set::<Seq<char>>::empty(),
            !r.is_running(),
            r.agent_config() == config,
    {
        let handlers: Vec<String> = Vec::new();
        assert(name_set(handlers@) =~= Set::<Seq<char>>::empty());
        AgentRunner { config, handlers, running: false }
    }

    /// Marks the runner running; `false` when it already was.
    pub fn begin(&mut self) -> (started: bool)
        ensures
            started == !old(self).is_running(),
            final(self).is_running(),
            final(self).handled() == old(self).handled(),
            final(self).agent_config() == old(self).agent_config(),
    {
        proof {
            use_type_invariant(&*self);
        }
        if self.running {
            return false;
        }
        self.running = true;
        true
    }

    /// After a scan found the sessions `current`: handlers start for the
    /// sessions that are new and stop for those that are gone; afterwards
    /// exactly the current sessions have handlers.
    pub fn scan(&mut self, current: &Vec<String>) -> (c: SessionChanges)
        ensures
            name_set(c.to_start@) == name_set(current@).difference(old(self).handled()),
            name_set(c.to_stop@) == old(self).handled().difference(name_set(current@)),
            distinct_names(c.to_start@),
            distinct_names(c.to_stop@),
            final(self).handled() == name_set(current@),
            final(self).is_running() == old(self).is_running(),
            final(self).agent_config() == old(self).agent_config(),
    {
        proof {
            use_type_invariant(&*self);
        }
        let to_start = names_not_in(current, &self.handlers);
        let to_stop = names_not_in(&self.handlers, current);
        let empty: Vec<String> = Vec::new();
        let current_names = names_not_in(current, &empty);
        assert(name_set(empty@) =~= Set::<Seq<char>>::empty());
        assert(name_set(current_names@) =~= name_set(current@));
        self.handlers = current_names;
        SessionChanges { to_start, to_stop }
    }

    /// The agent configuration.
    pub fn config(&self) -> (c: &AgentConfig)
        ensures
            *c == self.agent_config(),
    {
        &self.config
    }

    /// Stops the runner; every handled session's handler is to be stopped.
    pub fn stop(&mut self) -> (stopped: Vec<String>)
        ensures
            name_set(stopped@) == old(self).handled(),
            distinct_names(stopped@),
            final(self).handled() == Set::<Seq<char>>::empty(),
            !final(self).is_running(),
            final(self).agent_config() == old(self).agent_config(),
    {
        proof {
            use_type_invariant(&*self);
        }
        self.running = false;
        let mut stopped: Vec<String> = Vec::new();
        std::mem::swap(&mut stopped, &mut self.handlers);
        assert(name_set(self.handlers@) =~= Set::<Seq<char>>::empty());
        stopped
    }
}

/// A scan that finds what the runner already tracks changes nothing.
pub proof fn lemma_rescan_is_quiet(known: Set<Seq<char>>, current: Set<Seq<char>>)
    requires
        known == current,
    ensures
        current.difference(known) == Set::<Seq<char>>::empty(),
        known.difference(current) == Set::<Seq<char>>::empty(),
{
    assert(current.difference(known) =~= Set::<Seq<char>>::empty());
    assert(known.difference(current) =~= Set::<Seq<char>>::empty());
}

/// No session is both started and stopped by one scan.
pub proof fn lemma_start_stop_disjoint(known: Set<Seq<char>>, current: Set<Seq<char>>)
    ensures
        current.difference(known).disjoint(known.difference(current)),
{
}

/// The platform, for messages that differ by platform.
#[derive(Debug, Clone, Copy, PartialEq, Eq)]
pub enum HostPlatform {
    Windows,
    MacOS,
    Other,
}

/// What to tell the user when tmux cannot be found.
pub fn get_tmux_not_found_error(platform: HostPlatform) -> (s: String)
    ensures
        s@ == match platform {
            HostPlatform::Windows => "━━━━━━━━━━━━━━━━━━━━━━━━━━━━━━━━━━━━━━━━━━━━━━━━━━━━━━━━━━━\n  itmux not found - Windows tmux package required\n━━━━━━━━━━━━━━━━━━━━━━━━━━━━━━━━━━━━━━━━━━━━━━━━━━━━━━━━━━━\n\n  Download: https://github.com/itefixnet/itmux/releases/latest\n  Or: choco install itmux\n\n━━━━━━━━━━━━━━━━━━━━━━━━━━━━━━━━━━━━━━━━━━━━━━━━━━━━━━━━━━━"@,
            HostPlatform::MacOS => "━━━━━━━━━━━━━━━━━━━━━━━━━━━━━━━━━━━━━━━━━━━━━━━━━━━━━━━━━━━\n  tmux not found - required for SessionCast Agent\n━━━━━━━━━━━━━━━━━━━━━━━━━━━━━━━━━━━━━━━━━━━━━━━━━━━━━━━━━━━\n\n  Install: brew install tmux\n\n━━━━━━━━━━━━━━━━━━━━━━━━━━━━━━━━━━━━━━━━━━━━━━━━━━━━━━━━━━━"@,
            HostPlatform::Other => "━━━━━━━━━━━━━━━━━━━━━━━━━━━━━━━━━━━━━━━━━━━━━━━━━━━━━━━━━━━\n  tmux not found - required for SessionCast Agent\n━━━━━━━━━━━━━━━━━━━━━━━━━━━━━━━━━━━━━━━━━━━━━━━━━━━━━━━━━━━\n\n  Install: sudo apt install tmux  (Debian/Ubuntu)\n           sudo yum install tmux  (RHEL/CentOS)\n\n━━━━━━━━━━━━━━━━━━━━━━━━━━━━━━━━━━━━━━━━━━━━━━━━━━━━━━━━━━━"@,
        },
{
    match platform {
        HostPlatform::Windows => owned("━━━━━━━━━━━━━━━━━━━━━━━━━━━━━━━━━━━━━━━━━━━━━━━━━━━━━━━━━━━\n  itmux not found - Windows tmux package required\n━━━━━━━━━━━━━━━━━━━━━━━━━━━━━━━━━━━━━━━━━━━━━━━━━━━━━━━━━━━\n\n  Download: https://github.com/itefixnet/itmux/releases/latest\n  Or: choco install itmux\n\n━━━━━━━━━━━━━━━━━━━━━━━━━━━━━━━━━━━━━━━━━━━━━━━━━━━━━━━━━━━"),
        HostPlatform::MacOS => owned("━━━━━━━━━━━━━━━━━━━━━━━━━━━━━━━━━━━━━━━━━━━━━━━━━━━━━━━━━━━\n  tmux not found - required for SessionCast Agent\n━━━━━━━━━━━━━━━━━━━━━━━━━━━━━━━━━━━━━━━━━━━━━━━━━━━━━━━━━━━\n\n  Install: brew install tmux\n\n━━━━━━━━━━━━━━━━━━━━━━━━━━━━━━━━━━━━━━━━━━━━━━━━━━━━━━━━━━━"),
        HostPlatform::Other => owned("━━━━━━━━━━━━━━━━━━━━━━━━━━━━━━━━━━━━━━━━━━━━━━━━━━━━━━━━━━━\n  tmux not found - required for SessionCast Agent\n━━━━━━━━━━━━━━━━━━━━━━━━━━━━━━━━━━━━━━━━━━━━━━━━━━━━━━━━━━━\n\n  Install: sudo apt install tmux  (Debian/Ubuntu)\n           sudo yum install tmux  (RHEL/CentOS)\n\n━━━━━━━━━━━━━━━━━━━━━━━━━━━━━━━━━━━━━━━━━━━━━━━━━━━━━━━━━━━"),
    }
}

} // verus!
