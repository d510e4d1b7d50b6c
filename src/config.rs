//! The watchdog's configuration, its defaults, and the policy it yields.
use vstd::prelude::*;
use crate::args::Args;
use crate::policy::{texts, InterventionConfig, FALLBACK_COMMAND};
use crate::scheduler::lemma_wrap;
use vstd::arithmetic::div_mod::{lemma_add_mod_noop_right, lemma_small_mod};

verus! {

#[derive(Debug, Clone)]
pub struct Config {
    pub tmux: TmuxConfig,
    pub llm: LlmConfig,
    pub monitoring: MonitoringConfig,
}

#[derive(Debug, Clone)]
pub struct TmuxConfig {
    pub pane: String,
}

#[derive(Debug, Clone)]
pub struct LlmConfig {
    pub backend: String,
}

/// Sampling cadence, stall threshold, retry budget and recovery commands.
/// `interval` and `stuck_sec` are seconds; the delays are milliseconds.
#[derive(Debug, Clone)]
pub struct MonitoringConfig {
    pub interval: u64,
    pub stuck_sec: u64,
    pub max_retry: usize,
    pub command_delay_ms: u64,
    pub enter_delay_ms: u64,
    pub intervention_commands: Vec<String>,
}

/// The built-in recovery commands: nudges to continue, then a compaction.
pub open spec fn default_command_texts() -> Seq<Seq<char>> {
    seq!["继续"@, "继续工作"@, "请继续"@, "/compact"@]
}

/// The built-in recovery commands.
pub fn default_commands() -> (r: Vec<String>)
    ensures
        r@.len() == 4,
        texts(r@) == default_command_texts(),
{
    let r = vec![
        String::from_str("继续"),
        String::from_str("继续工作"),
        String::from_str("请继续"),
        String::from_str("/compact"),
    ];
    assert(texts(r@) =~= default_command_texts());
    r
}

/// Default wait before the confirm keystroke, in milliseconds.
pub fn default_command_delay() -> (r: u64)
    ensures
        r == 1000,
{
    1000
}

/// Default time from a command to the next tick, in milliseconds.
pub fn default_enter_delay() -> (r: u64)
    ensures
        r == 3000,
{
    3000
}

impl Default for Config {
    fn default() -> (r: Config)
        ensures
            r.tmux.pane@ == "%18"@,
            r.llm.backend@ == "ollama"@,
            r.monitoring.interval == 5,
            r.monitoring.stuck_sec == 30,
            r.monitoring.max_retry == 3,
            r.monitoring.command_delay_ms == 1000,
            r.monitoring.enter_delay_ms == 3000,
            r.monitoring.intervention_commands@.len() == 4,
            texts(r.monitoring.intervention_commands@) == default_command_texts(),
    {
        Config {
            tmux: TmuxConfig { pane: String::from_str("%18") },
            llm: LlmConfig { backend: String::from_str("ollama") },
            monitoring: MonitoringConfig {
                interval: 5,
                stuck_sec: 30,
                max_retry: 3,
                command_delay_ms: default_command_delay(),
                enter_delay_ms: default_enter_delay(),
                intervention_commands: default_commands(),
            },
        }
    }
}

impl Config {
    /// The command after `current_index` in round-robin order, with its
    /// index; the fallback command at index 0 when the list is empty.
    pub fn get_next_intervention_command(&self, current_index: usize) -> (r: (String, usize))
        ensures
            self.monitoring.intervention_commands@.len() == 0 ==> r.0@ == FALLBACK_COMMAND@ && r.1 == 0,
            self.monitoring.intervention_commands@.len() > 0 ==> {
                &&& r.1 == (current_index + 1) % (self.monitoring.intervention_commands@.len() as int)
                &&& r.0@ == self.monitoring.intervention_commands@[r.1 as int]@
            },
    {
        let commands = &self.monitoring.intervention_commands;
        let n: usize = commands.len();
        if n == 0 {
            return (String::from_str(FALLBACK_COMMAND), 0);
        }
        let next: usize = if current_index % n + 1 == n {
            0
        } else {
            current_index % n + 1
        };
        proof {
            vstd::arithmetic::div_mod::lemma_add_mod_noop(current_index as int, 1, n as int);
            if n == 1 {
                vstd::arithmetic::div_mod::lemma_mod_bound(current_index + 1, 1);
            } else {
                vstd::arithmetic::div_mod::lemma_small_mod(1, n as nat);
            }
            if current_index % n + 1 == n {
                vstd::arithmetic::div_mod::lemma_mod_self_0(n as int);
            } else {
                vstd::arithmetic::div_mod::lemma_small_mod((current_index % n + 1) as nat, n as nat);
            }
        }
        (commands[next].clone(), next)
    }

    /// Applies command-line overrides, field by field.
    pub fn apply_args(&mut self, args: &Args)
        ensures
            final(self).tmux.pane@ == (match args.pane {
                Some(p) => p@,
                None => old(self).tmux.pane@,
            }),
            final(self).llm.backend@ == (match args.backend {
                Some(b) => b@,
                None => old(self).llm.backend@,
            }),
            final(self).monitoring.interval == (match args.interval {
                Some(v) => v,
                None => old(self).monitoring.interval,
            }),
            final(self).monitoring.stuck_sec == (match args.stuck_sec {
                Some(v) => v,
                None => old(self).monitoring.stuck_sec,
            }),
            final(self).monitoring.max_retry == (match args.max_retry {
                Some(v) => v,
                None => old(self).monitoring.max_retry,
            }),
            final(self).monitoring.command_delay_ms == old(self).monitoring.command_delay_ms,
            final(self).monitoring.enter_delay_ms == old(self).monitoring.enter_delay_ms,
            final(self).monitoring.intervention_commands@ == old(self).monitoring.intervention_commands@,
    {
        match &args.pane {
            Some(p) => {
                self.tmux.pane = p.clone();
            },
            None => {},
        }
        match &args.backend {
            Some(b) => {
                self.llm.backend = b.clone();
            },
            None => {},
        }
        match args.interval {
            Some(v) => {
                self.monitoring.interval = v;
            },
            None => {},
        }
        match args.stuck_sec {
            Some(v) => {
                self.monitoring.stuck_sec = v;
            },
            None => {},
        }
        match args.max_retry {
            Some(v) => {
                self.monitoring.max_retry = v;
            },
            None => {},
        }
    }

    /// The intervention policy this configuration describes.
    pub fn intervention_policy(&self) -> (r: InterventionConfig)
        ensures
            r.wf(),
            r.built_from(
                self.monitoring.intervention_commands@,
                self.monitoring.command_delay_ms,
                self.monitoring.enter_delay_ms,
                self.monitoring.max_retry,
                self.monitoring.stuck_sec,
                self.monitoring.interval,
            ),
    {
        let m = &self.monitoring;
        InterventionConfig::new(
            &m.intervention_commands,
            m.command_delay_ms,
            m.enter_delay_ms,
            m.max_retry,
            m.stuck_sec,
            m.interval,
        )
    }
}

/// The index reached from `start` after `k` calls of
/// [`Config::get_next_intervention_command`] over `n` commands, each call
/// taking the index the previous one returned.
pub open spec fn nth_next(start: int, n: int, k: nat) -> int
    decreases k,
{
    if k == 0 {
        start
    } else {
        (nth_next(start, n, (k - 1) as nat) + 1) % n
    }
}

/// Some call among the first `n` from `start` returns index `j`.
pub open spec fn visited(start: int, n: int, j: int) -> bool {
    exists|k: nat| 1 <= k <= n && #[trigger] nth_next(start, n, k) == j
}

proof fn lemma_nth_next_closed(start: int, n: int, k: nat)
    requires
        0 <= start < n,
    ensures
        nth_next(start, n, k) == (start + k) % n,
    decreases k,
{
    if k == 0 {
        lemma_small_mod(start as nat, n as nat);
    } else {
        lemma_nth_next_closed(start, n, (k - 1) as nat);
        lemma_add_mod_noop_right(1, start + k - 1, n);
    }
}

/// Round robin over the command list: `n` consecutive calls starting from an
/// index below `n` return every index exactly once, in cyclic list order
/// after the start, and the last call returns to the start.
pub proof fn lemma_next_command_cycle(start: int, n: int)
    requires
        0 <= start < n,
    ensures
        forall|k: nat| 1 <= k <= n ==> #[trigger] nth_next(start, n, k) == (start + k) % n,
        nth_next(start, n, n as nat) == start,
        forall|j: int| 0 <= j < n ==> #[trigger] visited(start, n, j),
        forall|k1: nat, k2: nat|
            1 <= k1 < k2 <= n ==> #[trigger] nth_next(start, n, k1) != #[trigger] nth_next(start, n, k2),
{
    assert forall|k: nat| 1 <= k <= n implies #[trigger] nth_next(start, n, k) == (start + k) % n by {
        lemma_nth_next_closed(start, n, k);
    }
    assert forall|k: nat| 1 <= k <= n implies #[trigger] nth_next(start, n, k) == (if start + k < n {
        start + k
    } else {
        start + k - n
    }) by {
        lemma_nth_next_closed(start, n, k);
        if k < n {
            lemma_wrap(start, k as int, n);
        } else {
            lemma_wrap(start, 0, n);
            vstd::arithmetic::div_mod::lemma_mod_add_multiples_vanish(start, n);
        }
    }
    assert forall|j: int| 0 <= j < n implies #[trigger] visited(start, n, j) by {
        let k: nat = if j > start {
            (j - start) as nat
        } else {
            (j + n - start) as nat
        };
        assert(nth_next(start, n, k) == j);
    }
}

} // verus!
