//! The interactive watch state and its key-driven transitions.
use vstd::prelude::*;
use crate::text::same_text;

verus! {

#[derive(Debug, Clone, Copy, PartialEq, Eq, Structural)]
pub enum WatchState {
    Stopped,
    Running,
    Interrupted,
}

/// The state a key leads to, if any: Enter starts a stopped watch, `esc`
/// interrupts a running one, and nothing else moves.
pub open spec fn next_state(s: WatchState, key: Seq<char>) -> Option<WatchState> {
    match s {
        WatchState::Stopped => if key == "\n"@ {
            Some(WatchState::Running)
        } else {
            None
        },
        WatchState::Running => if key == "esc"@ {
            Some(WatchState::Interrupted)
        } else {
            None
        },
        WatchState::Interrupted => None,
    }
}

/// The short label of a state.
pub open spec fn state_label(s: WatchState) -> Seq<char> {
    match s {
        WatchState::Stopped => "🔴 停止状态"@,
        WatchState::Running => "⚪ 运行状态"@,
        WatchState::Interrupted => "⚠️ 已中断"@,
    }
}

impl WatchState {
    /// The state that `key` leads to, or `None` when the key does nothing here.
    pub fn handle_input(&self, key: &str) -> (r: Option<WatchState>)
        ensures
            r == next_state(*self, key@),
    {
        match self {
            WatchState::Stopped => {
                if same_text(key, "\n") {
                    Some(WatchState::Running)
                } else {
                    None
                }
            },
            WatchState::Running => {
                if same_text(key, "esc") {
                    Some(WatchState::Interrupted)
                } else {
                    None
                }
            },
            WatchState::Interrupted => None,
        }
    }

    /// The short label shown for this state.
    pub fn label(&self) -> (r: String)
        ensures
            r@ == state_label(*self),
    {
        match self {
            WatchState::Stopped => String::from_str("🔴 停止状态"),
            WatchState::Running => String::from_str("⚪ 运行状态"),
            WatchState::Interrupted => String::from_str("⚠️ 已中断"),
        }
    }
}

} // verus!
