//! The interactive watch front end: a key-driven state plus an animation.
use vstd::prelude::*;
use crate::animation::{dots, AnimationController};
use crate::state::{next_state, WatchState};

verus! {

/// The full status line for a state, given the animation's dot count.
pub open spec fn display_text(s: WatchState, dot_count: nat) -> Seq<char> {
    match s {
        WatchState::Stopped => "🔴 停止状态 - 按 Enter 发送"@,
        WatchState::Running => "⚪ 运行状态"@ + dots(dot_count) + " - 按 Esc 中断"@,
        WatchState::Interrupted => "⚠️ 已中断 - 按任意键继续"@,
    }
}

pub struct WatchApp {
    pub state: WatchState,
    pub animation: AnimationController,
}

impl WatchApp {
    /// A stopped app with a three-dot animation.
    pub fn new() -> (r: WatchApp)
        ensures
            r.state == WatchState::Stopped,
            r.animation.state.dots_count == 0,
            r.animation.state.max_dots == 3,
    {
        WatchApp { state: WatchState::Stopped, animation: AnimationController::new(3) }
    }

    /// Applies a key; returns whether the state changed.
    pub fn handle_input(&mut self, key: &str) -> (r: bool)
        ensures
            r == next_state(old(self).state, key@) is Some,
            final(self).state == (match next_state(old(self).state, key@) {
                Some(s) => s,
                None => old(self).state,
            }),
            final(self).animation == old(self).animation,
    {
        match self.state.handle_input(key) {
            Some(new_state) => {
                self.state = new_state;
                true
            },
            None => false,
        }
    }

    pub fn get_state(&self) -> (r: &WatchState)
        ensures
            *r == self.state,
    {
        &self.state
    }

    /// The status line for the current state.
    pub fn get_display_string(&self) -> (r: String)
        ensures
            r@ == display_text(self.state, self.animation.state.dots_count as nat),
    {
        match self.state {
            WatchState::Stopped => String::from_str("🔴 停止状态 - 按 Enter 发送"),
            WatchState::Running => {
                let mut s = String::from_str("⚪ 运行状态");
                let d = self.animation.get_display();
                s.append(d.as_str());
                s.append(" - 按 Esc 中断");
                s
            },
            WatchState::Interrupted => String::from_str("⚠️ 已中断 - 按任意键继续"),
        }
    }

    /// Moves the animation one frame on.
    pub fn tick_animation(&mut self)
        ensures
            final(self).state == old(self).state,
            final(self).animation.state.dots_count == (old(self).animation.state.dots_count + 1) % (old(
                self,
            ).animation.state.max_dots + 1),
            final(self).animation.state.max_dots == old(self).animation.state.max_dots,
    {
        self.animation.advance();
    }

    pub fn is_running(&self) -> (r: bool)
        ensures
            r == (self.state == WatchState::Running),
    {
        self.state == WatchState::Running
    }

    pub fn is_stopped(&self) -> (r: bool)
        ensures
            r == (self.state == WatchState::Stopped),
    {
        self.state == WatchState::Stopped
    }

    pub fn is_interrupted(&self) -> (r: bool)
        ensures
            r == (self.state == WatchState::Interrupted),
    {
        self.state == WatchState::Interrupted
    }
}

impl Default for WatchApp {
    fn default() -> (r: WatchApp)
        ensures
            r.state == WatchState::Stopped,
            r.animation.state.dots_count == 0,
            r.animation.state.max_dots == 3,
    {
        WatchApp::new()
    }
}

} // verus!
