//! A dot animation that cycles from zero dots up to a maximum and back.
use vstd::prelude::*;
use vstd::arithmetic::div_mod::{lemma_add_mod_noop, lemma_mod_bound, lemma_mod_self_0, lemma_small_mod};

verus! {

/// `n` dots.
pub open spec fn dots(n: nat) -> Seq<char> {
    Seq::new(n, |i: int| '.')
}

/// The dot count and its maximum.
#[derive(Debug)]
pub struct AnimationState {
    pub dots_count: usize,
    pub max_dots: usize,
}

impl AnimationState {
    pub fn new(max_dots: usize) -> (r: AnimationState)
        ensures
            r.dots_count == 0,
            r.max_dots == max_dots,
    {
        AnimationState { dots_count: 0, max_dots }
    }

    /// One frame on: the count goes up by one, wrapping from `max_dots` to zero.
    pub fn update(&mut self)
        ensures
            final(self).dots_count == (old(self).dots_count + 1) % (old(self).max_dots + 1),
            final(self).max_dots == old(self).max_dots,
    {
        let d: usize = self.dots_count;
        let m: usize = self.max_dots;
        if m == usize::MAX {
            if d == usize::MAX {
                self.dots_count = 0;
            } else {
                self.dots_count = d + 1;
            }
            proof {
                if d < usize::MAX {
                    lemma_small_mod((d + 1) as nat, (m + 1) as nat);
                } else {
                    lemma_mod_self_0((m + 1) as int);
                }
            }
        } else {
            let q: usize = m + 1;
            let r: usize = d % q;
            self.dots_count = if r + 1 == q {
                0
            } else {
                r + 1
            };
            proof {
                lemma_add_mod_noop(d as int, 1, q as int);
                if q == 1 {
                    lemma_mod_bound(d + 1, 1);
                } else {
                    lemma_small_mod(1, q as nat);
                }
                if r + 1 == q {
                    lemma_mod_self_0(q as int);
                } else {
                    lemma_small_mod((r + 1) as nat, q as nat);
                }
            }
        }
    }

    /// As many dots as the current count.
    pub fn get_display(&self) -> (r: String)
        ensures
            r@ == dots(self.dots_count as nat),
    {
        let mut s = String::new();
        let mut i: usize = 0;
        proof {
            reveal_strlit(".");
        }
        while i < self.dots_count
            invariant
                i <= self.dots_count,
                s@ == dots(i as nat),
                "."@ == seq!['.'],
            decreases self.dots_count - i,
        {
            s.append(".");
            i = i + 1;
            assert(s@ =~= dots(i as nat));
        }
        s
    }

    pub fn get_dots_count(&self) -> (r: usize)
        ensures
            r == self.dots_count,
    {
        self.dots_count
    }
}

/// Drives an [`AnimationState`] from a tick source of its own: the owner
/// calls [`AnimationController::advance`] on each frame, so the animation
/// never shares state with the monitor.
#[derive(Debug)]
pub struct AnimationController {
    pub state: AnimationState,
}

impl AnimationController {
    pub fn new(max_dots: usize) -> (r: AnimationController)
        ensures
            r.state.dots_count == 0,
            r.state.max_dots == max_dots,
    {
        AnimationController { state: AnimationState::new(max_dots) }
    }

    /// Moves the animation one frame on.
    pub fn advance(&mut self)
        ensures
            final(self).state.dots_count == (old(self).state.dots_count + 1) % (old(self).state.max_dots
                + 1),
            final(self).state.max_dots == old(self).state.max_dots,
    {
        self.state.update();
    }

    pub fn get_display(&self) -> (r: String)
        ensures
            r@ == dots(self.state.dots_count as nat),
    {
        self.state.get_display()
    }

    pub fn get_dots_count(&self) -> (r: usize)
        ensures
            r == self.state.dots_count,
    {
        self.state.get_dots_count()
    }
}

} // verus!
