use vstd::prelude::*;

verus! {

/// Number of ticks a freshly touched counter allows before the system counts as idle.
pub const DEFAULT_RESET: u8 = 120;

/// Mathematical model of the activity counter: the ticks that remain before
/// the system is considered idle, and the value every touch restores.
pub struct Countdown {
    pub remaining: nat,
    pub reset: nat,
}

impl Countdown {
    /// The remaining ticks never exceed the reset constant.
    pub open spec fn wf(self) -> bool {
        self.remaining <= self.reset
    }

    /// The counter after a request has signalled activity.
    pub open spec fn touched(self) -> Countdown {
        Countdown { remaining: self.reset, reset: self.reset }
    }

    /// The counter after one watchdog tick.
    pub open spec fn ticked(self) -> Countdown {
        Countdown {
            remaining: if self.remaining > 0 {
                (self.remaining - 1) as nat
            } else {
                0
            },
            reset: self.reset,
        }
    }

    /// Whether the idle window has run out, so that a sweep is due.
    pub open spec fn expired(self) -> bool {
        self.remaining == 0
    }

    /// The counter after `n` ticks with no touch in between.
    pub open spec fn after_ticks(self, n: nat) -> Countdown
        decreases n,
    {
        if n == 0 {
            self
        } else {
            self.after_ticks((n - 1) as nat).ticked()
        }
    }
}

/// A touch restores the reset constant, whatever the counter held, and keeps
/// the counter within its bounds.
pub proof fn lemma_touch_resets(c: Countdown)
    ensures
        c.touched().remaining == c.reset,
        c.touched().reset == c.reset,
        c.touched().wf(),
        c.touched().touched() == c.touched(),
{
}

/// Without a touch the counter goes down by exactly one per tick until it
/// reaches zero, where it stays; it runs out on the tick that takes the last
/// one off and not before. The reset constant never changes, and the counter
/// stays within its bounds.
pub proof fn lemma_idle_countdown(c: Countdown, n: nat)
    ensures
        c.after_ticks(n).reset == c.reset,
        n <= c.remaining ==> c.after_ticks(n).remaining == c.remaining - n,
        n >= c.remaining ==> c.after_ticks(n).expired(),
        n < c.remaining ==> !c.after_ticks(n).expired(),
        c.wf() ==> c.after_ticks(n).wf(),
    decreases n,
{
    if n > 0 {
        lemma_idle_countdown(c, (n - 1) as nat);
    }
}

/// Countdown shared by the request handlers, which reset it, and the idle
/// watchdog, which is its only decrementer.
pub struct ActivityCounter {
    remaining: u8,
    reset: u8,
}

impl View for ActivityCounter {
    type V = Countdown;

    closed spec fn view(&self) -> Countdown {
        Countdown { remaining: self.remaining as nat, reset: self.reset as nat }
    }
}

impl ActivityCounter {
    #[verifier::type_invariant]
    spec fn inv(self) -> bool {
        self.remaining <= self.reset
    }

    /// A counter that starts full, at `reset` ticks.
    pub fn new(reset: u8) -> (c: ActivityCounter)
        ensures
            c@ == (Countdown { remaining: reset as nat, reset: reset as nat }),
    {
        ActivityCounter { remaining: reset, reset }
    }

    /// Signals activity: the full idle window is available again.
    pub fn touch(&mut self)
        ensures
            old(self)@.wf(),
            final(self)@ == old(self)@.touched(),
    {
        proof {
            use_type_invariant(&*self);
        }
        self.remaining = self.reset;
    }

    /// One watchdog tick: takes one tick off a counter that has any left, and
    /// reports whether the idle window has now run out.
    pub fn tick(&mut self) -> (due: bool)
        ensures
            old(self)@.wf(),
            final(self)@ == old(self)@.ticked(),
            due == final(self)@.expired(),
    {
        proof {
            use_type_invariant(&*self);
        }
        if self.remaining > 0 {
            self.remaining = self.remaining - 1;
        }
        self.remaining == 0
    }

    /// Ticks left before the system counts as idle.
    pub fn remaining(&self) -> (r: u8)
        ensures
            self@.wf(),
            r == self@.remaining,
    {
        proof {
            use_type_invariant(self);
        }
        self.remaining
    }

    /// The value every touch restores.
    pub fn reset_value(&self) -> (r: u8)
        ensures
            self@.wf(),
            r == self@.reset,
    {
        proof {
            use_type_invariant(self);
        }
        self.reset
    }
}

} // verus!
