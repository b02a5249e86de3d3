use vstd::prelude::*;

use crate::counter::{ActivityCounter, Countdown};

verus! {

/// Seconds between two ticks of the watchdog.
pub const TICK_INTERVAL_SECS: u64 = 30;

/// Where the watchdog stands. It counts, or it sweeps: a sweep first lists
/// the open tabs and then closes them one by one.
#[derive(Clone, Copy, Debug, PartialEq, Eq, Structural)]
pub enum Phase {
    /// Ticking the activity counter down.
    Counting,
    /// Sweeping: waiting for the list of open tabs.
    Listing,
    /// Sweeping: `next` of the `total` listed tabs is being closed.
    Closing { total: usize, next: usize },
}

/// What the driver of the watchdog reports.
#[derive(Clone, Copy, Debug, PartialEq, Eq, Structural)]
pub enum WatchdogEvent {
    /// The tick interval has elapsed.
    Tick,
    /// The open tabs were listed, and how many there are; `None` where the
    /// list could not be had.
    TabsListed(Option<usize>),
    /// The close of the current tab was attempted, and whether it succeeded.
    TabClosed(bool),
}

/// What the watchdog asks its driver to do next.
#[derive(Clone, Copy, Debug, PartialEq, Eq, Structural)]
pub enum WatchdogAction {
    /// Sleep for the tick interval, then report a tick.
    Wait,
    /// List the tabs that are open now, then report how many there are.
    ListTabs,
    /// Close the listed tab at `index`, then report how it went.
    CloseTab { index: usize, fire_unload: bool },
}

impl Phase {
    /// A sweep is under way.
    pub open spec fn sweeping(self) -> bool {
        !(self is Counting)
    }

    /// A tab that is being closed is one of those listed.
    pub open spec fn wf(self) -> bool {
        self matches Phase::Closing { total, next } ==> next < total
    }

    /// The operation the watchdog is waiting on in this phase.
    pub open spec fn pending(self) -> WatchdogAction {
        match self {
            Phase::Counting => WatchdogAction::Wait,
            Phase::Listing => WatchdogAction::ListTabs,
            Phase::Closing { total, next } => WatchdogAction::CloseTab {
                index: next,
                fire_unload: true,
            },
        }
    }

    /// Whether `event` is the one that completes the sweep under way: the
    /// list is empty or could not be had, or the last listed tab was dealt
    /// with, whether or not its close succeeded.
    pub open spec fn completes_sweep(self, event: WatchdogEvent) -> bool {
        match (self, event) {
            (Phase::Listing, WatchdogEvent::TabsListed(None)) => true,
            (Phase::Listing, WatchdogEvent::TabsListed(Some(n))) => n == 0,
            (Phase::Closing { total, next }, WatchdogEvent::TabClosed(_)) => next + 1 >= total,
            _ => false,
        }
    }

    /// The phase after `event`. `counter` is the activity counter as it was
    /// on delivery, where the driver held its lock. An event that the phase
    /// is not waiting for changes nothing, and neither does a tick without
    /// the counter.
    pub open spec fn after(self, event: WatchdogEvent, counter: Option<Countdown>) -> Phase {
        match (self, event) {
            (Phase::Counting, WatchdogEvent::Tick) => match counter {
                Some(c) => if c.ticked().expired() {
                    Phase::Listing
                } else {
                    Phase::Counting
                },
                None => Phase::Counting,
            },
            (Phase::Listing, WatchdogEvent::TabsListed(listed)) => match listed {
                Some(n) => if n > 0 {
                    Phase::Closing { total: n, next: 0 }
                } else {
                    Phase::Counting
                },
                None => Phase::Counting,
            },
            (Phase::Closing { total, next }, WatchdogEvent::TabClosed(_)) => if next + 1 < total {
                Phase::Closing { total, next: (next + 1) as usize }
            } else {
                Phase::Counting
            },
            _ => self,
        }
    }

    /// The activity counter after `event` was delivered in this phase with
    /// the counter's lock held: a tick while counting takes one off, the
    /// event that completes a sweep resets it, anything else leaves it.
    pub open spec fn counter_after(self, event: WatchdogEvent, counter: Countdown) -> Countdown {
        if self is Counting && event is Tick {
            counter.ticked()
        } else if self.completes_sweep(event) {
            counter.touched()
        } else {
            counter
        }
    }
}

/// The idle watchdog: ticks the activity counter down and, once it has run
/// out, has every open tab closed, then starts over. It decides; its driver
/// sleeps, takes the counter's lock, talks to the backend, and reports.
///
/// The counter's lock is only ever needed for the moment of a delivery,
/// never while the backend works. A sweep closes the tabs that were open
/// when it listed them, those of requests in flight included: such a
/// request fails at its next operation. A sweep that ends while the lock
/// cannot be taken leaves the counter at zero, so the next tick that gets
/// the lock sweeps again.
pub struct Watchdog {
    phase: Phase,
}

impl View for Watchdog {
    type V = Phase;

    closed spec fn view(&self) -> Phase {
        self.phase
    }
}

impl Watchdog {
    #[verifier::type_invariant]
    spec fn inv(self) -> bool {
        self.phase.wf()
    }

    /// A watchdog that is counting.
    pub fn new() -> (w: Watchdog)
        ensures
            w@ == Phase::Counting,
    {
        Watchdog { phase: Phase::Counting }
    }

    /// The phase the watchdog is in.
    pub fn phase(&self) -> (phase: Phase)
        ensures
            phase == self@,
            self@.wf(),
    {
        proof {
            use_type_invariant(self);
        }
        self.phase
    }

    /// The operation the watchdog is waiting on.
    pub fn action(&self) -> (action: WatchdogAction)
        ensures
            action == self@.pending(),
    {
        match self.phase {
            Phase::Counting => WatchdogAction::Wait,
            Phase::Listing => WatchdogAction::ListTabs,
            Phase::Closing { total, next } => WatchdogAction::CloseTab {
                index: next,
                fire_unload: true,
            },
        }
    }

    /// Takes what the driver reports and returns the operation to perform
    /// next. `counter` is the activity counter where the driver could take
    /// its lock for this delivery.
    pub fn step(
        &mut self,
        event: WatchdogEvent,
        counter: Option<&mut ActivityCounter>,
    ) -> (action: WatchdogAction)
        ensures
            old(self)@.wf(),
            final(self)@ == old(self)@.after(
                event,
                match counter {
                    Some(c) => Some(c@),
                    None => None,
                },
            ),
            counter matches Some(c) ==> final(c)@ == old(self)@.counter_after(event, c@),
            action == final(self)@.pending(),
    {
        proof {
            use_type_invariant(&*self);
        }
        match (self.phase, event) {
            (Phase::Counting, WatchdogEvent::Tick) => {
                match counter {
                    Some(c) => {
                        if c.tick() {
                            self.phase = Phase::Listing;
                        }
                    },
                    None => {},
                }
            },
            (Phase::Listing, WatchdogEvent::TabsListed(Some(n))) => {
                if n > 0 {
                    self.phase = Phase::Closing { total: n, next: 0 };
                } else {
                    self.phase = Phase::Counting;
                    Self::sweep_completed(counter);
                }
            },
            (Phase::Listing, WatchdogEvent::TabsListed(None)) => {
                self.phase = Phase::Counting;
                Self::sweep_completed(counter);
            },
            (Phase::Closing { total, next }, WatchdogEvent::TabClosed(_)) => {
                if next + 1 < total {
                    self.phase = Phase::Closing { total, next: next + 1 };
                } else {
                    self.phase = Phase::Counting;
                    Self::sweep_completed(counter);
                }
            },
            _ => {},
        }
        self.action()
    }

    /// Resets the counter at the end of a sweep, where its lock is held.
    fn sweep_completed(counter: Option<&mut ActivityCounter>)
        ensures
            counter matches Some(c) ==> final(c)@ == c@.touched(),
    {
        match counter {
            Some(c) => {
                c.touch();
            },
            None => {},
        }
    }
}

/// The watchdog together with the counter it ticks: what the laws of the
/// supervisor are stated over.
pub struct Supervision {
    pub phase: Phase,
    pub counter: Countdown,
}

impl Supervision {
    /// The state after `event` was delivered, with or without the counter's
    /// lock held.
    pub open spec fn delivered(self, event: WatchdogEvent, locked: bool) -> Supervision {
        if locked {
            Supervision {
                phase: self.phase.after(event, Some(self.counter)),
                counter: self.phase.counter_after(event, self.counter),
            }
        } else {
            Supervision { phase: self.phase.after(event, None), counter: self.counter }
        }
    }

    /// The state after `n` ticks, each delivered with the lock held, and no
    /// request in between.
    pub open spec fn idle(self, n: nat) -> Supervision
        decreases n,
    {
        if n == 0 {
            self
        } else {
            self.idle((n - 1) as nat).delivered(WatchdogEvent::Tick, true)
        }
    }

    /// The state after one close report for each of `results`, in order,
    /// each delivered with the lock held.
    pub open spec fn closed(self, results: Seq<bool>) -> Supervision
        decreases results.len(),
    {
        if results.len() == 0 {
            self
        } else {
            self.closed(results.drop_last()).delivered(
                WatchdogEvent::TabClosed(results.last()),
                true,
            )
        }
    }

    /// The number of the tick on which a counting watchdog starts its sweep.
    pub open spec fn due_at(self) -> nat {
        if self.counter.remaining == 0 {
            1
        } else {
            self.counter.remaining
        }
    }
}

/// Every transition keeps the phase well formed and the counter within its
/// bounds, whatever is delivered and whether or not the lock is held.
pub proof fn lemma_delivery_preserves_bounds(s: Supervision, event: WatchdogEvent, locked: bool)
    requires
        s.phase.wf(),
        s.counter.wf(),
    ensures
        s.delivered(event, locked).phase.wf(),
        s.delivered(event, locked).counter.wf(),
        s.delivered(event, locked).counter.reset == s.counter.reset,
{
}

/// A tick that finds the counter's lock taken is skipped: nothing changes,
/// and the watchdog waits for the next interval.
pub proof fn lemma_tick_without_lock_is_skipped(s: Supervision)
    requires
        s.phase is Counting,
    ensures
        s.delivered(WatchdogEvent::Tick, false) == s,
        s.delivered(WatchdogEvent::Tick, false).phase.pending() == WatchdogAction::Wait,
{
}

/// With no request in between, a counting watchdog takes exactly one off the
/// counter per tick and keeps waiting until the counter reaches zero. The
/// tick that reaches zero starts the sweep, and no later tick starts another
/// or touches the counter while that sweep is under way.
pub proof fn lemma_idle_window(s: Supervision, n: nat)
    requires
        s.phase is Counting,
    ensures
        n < s.due_at() ==> s.idle(n).phase is Counting && s.idle(n).counter.remaining
            == s.counter.remaining - n,
        n >= s.due_at() ==> s.idle(n).phase is Listing && s.idle(n).counter.remaining == 0,
        s.idle(n).counter.reset == s.counter.reset,
    decreases n,
{
    if n > 0 {
        lemma_idle_window(s, (n - 1) as nat);
    }
}

/// A sweep that finds no tab open closes nothing: it ends at once, the
/// watchdog counts again, and the counter is reset.
pub proof fn lemma_empty_sweep(s: Supervision)
    requires
        s.phase is Listing,
    ensures
        s.delivered(WatchdogEvent::TabsListed(Some(0)), true) == (Supervision {
            phase: Phase::Counting,
            counter: s.counter.touched(),
        }),
        s.delivered(WatchdogEvent::TabsListed(Some(0)), true).phase.pending()
            == WatchdogAction::Wait,
{
}

/// A sweep whose list of tabs cannot be had ends like an empty one.
pub proof fn lemma_failed_listing_ends_sweep(s: Supervision)
    requires
        s.phase is Listing,
    ensures
        s.delivered(WatchdogEvent::TabsListed(None), true) == (Supervision {
            phase: Phase::Counting,
            counter: s.counter.touched(),
        }),
{
}

/// A sweep asks for the close of every listed tab exactly once, in the
/// order of the list, whether or not the closes before it succeeded. When
/// the last one has been reported the watchdog counts again and the counter
/// is reset.
pub proof fn lemma_sweep_closes_every_tab(s: Supervision, total: usize, results: Seq<bool>)
    requires
        s.phase is Listing,
        total > 0,
        results.len() <= total,
    ensures
        ({
            let listed = s.delivered(WatchdogEvent::TabsListed(Some(total)), true);
            let now = listed.closed(results);
            if results.len() < total {
                &&& now.phase == (Phase::Closing { total, next: results.len() as usize })
                &&& now.phase.pending() == (WatchdogAction::CloseTab {
                    index: results.len() as usize,
                    fire_unload: true,
                })
                &&& now.counter == s.counter
            } else {
                &&& now.phase == Phase::Counting
                &&& now.counter == s.counter.touched()
            }
        }),
    decreases results.len(),
{
    if results.len() > 0 {
        lemma_sweep_closes_every_tab(s, total, results.drop_last());
    }
}

/// A full idle cycle: a watchdog that starts counting on a full counter
/// sweeps after as many ticks as the reset constant, and when every listed
/// tab has been dealt with it counts again on a full counter.
pub proof fn lemma_idle_cycle(s: Supervision, total: usize, results: Seq<bool>)
    requires
        s.phase is Counting,
        s.counter.remaining == s.counter.reset,
        s.counter.reset > 0,
        results.len() == total,
    ensures
        ({
            let due = s.idle(s.counter.reset);
            let after = due.delivered(WatchdogEvent::TabsListed(Some(total)), true).closed(
                results,
            );
            &&& due.phase is Listing
            &&& forall|n: nat| n < s.counter.reset ==> (#[trigger] s.idle(n)).phase is Counting
            &&& after == s
        }),
{
    lemma_idle_window(s, s.counter.reset);
    assert forall|n: nat| n < s.counter.reset implies (#[trigger] s.idle(n)).phase is Counting by {
        lemma_idle_window(s, n);
    }
    let due = s.idle(s.counter.reset);
    if total > 0 {
        lemma_sweep_closes_every_tab(due, total, results);
    } else {
        lemma_empty_sweep(due);
    }
}

} // verus!
