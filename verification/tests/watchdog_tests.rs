use tab_supervisor::counter::{ActivityCounter, DEFAULT_RESET};
use tab_supervisor::watchdog::{Phase, Watchdog, WatchdogAction, WatchdogEvent, TICK_INTERVAL_SECS};

/// Tabs of a pretend backend: `true` while open. A tab can refuse to close.
struct FakeTabs {
    open: Vec<bool>,
    stuck: Vec<bool>,
    listing_fails: bool,
    close_attempts: Vec<usize>,
    snapshot: Vec<usize>,
}

impl FakeTabs {
    fn with_open(n: usize) -> FakeTabs {
        FakeTabs {
            open: vec![true; n],
            stuck: vec![false; n],
            listing_fails: false,
            close_attempts: Vec::new(),
            snapshot: Vec::new(),
        }
    }

    fn open_count(&self) -> usize {
        self.open.iter().filter(|o| **o).count()
    }

    /// Performs what the watchdog asked for and says what to report.
    fn perform(&mut self, action: WatchdogAction) -> WatchdogEvent {
        match action {
            WatchdogAction::Wait => WatchdogEvent::Tick,
            WatchdogAction::ListTabs => {
                if self.listing_fails {
                    return WatchdogEvent::TabsListed(None);
                }
                self.snapshot = (0..self.open.len()).filter(|i| self.open[*i]).collect();
                WatchdogEvent::TabsListed(Some(self.snapshot.len()))
            }
            WatchdogAction::CloseTab { index, fire_unload } => {
                assert!(fire_unload);
                let tab = self.snapshot[index];
                self.close_attempts.push(tab);
                if self.stuck[tab] {
                    WatchdogEvent::TabClosed(false)
                } else {
                    self.open[tab] = false;
                    WatchdogEvent::TabClosed(true)
                }
            }
        }
    }
}

/// Delivers ticks and whatever the sweep needs until `ticks` ticks have been
/// delivered and the watchdog waits again.
fn run_idle(watchdog: &mut Watchdog, counter: &mut ActivityCounter, tabs: &mut FakeTabs, ticks: usize) {
    let mut delivered = 0;
    let mut action = watchdog.action();
    loop {
        if action == WatchdogAction::Wait {
            if delivered == ticks {
                return;
            }
            delivered += 1;
        }
        let event = tabs.perform(action);
        action = watchdog.step(event, Some(&mut *counter));
    }
}

#[test]
fn tick_interval_is_thirty_seconds() {
    assert_eq!(TICK_INTERVAL_SECS, 30);
    assert_eq!(DEFAULT_RESET, 120);
}

#[test]
fn new_watchdog_counts_and_waits() {
    let watchdog = Watchdog::new();
    assert_eq!(watchdog.phase(), Phase::Counting);
    assert_eq!(watchdog.action(), WatchdogAction::Wait);
}

#[test]
fn idle_window_sweeps_preopened_tabs_on_the_last_tick() {
    let mut counter = ActivityCounter::new(DEFAULT_RESET);
    let mut watchdog = Watchdog::new();
    let mut tabs = FakeTabs::with_open(2);

    run_idle(&mut watchdog, &mut counter, &mut tabs, 119);
    assert_eq!(counter.remaining(), 1);
    assert_eq!(tabs.open_count(), 2);
    assert_eq!(watchdog.phase(), Phase::Counting);

    run_idle(&mut watchdog, &mut counter, &mut tabs, 1);
    assert_eq!(tabs.open_count(), 0);
    assert_eq!(tabs.close_attempts, vec![0, 1]);
    assert_eq!(counter.remaining(), 120);
    assert_eq!(watchdog.phase(), Phase::Counting);
    assert_eq!(watchdog.action(), WatchdogAction::Wait);
}

#[test]
fn counter_goes_down_by_one_per_tick_until_the_sweep() {
    let mut counter = ActivityCounter::new(5);
    let mut watchdog = Watchdog::new();
    for left in [4u8, 3, 2, 1] {
        let action = watchdog.step(WatchdogEvent::Tick, Some(&mut counter));
        assert_eq!(action, WatchdogAction::Wait);
        assert_eq!(counter.remaining(), left);
    }
    let action = watchdog.step(WatchdogEvent::Tick, Some(&mut counter));
    assert_eq!(action, WatchdogAction::ListTabs);
    assert_eq!(counter.remaining(), 0);
    assert_eq!(watchdog.phase(), Phase::Listing);

    let action = watchdog.step(WatchdogEvent::Tick, Some(&mut counter));
    assert_eq!(action, WatchdogAction::ListTabs);
    assert_eq!(counter.remaining(), 0);
}

#[test]
fn touch_during_the_count_postpones_the_sweep() {
    let mut counter = ActivityCounter::new(3);
    let mut watchdog = Watchdog::new();
    watchdog.step(WatchdogEvent::Tick, Some(&mut counter));
    watchdog.step(WatchdogEvent::Tick, Some(&mut counter));
    assert_eq!(counter.remaining(), 1);
    counter.touch();
    assert_eq!(watchdog.step(WatchdogEvent::Tick, Some(&mut counter)), WatchdogAction::Wait);
    assert_eq!(watchdog.step(WatchdogEvent::Tick, Some(&mut counter)), WatchdogAction::Wait);
    assert_eq!(watchdog.step(WatchdogEvent::Tick, Some(&mut counter)), WatchdogAction::ListTabs);
}

#[test]
fn sweep_with_no_open_tab_only_resets_the_counter() {
    let mut counter = ActivityCounter::new(2);
    let mut watchdog = Watchdog::new();
    let mut tabs = FakeTabs::with_open(0);
    run_idle(&mut watchdog, &mut counter, &mut tabs, 2);
    assert!(tabs.close_attempts.is_empty());
    assert_eq!(counter.remaining(), 2);
    assert_eq!(watchdog.phase(), Phase::Counting);

    let mut counter = ActivityCounter::new(1);
    let mut watchdog = Watchdog::new();
    assert_eq!(watchdog.step(WatchdogEvent::Tick, Some(&mut counter)), WatchdogAction::ListTabs);
    assert_eq!(
        watchdog.step(WatchdogEvent::TabsListed(Some(0)), Some(&mut counter)),
        WatchdogAction::Wait
    );
    assert_eq!(counter.remaining(), 1);
}

#[test]
fn failed_listing_ends_the_sweep() {
    let mut counter = ActivityCounter::new(1);
    let mut watchdog = Watchdog::new();
    let mut tabs = FakeTabs::with_open(2);
    tabs.listing_fails = true;
    run_idle(&mut watchdog, &mut counter, &mut tabs, 1);
    assert_eq!(tabs.open_count(), 2);
    assert!(tabs.close_attempts.is_empty());
    assert_eq!(counter.remaining(), 1);
    assert_eq!(watchdog.phase(), Phase::Counting);
}

#[test]
fn stuck_tab_does_not_stop_the_sweep() {
    let mut counter = ActivityCounter::new(1);
    let mut watchdog = Watchdog::new();
    let mut tabs = FakeTabs::with_open(3);
    tabs.stuck[1] = true;
    run_idle(&mut watchdog, &mut counter, &mut tabs, 1);
    assert_eq!(tabs.close_attempts, vec![0, 1, 2]);
    assert_eq!(tabs.open, vec![false, true, false]);
    assert_eq!(counter.remaining(), 1);
    assert_eq!(watchdog.phase(), Phase::Counting);
}

#[test]
fn sweep_asks_for_each_listed_tab_in_turn() {
    let mut counter = ActivityCounter::new(1);
    let mut watchdog = Watchdog::new();
    assert_eq!(watchdog.step(WatchdogEvent::Tick, Some(&mut counter)), WatchdogAction::ListTabs);
    assert_eq!(
        watchdog.step(WatchdogEvent::TabsListed(Some(3)), None),
        WatchdogAction::CloseTab { index: 0, fire_unload: true }
    );
    assert_eq!(watchdog.phase(), Phase::Closing { total: 3, next: 0 });
    assert_eq!(
        watchdog.step(WatchdogEvent::TabClosed(true), None),
        WatchdogAction::CloseTab { index: 1, fire_unload: true }
    );
    assert_eq!(
        watchdog.step(WatchdogEvent::TabClosed(false), None),
        WatchdogAction::CloseTab { index: 2, fire_unload: true }
    );
    assert_eq!(counter.remaining(), 0);
    assert_eq!(
        watchdog.step(WatchdogEvent::TabClosed(true), Some(&mut counter)),
        WatchdogAction::Wait
    );
    assert_eq!(counter.remaining(), 1);
    assert_eq!(watchdog.phase(), Phase::Counting);
}

#[test]
fn tick_without_the_lock_is_skipped() {
    let mut counter = ActivityCounter::new(2);
    let mut watchdog = Watchdog::new();
    assert_eq!(watchdog.step(WatchdogEvent::Tick, None), WatchdogAction::Wait);
    assert_eq!(watchdog.step(WatchdogEvent::Tick, None), WatchdogAction::Wait);
    assert_eq!(watchdog.step(WatchdogEvent::Tick, None), WatchdogAction::Wait);
    assert_eq!(watchdog.phase(), Phase::Counting);
    assert_eq!(counter.remaining(), 2);
    assert_eq!(watchdog.step(WatchdogEvent::Tick, Some(&mut counter)), WatchdogAction::Wait);
    assert_eq!(watchdog.step(WatchdogEvent::Tick, Some(&mut counter)), WatchdogAction::ListTabs);
}

#[test]
fn sweep_that_ends_without_the_lock_is_repeated_on_the_next_tick() {
    let mut counter = ActivityCounter::new(2);
    let mut watchdog = Watchdog::new();
    watchdog.step(WatchdogEvent::Tick, Some(&mut counter));
    assert_eq!(watchdog.step(WatchdogEvent::Tick, Some(&mut counter)), WatchdogAction::ListTabs);
    assert_eq!(watchdog.step(WatchdogEvent::TabsListed(Some(0)), None), WatchdogAction::Wait);
    assert_eq!(counter.remaining(), 0);
    assert_eq!(watchdog.step(WatchdogEvent::Tick, Some(&mut counter)), WatchdogAction::ListTabs);
    assert_eq!(
        watchdog.step(WatchdogEvent::TabsListed(None), Some(&mut counter)),
        WatchdogAction::Wait
    );
    assert_eq!(counter.remaining(), 2);
}

#[test]
fn unexpected_reports_change_nothing() {
    let mut counter = ActivityCounter::new(4);
    let mut watchdog = Watchdog::new();
    assert_eq!(
        watchdog.step(WatchdogEvent::TabClosed(true), Some(&mut counter)),
        WatchdogAction::Wait
    );
    assert_eq!(
        watchdog.step(WatchdogEvent::TabsListed(Some(5)), Some(&mut counter)),
        WatchdogAction::Wait
    );
    assert_eq!(watchdog.phase(), Phase::Counting);
    assert_eq!(counter.remaining(), 4);

    let mut counter = ActivityCounter::new(1);
    watchdog.step(WatchdogEvent::Tick, Some(&mut counter));
    assert_eq!(
        watchdog.step(WatchdogEvent::TabClosed(true), Some(&mut counter)),
        WatchdogAction::ListTabs
    );
    watchdog.step(WatchdogEvent::TabsListed(Some(2)), Some(&mut counter));
    assert_eq!(
        watchdog.step(WatchdogEvent::TabsListed(Some(9)), Some(&mut counter)),
        WatchdogAction::CloseTab { index: 0, fire_unload: true }
    );
    assert_eq!(
        watchdog.step(WatchdogEvent::Tick, Some(&mut counter)),
        WatchdogAction::CloseTab { index: 0, fire_unload: true }
    );
    assert_eq!(counter.remaining(), 0);
}

#[test]
fn counter_with_zero_reset_sweeps_on_every_tick() {
    let mut counter = ActivityCounter::new(0);
    let mut watchdog = Watchdog::new();
    assert_eq!(watchdog.step(WatchdogEvent::Tick, Some(&mut counter)), WatchdogAction::ListTabs);
    assert_eq!(
        watchdog.step(WatchdogEvent::TabsListed(Some(0)), Some(&mut counter)),
        WatchdogAction::Wait
    );
    assert_eq!(watchdog.step(WatchdogEvent::Tick, Some(&mut counter)), WatchdogAction::ListTabs);
}
