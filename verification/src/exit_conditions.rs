//! Time-qualified convergence tests that end a motion.
//!
//! A condition watches whether a tracked value lies within its threshold
//! and reports `Met` once it has done so, without interruption, for the
//! configured time. The comparison with the threshold is the caller's; the
//! timing is decided here. Times are microseconds on a monotonic clock.

use vstd::prelude::*;

verus! {

/// What an exit condition reports after an update.
#[derive(Debug, Clone, Copy, PartialEq, Eq, Structural)]
pub enum ExitConditionState {
    /// Not yet satisfied.
    NotMet,
    /// Within the threshold for the whole timeout.
    Met,
    /// Timed out without being met.
    Timeout,
}

/// Microseconds from `since` to `now`, zero if `now` is not later.
pub open spec fn elapsed_us(since: u64, now: u64) -> int {
    if now > since {
        now - since
    } else {
        0
    }
}

/// What an exit condition is, to its callers.
pub struct ExitConditionView {
    /// Time the value must stay within the threshold, in milliseconds.
    pub timeout_ms: u64,
    /// Time of the first update since the last reset.
    pub start_time: Option<u64>,
    /// Time since which the value has stayed within the threshold.
    pub met_since: Option<u64>,
}

impl ExitConditionView {
    /// A condition that has seen no update.
    pub open spec fn fresh(timeout_ms: u64) -> Self {
        ExitConditionView { timeout_ms, start_time: None, met_since: None }
    }

    /// The condition after an update at `now`: the first update is
    /// remembered, entering the threshold starts the timer, staying inside
    /// keeps it, leaving clears it.
    pub open spec fn observe(self, within_threshold: bool, now: u64) -> Self {
        ExitConditionView {
            timeout_ms: self.timeout_ms,
            start_time: if self.start_time is None {
                Some(now)
            } else {
                self.start_time
            },
            met_since: if !within_threshold {
                None
            } else if self.met_since is None {
                Some(now)
            } else {
                self.met_since
            },
        }
    }

    /// The time since which a value found inside at `now` has been inside:
    /// the time the timer shows, or `now` itself if this reading starts it.
    pub open spec fn inside_since(self, now: u64) -> u64 {
        match self.met_since {
            Some(since) => since,
            None => now,
        }
    }

    /// What an update at `now` reports: `Met` when the value is inside and
    /// has been for the timeout or longer. The reading that enters the
    /// threshold counts, so a timeout of zero is met at once.
    pub open spec fn verdict(self, within_threshold: bool, now: u64) -> ExitConditionState {
        if within_threshold && elapsed_us(self.inside_since(now), now) >= self.timeout_ms * 1000 {
            ExitConditionState::Met
        } else {
            ExitConditionState::NotMet
        }
    }

    /// The condition after updates at the times `times`, in order, each
    /// with the value inside the threshold.
    pub open spec fn after_run_inside(self, times: Seq<u64>) -> Self
        decreases times.len(),
    {
        if times.len() == 0 {
            self
        } else {
            self.after_run_inside(times.drop_last()).observe(true, times.last())
        }
    }
}

/// One threshold with its timer.
#[derive(Debug, Clone, Copy)]
pub struct ExitCondition {
    timeout_ms: u64,
    start_time: Option<u64>,
    condition_met_start: Option<u64>,
}

impl View for ExitCondition {
    type V = ExitConditionView;

    closed spec fn view(&self) -> ExitConditionView {
        ExitConditionView {
            timeout_ms: self.timeout_ms,
            start_time: self.start_time,
            met_since: self.condition_met_start,
        }
    }
}

impl ExitCondition {
    /// A condition whose value must stay inside for `timeout_ms` milliseconds.
    pub fn new(timeout_ms: u64) -> (c: Self)
        ensures
            c@ == ExitConditionView::fresh(timeout_ms),
    {
        ExitCondition { timeout_ms, start_time: None, condition_met_start: None }
    }

    /// Takes one reading at time `now`; `within_threshold` says whether the
    /// magnitude of the tracked value is at most the threshold.
    pub fn update(&mut self, within_threshold: bool, now: u64) -> (state: ExitConditionState)
        ensures
            state == old(self)@.verdict(within_threshold, now),
            final(self)@ == old(self)@.observe(within_threshold, now),
    {
        if self.start_time.is_none() {
            self.start_time = Some(now);
        }
        if !within_threshold {
            self.condition_met_start = None;
            return ExitConditionState::NotMet;
        }
        let since: u64 = match self.condition_met_start {
            Some(since) => since,
            None => {
                self.condition_met_start = Some(now);
                now
            },
        };
        let elapsed: u64 = if now > since {
            now - since
        } else {
            0
        };
        // elapsed >= timeout_ms * 1000 without forming the product
        if elapsed / 1000 >= self.timeout_ms {
            ExitConditionState::Met
        } else {
            ExitConditionState::NotMet
        }
    }

    /// Forgets every reading. The timeout stays.
    pub fn reset(&mut self)
        ensures
            final(self)@ == ExitConditionView::fresh(old(self)@.timeout_ms),
    {
        self.start_time = None;
        self.condition_met_start = None;
    }

    /// The timeout in milliseconds.
    pub fn timeout(&self) -> (ms: u64)
        ensures
            ms == self@.timeout_ms,
    {
        self.timeout_ms
    }
}

/// Within-threshold readings of one control tick, one per condition.
#[derive(Debug, Clone, Copy, PartialEq, Eq, Structural)]
pub struct Readings {
    /// The error is within the small-error threshold.
    pub small_within: bool,
    /// The error is within the large-error threshold.
    pub large_within: bool,
    /// The velocity is within its threshold, if a velocity was measured.
    pub velocity_within: Option<bool>,
}

/// What a set of exit conditions is, to its callers.
pub struct ExitConditionsView {
    pub small_error: ExitConditionView,
    pub large_error: ExitConditionView,
    pub velocity: Option<ExitConditionView>,
}

impl ExitConditionsView {
    /// Whether the velocity condition takes part: it must exist and a
    /// velocity must have been measured.
    pub open spec fn velocity_active(self, readings: Readings) -> bool {
        self.velocity is Some && readings.velocity_within is Some
    }

    /// The set after one tick. Every condition that takes part is updated,
    /// whatever the others report.
    pub open spec fn observe(self, readings: Readings, now: u64) -> Self {
        ExitConditionsView {
            small_error: self.small_error.observe(readings.small_within, now),
            large_error: self.large_error.observe(readings.large_within, now),
            velocity: if self.velocity_active(readings) {
                Some(self.velocity->0.observe(readings.velocity_within->0, now))
            } else {
                self.velocity
            },
        }
    }

    /// Whether the motion ends at this tick: some condition is met.
    pub open spec fn exits(self, readings: Readings, now: u64) -> bool {
        ||| self.small_error.verdict(readings.small_within, now) == ExitConditionState::Met
        ||| self.large_error.verdict(readings.large_within, now) == ExitConditionState::Met
        ||| (self.velocity_active(readings) && self.velocity->0.verdict(
            readings.velocity_within->0,
            now,
        ) == ExitConditionState::Met)
    }

    /// The set with every condition reset.
    pub open spec fn cleared(self) -> Self {
        ExitConditionsView {
            small_error: ExitConditionView::fresh(self.small_error.timeout_ms),
            large_error: ExitConditionView::fresh(self.large_error.timeout_ms),
            velocity: match self.velocity {
                Some(v) => Some(ExitConditionView::fresh(v.timeout_ms)),
                None => None,
            },
        }
    }
}

/// The exit conditions of one motion: a small error held for long, a large
/// error held for a shorter while, and optionally a low velocity.
#[derive(Debug, Clone, Copy)]
pub struct ExitConditions {
    pub small_error: ExitCondition,
    pub large_error: ExitCondition,
    pub velocity: Option<ExitCondition>,
}

impl View for ExitConditions {
    type V = ExitConditionsView;

    open spec fn view(&self) -> ExitConditionsView {
        ExitConditionsView {
            small_error: self.small_error@,
            large_error: self.large_error@,
            velocity: match self.velocity {
                Some(v) => Some(v@),
                None => None,
            },
        }
    }
}

impl Default for ExitConditions {
    fn default() -> (c: Self)
        ensures
            c@ == (ExitConditionsView {
                small_error: ExitConditionView::fresh(100),
                large_error: ExitConditionView::fresh(500),
                velocity: None,
            }),
    {
        ExitConditions::new(100, 500)
    }
}

impl ExitConditions {
    /// Small-error and large-error conditions with their timeouts in milliseconds.
    pub fn new(small_timeout_ms: u64, large_timeout_ms: u64) -> (c: Self)
        ensures
            c@ == (ExitConditionsView {
                small_error: ExitConditionView::fresh(small_timeout_ms),
                large_error: ExitConditionView::fresh(large_timeout_ms),
                velocity: None,
            }),
    {
        ExitConditions {
            small_error: ExitCondition::new(small_timeout_ms),
            large_error: ExitCondition::new(large_timeout_ms),
            velocity: None,
        }
    }

    /// The same set with a fresh velocity condition, replacing any earlier one.
    pub fn with_velocity(self, timeout_ms: u64) -> (c: Self)
        ensures
            c@ == (ExitConditionsView {
                velocity: Some(ExitConditionView::fresh(timeout_ms)),
                ..self@
            }),
    {
        ExitConditions {
            small_error: self.small_error,
            large_error: self.large_error,
            velocity: Some(ExitCondition::new(timeout_ms)),
        }
    }

    /// Takes the readings of one tick at time `now` and says whether the
    /// motion should end.
    pub fn should_exit(&mut self, readings: Readings, now: u64) -> (exit: bool)
        ensures
            exit == old(self)@.exits(readings, now),
            final(self)@ == old(self)@.observe(readings, now),
    {
        let small_met = self.small_error.update(readings.small_within, now)
            == ExitConditionState::Met;
        let large_met = self.large_error.update(readings.large_within, now)
            == ExitConditionState::Met;
        let velocity_met = match (self.velocity, readings.velocity_within) {
            (Some(condition), Some(within)) => {
                let mut condition = condition;
                let state = condition.update(within, now);
                self.velocity = Some(condition);
                state == ExitConditionState::Met
            },
            _ => false,
        };
        small_met || large_met || velocity_met
    }

    /// Resets every condition.
    pub fn reset(&mut self)
        ensures
            final(self)@ == old(self)@.cleared(),
    {
        self.small_error.reset();
        self.large_error.reset();
        match self.velocity {
            Some(condition) => {
                let mut condition = condition;
                condition.reset();
                self.velocity = Some(condition);
            },
            None => {},
        }
    }
}

/// An update never reports `Timeout`, and reports `Met` only for a value
/// inside the threshold.
pub proof fn lemma_verdict_is_met_or_not(c: ExitConditionView, within_threshold: bool, now: u64)
    ensures
        c.verdict(within_threshold, now) != ExitConditionState::Timeout,
        c.verdict(within_threshold, now) == ExitConditionState::Met ==> within_threshold,
{
}

/// While the value stays inside, the timer keeps the time of entry: after a
/// run of inside readings that begins with the timer clear, the timer shows
/// the time of the run's first reading.
pub proof fn lemma_timer_keeps_entry_time(c: ExitConditionView, times: Seq<u64>)
    requires
        c.met_since is None,
        times.len() > 0,
    ensures
        c.after_run_inside(times).met_since == Some(times[0]),
        c.after_run_inside(times).timeout_ms == c.timeout_ms,
    decreases times.len(),
{
    if times.len() == 1 {
        assert(times.drop_last().len() == 0);
        assert(c.after_run_inside(times.drop_last()) == c);
    } else {
        lemma_timer_keeps_entry_time(c, times.drop_last());
        assert(times.drop_last()[0] == times[0]);
    }
}

/// Hysteresis. After a run of inside readings that entered the threshold at
/// `times[0]`, a further inside reading at `now` reports `Met` exactly when
/// the timeout has passed since entry: not before, and always from then on.
pub proof fn lemma_met_exactly_after_timeout(c: ExitConditionView, times: Seq<u64>, now: u64)
    requires
        c.met_since is None,
        times.len() > 0,
    ensures
        c.after_run_inside(times).verdict(true, now) == ExitConditionState::Met <==> elapsed_us(
            times[0],
            now,
        ) >= c.timeout_ms * 1000,
{
    lemma_timer_keeps_entry_time(c, times);
}

/// An excursion restarts the timer. Whatever came before, after a reading
/// outside the threshold the timer is clear, and a reading inside is judged
/// as by a condition that has seen nothing: it starts the timer at its own
/// time and, unless the timeout is zero, reports `NotMet`. The time spent
/// inside before the excursion does not count.
pub proof fn lemma_excursion_restarts_timer(
    c: ExitConditionView,
    within_before: bool,
    t_before: u64,
    t_outside: u64,
    t_back: u64,
)
    ensures
        ({
            let left = c.observe(within_before, t_before).observe(false, t_outside);
            &&& left.met_since is None
            &&& left.verdict(true, t_back) == ExitConditionView::fresh(c.timeout_ms).verdict(
                true,
                t_back,
            )
            &&& c.timeout_ms > 0 ==> left.verdict(true, t_back) == ExitConditionState::NotMet
            &&& left.observe(true, t_back).met_since == Some(t_back)
        }),
{
}

/// The reading that enters the threshold is met exactly when the timeout
/// is zero: no time has passed since entry, and only a timeout of zero
/// asks for none.
pub proof fn lemma_entering_is_met_only_for_zero_timeout(c: ExitConditionView, now: u64)
    requires
        c.met_since is None,
    ensures
        c.verdict(true, now) == ExitConditionState::Met <==> c.timeout_ms == 0,
{
}

/// The conditions are alternatives: the motion ends as soon as any one of
/// them is met, and does not end while none is.
pub proof fn lemma_any_condition_ends_motion(c: ExitConditionsView, readings: Readings, now: u64)
    ensures
        c.small_error.verdict(readings.small_within, now) == ExitConditionState::Met ==> c.exits(
            readings,
            now,
        ),
        c.large_error.verdict(readings.large_within, now) == ExitConditionState::Met ==> c.exits(
            readings,
            now,
        ),
        !readings.small_within && !readings.large_within && readings.velocity_within != Some(true)
            ==> !c.exits(readings, now),
{
}

} // verus!
