//! The battery debounce filter.
//!
//! Operating-system Bluetooth stacks frequently report spurious one-or-two
//! point battery fluctuations. The filter suppresses that flicker: a new
//! reading is committed only once it has stayed unchanged for a stability
//! window, with a forced-update fallback so a real, sustained change is
//! never delayed indefinitely by a still-fluctuating reading.
//!
//! Times are plain `u64` ticks from a monotonic clock; the caller chooses
//! the unit, and the default policy constants are in seconds.

use vstd::prelude::*;

verus! {

/// Default stability window: a changed reading must stay unchanged this
/// long before it is committed.
pub const BATTERY_STABILITY_DURATION: u64 = 15;

/// Default forced-update interval: once this much time has passed since the
/// last commit, a changed reading is committed even if still fluctuating.
pub const MINIMUM_UPDATE_INTERVAL: u64 = 20;

/// The filter's policy constants. Both are durations in clock ticks.
#[derive(Clone, Copy, Debug, PartialEq, Eq)]
pub struct DebounceConfig {
    pub stability_window: u64,
    pub forced_update_interval: u64,
}

impl Default for DebounceConfig {
    /// The default policy: a 15-tick stability window and a 20-tick
    /// forced-update interval.
    fn default() -> (r: Self)
        ensures
            r.stability_window == BATTERY_STABILITY_DURATION,
            r.forced_update_interval == MINIMUM_UPDATE_INTERVAL,
    {
        DebounceConfig {
            stability_window: BATTERY_STABILITY_DURATION,
            forced_update_interval: MINIMUM_UPDATE_INTERVAL,
        }
    }
}

/// The filter's decision for one reading: commit this value to the
/// registry, or hold it back.
#[derive(Clone, Copy, Debug, PartialEq, Eq)]
pub enum Decision {
    Commit(u8),
    Hold,
}

/// Per-address debounce state for the battery channel: the last committed
/// value and when it was committed, plus the candidate value currently
/// waiting out the stability window (and when it was first seen).
#[derive(Clone, Copy, Debug, PartialEq, Eq)]
pub struct DebounceState {
    pub last_committed_value: u8,
    pub last_committed_at: u64,
    pub pending: Option<(u8, u64)>,
}

/// The state right after committing `value` at time `now`.
pub open spec fn committed(value: u8, now: u64) -> DebounceState {
    DebounceState { last_committed_value: value, last_committed_at: now, pending: None }
}

/// Whether `value` matches the pending candidate and has been pending for
/// at least the stability window.
pub open spec fn is_stable(s: DebounceState, value: u8, now: u64, cfg: DebounceConfig) -> bool {
    match s.pending {
        Some(pv) => pv.0 == value && now - pv.1 >= cfg.stability_window,
        None => false,
    }
}

/// The state after noting `value` as the pending candidate: an already
/// matching candidate keeps its clock, anything else restarts it at `now`
/// (a renewed fluctuation resets confidence).
pub open spec fn refreshed_pending(s: DebounceState, value: u8, now: u64) -> DebounceState {
    match s.pending {
        Some(pv) => if pv.0 == value {
            s
        } else {
            DebounceState { pending: Some((value, now)), ..s }
        },
        None => DebounceState { pending: Some((value, now)), ..s },
    }
}

/// The filter's transition function, the model that `DebounceState::evaluate`
/// implements. Given the state, a new reading and the current time, it
/// yields the next state and the decision:
/// - a reading equal to the last committed value clears the pending
///   candidate and holds;
/// - a changed reading that has matched the pending candidate for at least
///   the stability window commits;
/// - otherwise, a changed reading commits anyway once the forced-update
///   interval has elapsed since the last commit;
/// - otherwise it becomes (or remains) the pending candidate and holds.
pub open spec fn spec_evaluate(s: DebounceState, value: u8, now: u64, cfg: DebounceConfig) -> (
    DebounceState,
    Decision,
) {
    if value == s.last_committed_value {
        (DebounceState { pending: None, ..s }, Decision::Hold)
    } else if is_stable(s, value, now, cfg) {
        (committed(value, now), Decision::Commit(value))
    } else if now - s.last_committed_at >= cfg.forced_update_interval {
        (committed(value, now), Decision::Commit(value))
    } else {
        (refreshed_pending(s, value, now), Decision::Hold)
    }
}

impl DebounceState {
    /// The state's timestamps do not lie in the future of `now`. The clock
    /// is monotonic, so this is preserved from one reading to the next.
    pub open spec fn time_ok(&self, now: u64) -> bool {
        &&& self.last_committed_at <= now
        &&& match self.pending {
            Some(pv) => pv.1 <= now,
            None => true,
        }
    }

    /// The state for an address whose first reading `value` was just
    /// committed at time `now`.
    pub fn fresh(value: u8, now: u64) -> (r: Self)
        ensures
            r == committed(value, now),
    {
        DebounceState { last_committed_value: value, last_committed_at: now, pending: None }
    }

    /// Feed one battery reading through the filter, updating the state and
    /// returning the decision exactly as `spec_evaluate` describes.
    pub fn evaluate(&mut self, value: u8, now: u64, cfg: &DebounceConfig) -> (d: Decision)
        requires
            old(self).time_ok(now),
        ensures
            *final(self) == spec_evaluate(*old(self), value, now, *cfg).0,
            d == spec_evaluate(*old(self), value, now, *cfg).1,
            final(self).time_ok(now),
    {
        if value == self.last_committed_value {
            self.pending = None;
            return Decision::Hold;
        }

        let stable = match self.pending {
            Some((p, first_seen)) => p == value && now - first_seen >= cfg.stability_window,
            None => false,
        };
        if stable {
            self.last_committed_value = value;
            self.last_committed_at = now;
            self.pending = None;
            return Decision::Commit(value);
        }

        let candidate_matches = match self.pending {
            Some((p, _)) => p == value,
            None => false,
        };
        if !candidate_matches {
            self.pending = Some((value, now));
        }

        if now - self.last_committed_at >= cfg.forced_update_interval {
            self.last_committed_value = value;
            self.last_committed_at = now;
            self.pending = None;
            return Decision::Commit(value);
        }

        Decision::Hold
    }
}

/// How many of the `readings` (pairs of value and time) the filter commits
/// when they are fed through `spec_evaluate` in order, starting from `s`.
pub open spec fn commit_count(s: DebounceState, readings: Seq<(u8, u64)>, cfg: DebounceConfig) -> nat
    decreases readings.len(),
{
    if readings.len() == 0 {
        0
    } else {
        let step = spec_evaluate(s, readings[0].0, readings[0].1, cfg);
        (match step.1 {
            Decision::Commit(_) => 1nat,
            Decision::Hold => 0nat,
        }) + commit_count(step.0, readings.drop_first(), cfg)
    }
}

/// Once `value` is the last committed value, further readings of `value`
/// are never committed again.
proof fn lemma_committed_value_never_recommitted(
    s: DebounceState,
    readings: Seq<(u8, u64)>,
    value: u8,
    cfg: DebounceConfig,
)
    requires
        s.last_committed_value == value,
        forall|i: int| 0 <= i < readings.len() ==> (#[trigger] readings[i]).0 == value,
    ensures
        commit_count(s, readings, cfg) == 0,
    decreases readings.len(),
{
    if readings.len() > 0 {
        let step = spec_evaluate(s, readings[0].0, readings[0].1, cfg);
        assert(step.0.last_committed_value == value);
        lemma_committed_value_never_recommitted(step.0, readings.drop_first(), value, cfg);
    }
}

/// Law (idempotence): a stream of identical battery readings produces at
/// most one commit, whatever the initial state, the reading times and the
/// policy constants. Once the value has been committed it is never
/// committed again.
pub proof fn lemma_identical_readings_commit_at_most_once(
    s: DebounceState,
    readings: Seq<(u8, u64)>,
    value: u8,
    cfg: DebounceConfig,
)
    requires
        forall|i: int| 0 <= i < readings.len() ==> (#[trigger] readings[i]).0 == value,
    ensures
        commit_count(s, readings, cfg) <= 1,
    decreases readings.len(),
{
    if readings.len() > 0 {
        let step = spec_evaluate(s, readings[0].0, readings[0].1, cfg);
        let rest = readings.drop_first();
        assert(forall|i: int| 0 <= i < rest.len() ==> (#[trigger] rest[i]).0 == value);
        match step.1 {
            Decision::Commit(_) => {
                assert(step.0.last_committed_value == value);
                lemma_committed_value_never_recommitted(step.0, rest, value, cfg);
            },
            Decision::Hold => {
                if value == s.last_committed_value {
                    lemma_committed_value_never_recommitted(step.0, rest, value, cfg);
                } else {
                    lemma_identical_readings_commit_at_most_once(step.0, rest, value, cfg);
                }
            },
        }
    }
}

/// Law (what a commit takes): a reading is committed only when it differs
/// from the last committed value and either has matched the pending
/// candidate for the whole stability window or arrives once the
/// forced-update interval has elapsed since the last commit.
pub proof fn lemma_commit_requires_stability_or_forced(
    s: DebounceState,
    value: u8,
    now: u64,
    cfg: DebounceConfig,
)
    ensures
        (spec_evaluate(s, value, now, cfg).1 matches Decision::Commit(_)) ==> value
            != s.last_committed_value && (is_stable(s, value, now, cfg) || now
            - s.last_committed_at >= cfg.forced_update_interval),
{
}

/// Law (no premature commit): readings that keep fluctuating — every value
/// differs from the last committed value, from the current pending
/// candidate and from its predecessor — are never committed as long as each
/// arrives before the forced-update interval has elapsed since the last
/// commit. A commit therefore requires either a value that repeats for the
/// whole stability window or the forced-update interval to elapse.
pub proof fn lemma_fluctuating_readings_never_commit(
    s: DebounceState,
    readings: Seq<(u8, u64)>,
    cfg: DebounceConfig,
)
    requires
        forall|i: int| 0 <= i < readings.len() ==> (#[trigger] readings[i]).0
            != s.last_committed_value,
        forall|i: int| 0 <= i < readings.len() - 1 ==> readings[i + 1].0 != (
        #[trigger] readings[i]).0,
        readings.len() > 0 ==> match s.pending {
            Some(pv) => pv.0 != readings[0].0,
            None => true,
        },
        forall|i: int| 0 <= i < readings.len() ==> (#[trigger] readings[i]).1
            - s.last_committed_at < cfg.forced_update_interval,
    ensures
        commit_count(s, readings, cfg) == 0,
    decreases readings.len(),
{
    if readings.len() > 0 {
        let step = spec_evaluate(s, readings[0].0, readings[0].1, cfg);
        let rest = readings.drop_first();
        assert(!is_stable(s, readings[0].0, readings[0].1, cfg));
        assert(step.1 == Decision::Hold);
        assert(step.0.last_committed_value == s.last_committed_value);
        assert(step.0.last_committed_at == s.last_committed_at);
        assert(step.0.pending == Some((readings[0].0, readings[0].1)));
        assert(forall|i: int| 0 <= i < rest.len() ==> #[trigger] rest[i] == readings[i + 1]);
        lemma_fluctuating_readings_never_commit(step.0, rest, cfg);
    }
}

} // verus!
