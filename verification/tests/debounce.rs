use bluegauge::debounce::{DebounceConfig, DebounceState, Decision};

fn default_cfg() -> DebounceConfig {
    DebounceConfig { stability_window: 15, forced_update_interval: 20 }
}

#[test]
fn reading_equal_to_committed_value_holds_and_clears_pending() {
    let cfg = default_cfg();
    let mut state = DebounceState::fresh(50, 0);
    assert_eq!(state.evaluate(41, 1, &cfg), Decision::Hold);
    assert_eq!(state.pending, Some((41, 1)));
    assert_eq!(state.evaluate(50, 2, &cfg), Decision::Hold);
    assert_eq!(state.pending, None);
    assert_eq!(state.last_committed_value, 50);
}

#[test]
fn stable_changed_value_commits_once_the_window_elapsed() {
    let cfg = default_cfg();
    let mut state = DebounceState::fresh(50, 0);
    assert_eq!(state.evaluate(40, 1, &cfg), Decision::Hold);
    assert_eq!(state.evaluate(40, 10, &cfg), Decision::Hold);
    assert_eq!(state.evaluate(40, 16, &cfg), Decision::Commit(40));
    assert_eq!(state.last_committed_value, 40);
    assert_eq!(state.last_committed_at, 16);
    assert_eq!(state.pending, None);
}

#[test]
fn identical_readings_commit_at_most_once() {
    let cfg = default_cfg();
    let mut state = DebounceState::fresh(50, 0);
    let mut commits = 0;
    for t in [1u64, 17, 18, 19] {
        if let Decision::Commit(v) = state.evaluate(40, t, &cfg) {
            assert_eq!(v, 40);
            commits += 1;
        }
    }
    assert_eq!(commits, 1);
}

#[test]
fn fluctuating_readings_hold_until_the_forced_interval() {
    let cfg = default_cfg();
    let mut state = DebounceState::fresh(50, 0);
    assert_eq!(state.evaluate(41, 1, &cfg), Decision::Hold);
    assert_eq!(state.evaluate(42, 3, &cfg), Decision::Hold);
    assert_eq!(state.evaluate(43, 5, &cfg), Decision::Hold);
    assert_eq!(state.evaluate(44, 7, &cfg), Decision::Hold);
    // the forced-update fallback: 21 ticks since the last commit
    assert_eq!(state.evaluate(45, 21, &cfg), Decision::Commit(45));
}

#[test]
fn renewed_fluctuation_restarts_the_stability_clock() {
    let cfg = default_cfg();
    let mut state = DebounceState::fresh(50, 0);
    assert_eq!(state.evaluate(40, 1, &cfg), Decision::Hold);
    assert_eq!(state.evaluate(39, 5, &cfg), Decision::Hold);
    assert_eq!(state.pending, Some((39, 5)));
    // 15 ticks after the first sighting of 40, but only 12 after 39 took
    // its place: still pending
    assert_eq!(state.evaluate(39, 17, &cfg), Decision::Hold);
}

#[test]
fn scenario_flicker_between_42_and_41() {
    // readings 42, 41, 42, 42, 42, five ticks apart, with a 15-tick
    // stability window; the forced-update fallback is kept out of the way
    let cfg = DebounceConfig { stability_window: 15, forced_update_interval: 1000 };
    let mut state = DebounceState::fresh(100, 0);
    assert_eq!(state.evaluate(42, 0, &cfg), Decision::Hold);
    assert_eq!(state.evaluate(41, 5, &cfg), Decision::Hold);
    // 42 again: the stability clock restarts here
    assert_eq!(state.evaluate(42, 10, &cfg), Decision::Hold);
    assert_eq!(state.pending, Some((42, 10)));
    assert_eq!(state.evaluate(42, 15, &cfg), Decision::Hold);
    assert_eq!(state.evaluate(42, 20, &cfg), Decision::Hold);
    // still pending after the third consecutive 42; committed once the
    // pending value is 15 ticks old
    assert_eq!(state.pending, Some((42, 10)));
    assert_eq!(state.evaluate(42, 25, &cfg), Decision::Commit(42));
}

#[test]
fn forced_commit_reports_the_latest_value() {
    let cfg = default_cfg();
    let mut state = DebounceState::fresh(50, 0);
    assert_eq!(state.evaluate(41, 19, &cfg), Decision::Hold);
    // a different value arrives after the forced interval: it replaces the
    // pending candidate and is committed at once
    assert_eq!(state.evaluate(42, 20, &cfg), Decision::Commit(42));
    assert_eq!(state.last_committed_value, 42);
}

#[test]
fn default_policy_constants() {
    let cfg = DebounceConfig::default();
    assert_eq!(cfg.stability_window, 15);
    assert_eq!(cfg.forced_update_interval, 20);
}
