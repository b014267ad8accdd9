use backlight_dimmer::dimmer::{
    decay_step, DimState, Phase, DEFAULT_LEVEL, DIM_STEP_INTERVAL_MS, IDLE_PARK_TIMEOUT_MS,
    MAX_LEVEL,
};
use backlight_dimmer::signal::ActivitySignal;

fn dimming_at(level: u8, requested: u8) -> DimState {
    DimState {
        current_level: level,
        requested_level: requested,
        is_active: false,
        is_dimming: true,
        ignore_next_count: 0,
    }
}

#[test]
fn decay_step_takes_two_from_ten_upwards_and_one_below() {
    for level in 1..=50u8 {
        let expected = if level >= 10 { level - 2 } else { level - 1 };
        assert_eq!(decay_step(level), expected);
    }
    assert_eq!(decay_step(50), 48);
    assert_eq!(decay_step(11), 9);
    assert_eq!(decay_step(10), 8);
    assert_eq!(decay_step(9), 8);
    assert_eq!(decay_step(1), 0);
}

#[test]
fn decay_step_stops_at_zero() {
    assert_eq!(decay_step(0), 0);
    assert_eq!(decay_step(decay_step(1)), 0);
}

#[test]
fn decay_step_covers_the_whole_byte_range() {
    assert_eq!(decay_step(255), 253);
    assert_eq!(decay_step(51), 49);
    for level in 0..=255u8 {
        assert!(decay_step(level) <= level);
    }
}

#[test]
fn repeated_decay_never_rises_and_reaches_zero() {
    for start in 0..=255u8 {
        let mut level = start;
        let mut steps = 0u32;
        while level != 0 {
            let next = decay_step(level);
            assert!(next < level);
            level = next;
            steps += 1;
        }
        assert!(steps <= start as u32);
        assert_eq!(decay_step(level), 0);
    }
}

#[test]
fn start_takes_the_level_read_at_startup() {
    let (state, write) = DimState::start(Some(37));
    assert_eq!(write, 37);
    assert_eq!(
        state,
        DimState {
            current_level: 37,
            requested_level: 37,
            is_active: true,
            is_dimming: false,
            ignore_next_count: 0,
        }
    );
    assert_eq!(state.phase(), Phase::Active);
}

#[test]
fn start_falls_back_to_the_default_level() {
    let (state, write) = DimState::start(None);
    assert_eq!(DEFAULT_LEVEL, 50);
    assert_eq!(write, 50);
    assert_eq!(state.current_level, 50);
    assert_eq!(state.requested_level, 50);
    assert_eq!(state.phase(), Phase::Active);
}

#[test]
fn timeout_depends_on_the_phase() {
    let (active, _) = DimState::start(Some(50));
    assert_eq!(active.timeout_millis(5000), 5000);
    assert_eq!(active.timeout_millis(250), 250);

    let dimming = dimming_at(30, 50);
    assert_eq!(DIM_STEP_INTERVAL_MS, 100);
    assert_eq!(dimming.timeout_millis(5000), 100);

    let idle = DimState { is_dimming: false, current_level: 0, ..dimming };
    assert_eq!(IDLE_PARK_TIMEOUT_MS, 3_600_000);
    assert_eq!(idle.phase(), Phase::Idle);
    assert_eq!(idle.timeout_millis(5000), 3_600_000);
}

#[test]
fn level_read_is_due_only_outside_of_dimming() {
    let (active, _) = DimState::start(Some(50));
    assert!(active.needs_level_read());
    assert!(!dimming_at(30, 50).needs_level_read());
    let idle = DimState { is_dimming: false, current_level: 0, ..dimming_at(0, 50) };
    assert!(idle.needs_level_read());
}

#[test]
fn key_activity_restores_the_requested_level_at_once() {
    let mut state = dimming_at(12, 40);
    let write = state.on_signal(ActivitySignal::KeyActivity, true);
    assert_eq!(write, Some(40));
    assert!(state.is_active);
    assert!(!state.is_dimming);
    assert_eq!(state.current_level, 40);
    assert_eq!(state.requested_level, 40);
    assert_eq!(state.phase(), Phase::Active);
}

#[test]
fn key_activity_writes_nothing_when_the_level_is_right() {
    let (mut state, _) = DimState::start(Some(40));
    let before = state;
    assert_eq!(state.on_signal(ActivitySignal::KeyActivity, false), None);
    assert_eq!(state, before);
}

#[test]
fn key_activity_wakes_an_idle_machine() {
    let mut state = DimState { is_dimming: false, ..dimming_at(0, 25) };
    assert_eq!(state.phase(), Phase::Idle);
    assert_eq!(state.on_signal(ActivitySignal::KeyActivity, true), Some(25));
    assert_eq!(state.phase(), Phase::Active);
    assert_eq!(state.current_level, 25);
}

#[test]
fn lock_combo_dims_without_waiting() {
    let (mut state, _) = DimState::start(Some(50));
    let write = state.on_signal(ActivitySignal::LockCombo, true);
    assert_eq!(write, None);
    assert_eq!(state.ignore_next_count, 1);
    assert!(state.is_dimming);
    assert_eq!(state.phase(), Phase::Dimming);
    assert_eq!(state.current_level, 50);
    assert_eq!(state.requested_level, 50);
    assert_eq!(state.timeout_millis(5000), 100);
    assert!(!state.needs_level_read());
}

#[test]
fn lock_combo_counts_as_activity_when_the_feature_is_off() {
    let mut state = dimming_at(20, 50);
    let write = state.on_signal(ActivitySignal::LockCombo, false);
    assert_eq!(write, Some(50));
    assert_eq!(state.ignore_next_count, 0);
    assert_eq!(state.phase(), Phase::Active);
}

#[test]
fn pending_swallow_absorbs_exactly_one_signal() {
    let mut state = DimState { ignore_next_count: 1, ..dimming_at(44, 50) };
    let before = state;
    assert_eq!(state.on_signal(ActivitySignal::KeyActivity, true), None);
    assert_eq!(state, DimState { ignore_next_count: 0, ..before });

    assert_eq!(state.on_signal(ActivitySignal::KeyActivity, true), Some(50));
    assert_eq!(state.phase(), Phase::Active);
}

#[test]
fn pending_swallow_absorbs_a_lock_combo_too() {
    let mut state = DimState { ignore_next_count: 1, ..dimming_at(44, 50) };
    assert_eq!(state.on_signal(ActivitySignal::LockCombo, true), None);
    assert_eq!(state, dimming_at(44, 50));
}

#[test]
fn first_timeout_rereads_the_level_and_starts_dimming() {
    let (mut state, _) = DimState::start(Some(50));
    let write = state.on_timeout(Some(30));
    assert_eq!(write, Some(28));
    assert_eq!(state, dimming_at(28, 30));
}

#[test]
fn failed_reread_keeps_the_current_level() {
    let (mut state, _) = DimState::start(Some(40));
    state.requested_level = 45;
    let write = state.on_timeout(None);
    assert_eq!(write, Some(38));
    assert_eq!(state, dimming_at(38, 40));
}

#[test]
fn reading_is_not_looked_at_while_dimming() {
    let mut state = dimming_at(20, 50);
    let write = state.on_timeout(Some(7));
    assert_eq!(write, Some(18));
    assert_eq!(state, dimming_at(18, 50));
}

#[test]
fn reread_of_zero_parks_the_machine() {
    let (mut state, _) = DimState::start(Some(50));
    let write = state.on_timeout(Some(0));
    assert_eq!(write, None);
    assert_eq!(state.phase(), Phase::Idle);
    assert_eq!(state.current_level, 0);
    assert_eq!(state.requested_level, 0);
}

#[test]
fn timeouts_at_zero_write_nothing() {
    let mut state = DimState { is_dimming: false, ..dimming_at(0, 0) };
    for _ in 0..5 {
        assert_eq!(state.on_timeout(Some(0)), None);
        assert_eq!(state.on_timeout(None), None);
        assert_eq!(state.phase(), Phase::Idle);
        assert_eq!(state.current_level, 0);
    }
}

#[test]
fn dimming_at_zero_stays_quiet() {
    let mut state = DimState { current_level: 0, requested_level: 0, ..DimState::start(Some(0)).0 };
    assert_eq!(state.on_signal(ActivitySignal::LockCombo, true), None);
    assert!(state.is_dimming);
    assert_eq!(state.on_timeout(None), None);
    assert_eq!(state.current_level, 0);
    assert!(state.is_dimming);
}

#[test]
fn levels_above_the_maximum_are_not_written() {
    assert_eq!(MAX_LEVEL, 50);
    let (mut state, _) = DimState::start(Some(50));
    assert_eq!(state.on_timeout(Some(54)), None);
    assert_eq!(state.current_level, 52);
    assert!(state.is_dimming);
    assert_eq!(state.on_timeout(None), Some(50));
    assert_eq!(state.on_timeout(None), Some(48));

    let (mut state, _) = DimState::start(Some(50));
    assert_eq!(state.on_timeout(Some(200)), None);
    assert_eq!(state.current_level, 198);
}

#[test]
fn last_decay_step_ends_dimming() {
    let mut state = dimming_at(1, 50);
    assert_eq!(state.on_timeout(None), Some(0));
    assert_eq!(state.phase(), Phase::Idle);
    assert_eq!(state.current_level, 0);
    assert_eq!(state.requested_level, 50);
    assert_eq!(state.timeout_millis(5000), 3_600_000);
}

#[test]
fn startup_at_fifty_ramps_down_to_idle() {
    let (mut state, write) = DimState::start(Some(50));
    assert_eq!(write, 50);
    assert_eq!(state.phase(), Phase::Active);
    assert_eq!(state.timeout_millis(5000), 5000);

    assert!(state.needs_level_read());
    let mut written = Vec::new();
    let mut write = state.on_timeout(Some(50));
    assert_eq!(state.phase(), Phase::Dimming);
    loop {
        written.push(write.unwrap());
        if state.phase() != Phase::Dimming {
            break;
        }
        assert_eq!(state.timeout_millis(5000), 100);
        assert!(!state.needs_level_read());
        write = state.on_timeout(None);
    }

    let mut expected: Vec<u8> = (4..=24u8).rev().map(|half| half * 2).collect();
    expected.extend((0..=7u8).rev());
    assert_eq!(written, expected);
    assert_eq!(written.len(), 29);
    assert_eq!(written[0], 48);
    assert_eq!(written[1], 46);
    assert_eq!(written[20], 8);
    assert_eq!(written[21], 7);
    assert_eq!(written[28], 0);
    assert_eq!(state.phase(), Phase::Idle);
    assert_eq!(state.requested_level, 50);
    assert_eq!(state.timeout_millis(5000), 3_600_000);
}

#[test]
fn handlers_keep_the_state_well_formed() {
    let (mut state, _) = DimState::start(None);
    let signals = [ActivitySignal::KeyActivity, ActivitySignal::LockCombo];
    for round in 0..200u32 {
        match round % 7 {
            0 | 3 => {
                state.on_timeout(if round % 2 == 0 { Some((round % 60) as u8) } else { None });
            }
            n => {
                state.on_signal(signals[(n % 2) as usize], round % 3 != 0);
            }
        }
        assert!(!(state.is_active && state.is_dimming));
        assert!(state.ignore_next_count <= 1);
    }
}
