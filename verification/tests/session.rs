use air_combat::session::StageState;

#[test]
fn fresh_session_starts_at_stage_one_without_kills() {
    let state = StageState::new();
    assert_eq!(state.current_stage(), 1);
    assert_eq!(state.kills(), 0);
    assert_eq!(state, StageState { current_stage: 1, kills: 0 });
}

#[test]
fn advance_stage_adds_exactly_one() {
    let mut state = StageState::new();
    state.advance_stage();
    assert_eq!(state.current_stage(), 2);
    assert_eq!(state.kills(), 0);
    state.advance_stage();
    assert_eq!(state.current_stage(), 3);
}

#[test]
fn advance_stage_never_decreases_the_stage() {
    let mut state = StageState { current_stage: 41, kills: 7 };
    for _ in 0..5 {
        let before = state.current_stage();
        state.advance_stage();
        assert!(state.current_stage() > before);
        assert_eq!(state.current_stage(), before + 1);
    }
    assert_eq!(state, StageState { current_stage: 46, kills: 7 });
}

#[test]
fn advance_stage_reaches_the_largest_stage() {
    let mut state = StageState { current_stage: u32::MAX - 1, kills: 0 };
    state.advance_stage();
    assert_eq!(state.current_stage(), u32::MAX);
}

#[test]
fn record_kill_counts_one_and_keeps_the_stage() {
    let mut state = StageState { current_stage: 3, kills: 9 };
    state.record_kill();
    assert_eq!(state, StageState { current_stage: 3, kills: 10 });
    state.record_kill();
    assert_eq!(state.kills(), 11);
    assert_eq!(state.current_stage(), 3);
}
