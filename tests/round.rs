use janitor_sim::round::{
    attacker_handles, check_round_end, cleanup_interlude, cleanup_round, defender_handle,
    on_interlude, on_interlude_end, on_interlude_start, on_round, on_round_end, on_round_start,
    remaining_secs, run_interlude, setup_interlude, start_round, FrameCount, RoundData,
    RoundEndOutcome, RoundState, INTERLUDE_LENGTH, NUM_ROUNDS, ROUND_LENGTH,
};

#[test]
fn interlude_lasts_its_length() {
    let mut state = RoundState::default();
    assert_eq!(state, RoundState::InterludeStart);
    let mut fc = FrameCount::default();
    setup_interlude(&mut state);
    assert_eq!(state, RoundState::Interlude);
    for _ in 1..INTERLUDE_LENGTH {
        run_interlude(&mut fc, &mut state);
        assert_eq!(state, RoundState::Interlude);
    }
    run_interlude(&mut fc, &mut state);
    assert_eq!(state, RoundState::InterludeEnd);
    assert_eq!(fc.frame, INTERLUDE_LENGTH);
    cleanup_interlude(&mut fc, &mut state);
    assert_eq!((state, fc.frame), (RoundState::RoundStart, 0));
    start_round(&mut fc, &mut state);
    assert_eq!((state, fc.frame), (RoundState::Round, 0));
}

#[test]
fn round_ends_after_its_length() {
    let mut state = RoundState::Round;
    let mut fc = FrameCount { frame: ROUND_LENGTH - 2 };
    check_round_end(&mut fc, &mut state);
    assert_eq!(state, RoundState::Round);
    check_round_end(&mut fc, &mut state);
    assert_eq!(state, RoundState::RoundEnd);
}

#[test]
fn round_end_counts_rounds() {
    let mut state = RoundState::RoundEnd;
    let mut fc = FrameCount { frame: 17 };
    let mut data = RoundData::default();
    assert_eq!(cleanup_round(&mut fc, &mut state, &mut data), RoundEndOutcome::NextRound);
    assert_eq!((data.cur_round, fc.frame, state), (1, 0, RoundState::InterludeStart));
    state = RoundState::RoundEnd;
    assert_eq!(cleanup_round(&mut fc, &mut state, &mut data), RoundEndOutcome::MatchOver);
    assert_eq!((data.cur_round, state), (NUM_ROUNDS, RoundState::RoundEnd));
}

#[test]
fn run_criteria() {
    assert!(on_interlude_start(RoundState::InterludeStart));
    assert!(on_interlude(RoundState::Interlude));
    assert!(on_interlude_end(RoundState::InterludeEnd));
    assert!(on_round_start(RoundState::RoundStart));
    assert!(on_round(RoundState::Round));
    assert!(on_round_end(RoundState::RoundEnd));
    assert!(!on_round(RoundState::RoundEnd));
    assert!(!on_interlude(RoundState::Round));
}

#[test]
fn roles_rotate() {
    assert_eq!(defender_handle(0), 0);
    assert_eq!(attacker_handles(0), vec![1]);
    assert_eq!(defender_handle(1), 1);
    assert_eq!(attacker_handles(1), vec![0]);
}

#[test]
fn screen_timer() {
    assert_eq!(remaining_secs(0), 100);
    assert_eq!(remaining_secs(59), 99);
    assert_eq!(remaining_secs(ROUND_LENGTH), 0);
}

#[test]
fn winner_has_fewest_splats() {
    let mut data = RoundData::default();
    assert_eq!(data.winner(), None);
    data.results = vec![(0, 4), (1, 2), (2, 2), (3, 7)];
    assert_eq!(data.winner(), Some(1));
}

#[test]
fn summary_text() {
    let data = RoundData { cur_round: 2, results: vec![(0, 3), (1, 1)] };
    assert_eq!(
        data.to_string(),
        "Janitor 1: 3 splats left\nJanitor 2: 1 splats left\n\nJanitor 2 wins!"
    );
    let data = RoundData { cur_round: 1, results: vec![(9, 10)] };
    assert_eq!(data.to_string(), "Janitor 10: 10 splats left\n\nJanitor 10 wins!");
}
