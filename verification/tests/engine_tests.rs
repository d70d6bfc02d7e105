use unleashed_autosplitter::engine::{
    game_time, is_loading, reset, split, start, tick_commands, update_loop, Settings, TimerCommand,
    TimerState, Watchers,
};
use unleashed_autosplitter::layout;
use unleashed_autosplitter::watcher::Watcher;

fn lrt() -> Settings {
    Settings { igt: false }
}

fn igt() -> Settings {
    Settings { igt: true }
}

#[test]
fn watcher_shifts_previous_and_current() {
    let mut w: Watcher<u32> = Watcher::new();
    assert_eq!(w.current(), None);
    assert_eq!(w.previous(), None);
    w.update_infallible(1);
    assert_eq!(w.current(), Some(1));
    assert_eq!(w.previous(), None);
    w.update_infallible(2);
    w.update_infallible(3);
    assert_eq!(w.previous(), Some(2));
    assert_eq!(w.current(), Some(3));
}

#[test]
fn stage_zero_forces_zero_clock() {
    let mut w = Watchers::new();
    update_loop(&mut w, Some(0), Some(0), Some(0), Some(12345));
    assert_eq!(w.igt.current(), Some(0));
    assert_eq!(w.igt_buffer, 0);
}

#[test]
fn failed_reads_default_to_not_loading_and_zero_clock() {
    let mut w = Watchers::new();
    update_loop(&mut w, None, None, None, None);
    assert_eq!(w.is_loading.current(), Some(false));
    assert_eq!(w.igt.current(), Some(0));
}

#[test]
fn clock_regression_absorbs_previous_value_into_buffer() {
    let mut w = Watchers::new();
    update_loop(&mut w, Some(0), Some(0), Some(1), Some(500));
    assert_eq!(w.igt.current(), Some(500));
    assert_eq!(w.igt_buffer, 0);
    update_loop(&mut w, Some(0), Some(0), Some(1), Some(300));
    // The regression tick stores the pre-regression value, then installs the
    // new raw value; reported game time now carries the buffer on top.
    assert!(w.igt_buffer >= 500);
    assert_eq!(w.igt_buffer, 500);
    assert_eq!(w.igt.current(), Some(300));
    assert_eq!(game_time(&w, &igt()), Some(800));
}

#[test]
fn equal_or_growing_clock_leaves_buffer_alone() {
    let mut w = Watchers::new();
    update_loop(&mut w, Some(0), Some(0), Some(1), Some(300));
    update_loop(&mut w, Some(0), Some(0), Some(1), Some(300));
    update_loop(&mut w, Some(0), Some(0), Some(1), Some(900));
    assert_eq!(w.igt_buffer, 0);
    assert_eq!(w.igt.current(), Some(900));
}

#[test]
fn loading_flag_truth_table() {
    let cases: Vec<(Option<u8>, Option<u32>, bool)> = vec![
        (Some(1), Some(0), true),   // stuck byte nonzero alone
        (Some(1), Some(2), true),   // stuck wins over the sentinel
        (Some(0), Some(1), true),   // loading-state nonzero, not the sentinel
        (Some(0), Some(7), true),
        (Some(0), Some(2), false),  // sentinel 2 is a benign special state
        (Some(0), Some(0), false),
        (None, Some(1), true),      // failed stuck read counts as false
        (Some(0), None, false),     // failed state read counts as 0
        (None, None, false),
    ];
    for (stuck, state, expected) in cases {
        let mut w = Watchers::new();
        update_loop(&mut w, state, stuck, Some(0), None);
        assert_eq!(w.is_loading.current(), Some(expected), "stuck {stuck:?} state {state:?}");
    }
}

#[test]
fn is_loading_forwards_watcher_unless_igt_mode() {
    let mut w = Watchers::new();
    assert_eq!(is_loading(&w, &lrt()), None);
    assert_eq!(is_loading(&w, &igt()), Some(true));
    update_loop(&mut w, Some(1), Some(0), Some(0), None);
    assert_eq!(is_loading(&w, &lrt()), Some(true));
    update_loop(&mut w, Some(2), Some(0), Some(0), None);
    assert_eq!(is_loading(&w, &lrt()), Some(false));
}

#[test]
fn game_time_only_in_igt_mode() {
    let mut w = Watchers::new();
    assert_eq!(game_time(&w, &igt()), None);
    update_loop(&mut w, Some(0), Some(0), Some(1), Some(450));
    assert_eq!(game_time(&w, &lrt()), None);
    assert_eq!(game_time(&w, &igt()), Some(450));
}

#[test]
fn per_title_triggers_are_inert() {
    let w = Watchers::new();
    assert!(!start(&w, &lrt()));
    assert!(!start(&w, &igt()));
    assert!(!split(&w, &lrt()));
    assert!(!reset(&w, &lrt()));
}

#[test]
fn not_running_tick_resets_buffer_to_zero() {
    let mut w = Watchers::new();
    update_loop(&mut w, Some(0), Some(0), Some(1), Some(500));
    update_loop(&mut w, Some(0), Some(0), Some(1), Some(100));
    assert_eq!(w.igt_buffer, 500);
    let cmds = tick_commands(TimerState::NotRunning, &mut w, &lrt());
    assert_eq!(w.igt_buffer, 0);
    assert_eq!(cmds, vec![]);
}

#[test]
fn running_tick_with_igt_sets_game_time() {
    let mut w = Watchers::new();
    update_loop(&mut w, Some(0), Some(0), Some(1), Some(450));
    let cmds = tick_commands(TimerState::Running, &mut w, &igt());
    assert_eq!(cmds, vec![TimerCommand::PauseGameTime, TimerCommand::SetGameTime(450)]);
}

#[test]
fn paused_tick_decides_like_running() {
    let mut w = Watchers::new();
    update_loop(&mut w, Some(1), Some(0), Some(0), None);
    let cmds = tick_commands(TimerState::Paused, &mut w, &lrt());
    assert_eq!(cmds, vec![TimerCommand::PauseGameTime]);
}

#[test]
fn running_tick_before_first_observation_issues_nothing() {
    let mut w = Watchers::new();
    let cmds = tick_commands(TimerState::Running, &mut w, &lrt());
    assert_eq!(cmds, vec![]);
}

#[test]
fn loading_state_sequence_drives_pause_resume() {
    // Raw loading-state values over four ticks, stuck flag always 0, while the
    // timer runs: 1 means loading, 2 is the benign sentinel, 0 not loading.
    let mut w = Watchers::new();
    let mut issued: Vec<Vec<TimerCommand>> = Vec::new();
    for state in [0u32, 1, 2, 0] {
        update_loop(&mut w, Some(state), Some(0), Some(0), None);
        issued.push(tick_commands(TimerState::Running, &mut w, &lrt()));
    }
    assert_eq!(
        issued,
        vec![
            vec![TimerCommand::ResumeGameTime],
            vec![TimerCommand::PauseGameTime],
            vec![TimerCommand::ResumeGameTime],
            vec![TimerCommand::ResumeGameTime],
        ]
    );
}

#[test]
fn buffer_saturates_instead_of_overflowing() {
    let mut w = Watchers::new();
    w.igt_buffer = u64::MAX - 100;
    update_loop(&mut w, Some(0), Some(0), Some(1), Some(500));
    update_loop(&mut w, Some(0), Some(0), Some(1), Some(300));
    assert_eq!(w.igt_buffer, u64::MAX);
}

#[test]
fn layout_paths_match_the_title() {
    assert_eq!(layout::loading_state_path(), vec![0x833678A0, 0x4, 0xE0, 0x13C]);
    assert_eq!(layout::stuck_flag_path(), vec![0x83367A4C]);
    assert_eq!(layout::stage_path(), vec![0x83367900, 0x8, 0xAC, 0x0]);
    assert_eq!(layout::clock_path(), vec![0x83367900, 0x8, 0x5C]);
}
