use pomodoro_bot::clock::Clock;
use pomodoro_bot::messages::added_response;
use pomodoro_bot::messages::completed_response;
use pomodoro_bot::messages::help_message;
use pomodoro_bot::messages::task_list_response;
use pomodoro_bot::messages::COMMAND_NOT_FOUND_MESSAGE;
use pomodoro_bot::router::parse_command;
use pomodoro_bot::router::parse_task_index;
use pomodoro_bot::router::Command;
use pomodoro_bot::session::PomodoroSession;
use pomodoro_bot::store::TaskStore;
use pomodoro_bot::store::TaskStoreError;
use pomodoro_bot::task::Task;
use pomodoro_bot::task::Timestamp;
use pomodoro_bot::text::u64_to_string;
use pomodoro_bot::tracker::PomodoroState;
use pomodoro_bot::tracker::StateTracker;

fn remaining_ms(clock: &mut Clock) -> u64 {
    clock.get_ms_from_time()
}

#[test]
fn clock_set_and_read_back_truncates_subseconds() {
    // Over the whole representable hour, reading back after a set loses
    // exactly the sub-second part.
    for ms in [0u64, 1, 999, 1000, 1001, 59999, 60000, 61000, 1499999, 1500000, 3599999] {
        let mut clock = Clock::new();
        clock.set_time_ms(ms);
        assert_eq!(remaining_ms(&mut clock), ms - ms % 1000);
    }
}

#[test]
fn clock_set_from_minutes() {
    let mut clock = Clock::new();
    clock.set_time_minutes(25);
    assert_eq!(clock.minutes, 25);
    assert_eq!(clock.seconds, 0);
    assert_eq!(remaining_ms(&mut clock), 25 * 60000);
}

#[test]
fn clock_decrement_from_one_second_reaches_zero() {
    let mut clock = Clock::new();
    clock.set_time_ms(1000);
    assert_eq!(clock.get_time(), "00:01");
    clock.decrement_one_second();
    assert_eq!(clock.get_time(), "00:00");
    // A further decrement is ruled out by the function's precondition
    // (remaining >= 1000); the countdown guards it by stopping at zero.
    assert_eq!(remaining_ms(&mut clock), 0);
}

#[test]
fn clock_renders_zero_padded() {
    let mut clock = Clock::new();
    assert_eq!(clock.get_time(), "00:00");
    clock.set_time_ms(9 * 60000 + 5000);
    assert_eq!(clock.get_time(), "09:05");
    clock.set_time_ms(59 * 60000 + 59000);
    assert_eq!(clock.get_time(), "59:59");
}

#[test]
fn cycle_ordinal_rotates_with_period_four() {
    let mut tracker = StateTracker::new();
    assert_eq!(tracker.current_order, None);
    let mut seen = Vec::new();
    for _ in 0..6 {
        tracker.increment_cycle();
        seen.push(tracker.current_order.unwrap());
    }
    assert_eq!(seen, vec![1, 2, 3, 4, 1, 2]);
}

#[test]
fn set_work_state_records_phase_and_ordinal() {
    let mut tracker = StateTracker::new();
    tracker.set_work_state();
    assert!(matches!(tracker.current_state, PomodoroState::Working));
    assert_eq!(tracker.current_order, Some(1));
    assert!(tracker.started_at.is_some());
}

#[test]
fn start_work_sets_a_full_phase() {
    let mut session = PomodoroSession::new();
    assert!(matches!(
        session.pomodoro_tracker.current_state,
        PomodoroState::Idle
    ));
    session.start_work();
    assert!(matches!(
        session.pomodoro_tracker.current_state,
        PomodoroState::Working
    ));
    assert_eq!(session.pomodoro_tracker.current_order, Some(1));
    assert_eq!(session.clock.minutes, 25);
    assert_eq!(session.clock.seconds, 0);
}

#[test]
fn countdown_corrects_drift_over_a_whole_phase() {
    // With a simulated constant per-iteration overhead of k ms, the
    // computed sleep is always 1000 - k, so sleep plus overhead advance
    // real time by exactly one tick and drift never accumulates.
    let k: u64 = 7;
    let mut session = PomodoroSession::new();
    session.start_work();
    let mut wall: u64 = 0;
    for i in 0..1500u64 {
        let true_elapsed = i * 1000 + k;
        let tick = session
            .countdown(true_elapsed)
            .expect("working phase must count down");
        assert_eq!(tick.sleep_ms, 1000 - k);
        wall += k + tick.sleep_ms;
        assert_eq!(tick.finished, i == 1499);
    }
    assert_eq!(wall, 1500 * 1000);
}

#[test]
fn countdown_clamps_oversized_drift() {
    let mut session = PomodoroSession::new();
    session.start_work();
    // The first tick has accounted for no time yet; an overhead beyond a
    // full tick would call for a negative sleep, which clamps to zero.
    let tick = session.countdown(2500).unwrap();
    assert_eq!(tick.sleep_ms, 0);
    assert_eq!(tick.display, "24:59");
}

#[test]
fn countdown_stretches_sleep_when_ahead_of_real_time() {
    let mut session = PomodoroSession::new();
    session.start_work();
    session.countdown(1000).unwrap();
    // One tick is on the books but real time has only seen 500 ms, so the
    // next sleep stretches to realign: 1000 + 1000 - 500.
    let tick = session.countdown(500).unwrap();
    assert_eq!(tick.sleep_ms, 1500);
}

#[test]
fn countdown_outside_working_phase_does_nothing() {
    let mut session = PomodoroSession::new();
    assert!(session.countdown(0).is_none());
}

#[test]
fn countdown_ticks_show_decreasing_dial() {
    let mut session = PomodoroSession::new();
    session.start_work();
    let tick = session.countdown(0).unwrap();
    assert_eq!(tick.display, "24:59");
    assert!(!tick.finished);
    let tick = session.countdown(1000).unwrap();
    assert_eq!(tick.display, "24:58");
    assert!(!tick.finished);
}

#[test]
fn task_lifecycle_for_one_user() {
    let mut store = TaskStore::new();
    store.add_task(42, "Buy milk");
    assert_eq!(store.list_tasks(42), vec!["Buy milk"]);
    store.add_task(42, "Walk dog");
    assert_eq!(store.list_tasks(42), vec!["Buy milk", "Walk dog"]);
    let removed = store.remove_task(42, 0).unwrap();
    assert_eq!(removed, "Buy milk");
    assert_eq!(store.list_tasks(42), vec!["Walk dog"]);
    let removed = store.remove_task(42, 0).unwrap();
    assert_eq!(removed, "Walk dog");
    assert_eq!(store.list_tasks(42), Vec::<String>::new());
    assert_eq!(store.remove_task(42, 0), Err(TaskStoreError::NoSuchTask));
}

#[test]
fn task_lists_of_two_users_are_isolated() {
    let mut store = TaskStore::new();
    store.add_task(1, "alpha");
    store.add_task(2, "beta");
    store.add_task(1, "gamma");
    assert_eq!(store.list_tasks(1), vec!["alpha", "gamma"]);
    assert_eq!(store.list_tasks(2), vec!["beta"]);
    // Removing under user 1 leaves user 2 untouched.
    store.remove_task(1, 0).unwrap();
    assert_eq!(store.list_tasks(1), vec!["gamma"]);
    assert_eq!(store.list_tasks(2), vec!["beta"]);
    // A failing removal under user 1 changes nobody's list.
    assert_eq!(store.remove_task(1, 5), Err(TaskStoreError::NoSuchTask));
    assert_eq!(store.list_tasks(1), vec!["gamma"]);
    assert_eq!(store.list_tasks(2), vec!["beta"]);
    // An empty list rejects removal without touching the other user.
    store.remove_task(1, 0).unwrap();
    assert_eq!(store.remove_task(1, 0), Err(TaskStoreError::NoSuchTask));
    assert_eq!(store.list_tasks(2), vec!["beta"]);
}

#[test]
fn out_of_range_offsets_are_rejected() {
    let mut store = TaskStore::new();
    store.add_task(9, "only");
    assert_eq!(store.remove_task(9, -1), Err(TaskStoreError::NoSuchTask));
    assert_eq!(store.remove_task(9, 1), Err(TaskStoreError::NoSuchTask));
    assert_eq!(store.list_tasks(9), vec!["only"]);
}

#[test]
fn routing_add_without_description_yields_empty_description() {
    match parse_command("!task add") {
        Command::TaskAdd(d) => assert_eq!(d, ""),
        other => panic!("routed to {:?}", other),
    }
    match parse_command("!task add   ") {
        Command::TaskAdd(d) => assert_eq!(d, ""),
        other => panic!("routed to {:?}", other),
    }
}

#[test]
fn routing_add_and_remove_carry_trimmed_arguments() {
    match parse_command("!task add  Buy milk ") {
        Command::TaskAdd(d) => assert_eq!(d, "Buy milk"),
        other => panic!("routed to {:?}", other),
    }
    match parse_command("!task remove 2") {
        Command::TaskRemove(d) => assert_eq!(d, "2"),
        other => panic!("routed to {:?}", other),
    }
    // Routing is by prefix alone, so text glued to the prefix still
    // becomes the argument.
    match parse_command("!task addfoo") {
        Command::TaskAdd(d) => assert_eq!(d, "foo"),
        other => panic!("routed to {:?}", other),
    }
}

#[test]
fn routing_exact_commands() {
    assert!(matches!(parse_command("!help"), Command::Help));
    assert!(matches!(parse_command("  !help \n"), Command::Help));
    assert!(matches!(parse_command("!task list"), Command::TaskList));
    assert!(matches!(parse_command("!pomodoro start"), Command::PomodoroStart));
    assert!(matches!(parse_command("!pomodoro pause"), Command::PomodoroPause));
    assert!(matches!(parse_command("!pomodoro check"), Command::PomodoroCheck));
    assert!(matches!(parse_command("hello"), Command::Unknown));
    assert!(matches!(parse_command("!task listing"), Command::Unknown));
    assert!(matches!(parse_command(""), Command::Unknown));
}

#[test]
fn task_index_parses_plain_numerals_only() {
    assert_eq!(parse_task_index("1"), Some(1));
    assert_eq!(parse_task_index("42"), Some(42));
    assert_eq!(parse_task_index("007"), Some(7));
    assert_eq!(parse_task_index("999999999999999999"), Some(999_999_999_999_999_999));
    assert_eq!(parse_task_index(""), None);
    assert_eq!(parse_task_index("two"), None);
    assert_eq!(parse_task_index("1 2"), None);
    assert_eq!(parse_task_index("-1"), None);
    assert_eq!(parse_task_index("1234567890123456789"), None);
}

#[test]
fn decimal_rendering() {
    assert_eq!(u64_to_string(0), "0");
    assert_eq!(u64_to_string(7), "7");
    assert_eq!(u64_to_string(10), "10");
    assert_eq!(u64_to_string(12345), "12345");
    assert_eq!(u64_to_string(u64::MAX), "18446744073709551615");
}

#[test]
fn reply_texts() {
    assert_eq!(
        added_response("Buy milk"),
        "Successfully added `Buy milk` to your todo list"
    );
    assert_eq!(completed_response("Buy milk"), "Successfully completed `Buy milk`!");
    assert_eq!(COMMAND_NOT_FOUND_MESSAGE, "\nI'm just a bot, I cannot do this\n");
}

#[test]
fn task_list_reply_numbers_tasks_in_order() {
    let tasks: Vec<String> = Vec::new();
    assert_eq!(task_list_response(&tasks), "You have 0 pending tasks:\n");
    let tasks = vec!["Buy milk".to_string(), "Walk dog".to_string()];
    assert_eq!(
        task_list_response(&tasks),
        "You have 2 pending tasks:\n1. Buy milk\n2. Walk dog\n"
    );
}

#[test]
fn help_lists_every_command() {
    let help = help_message();
    for cmd in [
        "!help",
        "!task add",
        "!task remove",
        "!task list",
        "!pomodoro start",
        "!pomodoro pause",
        "!pomodoro check",
    ] {
        assert!(help.contains(cmd), "help text misses {}", cmd);
    }
    assert!(help.contains("Hello, I'm pomodoro bot!"));
}

#[test]
fn task_records_hold_their_fields() {
    let start = Timestamp::new(1700000000, 500);
    let task = Task::new(start, "write notes".to_string());
    assert_eq!(task.start.secs, 1700000000);
    assert_eq!(task.start.nanos, 500);
    assert!(task.end.is_none());
    assert_eq!(task.description, "write notes");
}
