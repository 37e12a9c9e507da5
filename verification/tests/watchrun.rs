use watchrun::config::Config;
use watchrun::config::Mode;
use watchrun::config::mode_from_file_names;
use watchrun::config::mode_from_markers;
use watchrun::engine::LoopAction;
use watchrun::engine::LoopEvent;
use watchrun::engine::LoopState;
use watchrun::engine::initial_state;
use watchrun::engine::next_action;
use watchrun::engine::next_state;
use watchrun::runner::ConfigError;
use watchrun::runner::Runner;
use watchrun::split::split_whitespace_owned;
use watchrun::supervisor::ConsoleItem;
use watchrun::supervisor::RunResult;
use watchrun::supervisor::clear_sequence;
use watchrun::supervisor::post_run_console;
use watchrun::supervisor::pre_run_console;
use watchrun::watch::registration_report;

/// Feed the events to the machine in order; count how many command
/// runs complete (a `RunCommand` action answered by `RunFinished`).
fn runs_completed(start: LoopState, events: &[LoopEvent]) -> (LoopState, usize) {
    let mut state = start;
    let mut runs = 0;
    for &e in events {
        let action = next_action(state);
        if matches!(action, LoopAction::RunCommand { .. }) && matches!(e, LoopEvent::RunFinished)
        {
            runs += 1;
        }
        state = next_state(state, e);
    }
    (state, runs)
}

#[test]
fn config_new_empty_settings() {
    let c = Config::new("", "");
    assert!(c.command.is_none());
    assert!(c.directories.is_none());
}

#[test]
fn config_new_keeps_command() {
    let c = Config::new("echo hi", "");
    assert_eq!(c.command.as_deref(), Some("echo hi"));
    assert!(c.directories.is_none());
}

#[test]
fn config_new_splits_directories() {
    let c = Config::new("", "src tests\tdocs");
    assert_eq!(
        c.directories,
        Some(vec!["src".to_owned(), "tests".to_owned(), "docs".to_owned()])
    );
}

#[test]
fn config_new_whitespace_only_directories() {
    let c = Config::new("", "   ");
    assert_eq!(c.directories, Some(vec![]));
}

#[test]
fn split_whitespace_owned_tokens() {
    assert_eq!(
        split_whitespace_owned(" a\tb\nc  "),
        vec!["a".to_owned(), "b".to_owned(), "c".to_owned()]
    );
    assert_eq!(split_whitespace_owned(""), Vec::<String>::new());
    assert_eq!(split_whitespace_owned("one"), vec!["one".to_owned()]);
}

#[test]
fn mode_from_markers_priority() {
    assert_eq!(mode_from_markers(true, true), Mode::Rust);
    assert_eq!(mode_from_markers(true, false), Mode::Rust);
    assert_eq!(mode_from_markers(false, true), Mode::Make);
    assert_eq!(mode_from_markers(false, false), Mode::Custom);
}

#[test]
fn mode_from_file_names_finds_markers() {
    let rust_dir = vec!["README.md".to_owned(), "Cargo.toml".to_owned(), "src".to_owned()];
    assert_eq!(mode_from_file_names(&rust_dir), Mode::Rust);
    let make_dir = vec!["Makefile".to_owned(), "main.c".to_owned()];
    assert_eq!(mode_from_file_names(&make_dir), Mode::Make);
    let both = vec!["Makefile".to_owned(), "Cargo.toml".to_owned()];
    assert_eq!(mode_from_file_names(&both), Mode::Rust);
    assert_eq!(mode_from_file_names(&vec![]), Mode::Custom);
}

#[test]
fn custom_mode_without_command_fails() {
    let r = Runner::new(Mode::Custom, None, None);
    assert!(matches!(r, Err(ConfigError::MissingCustomCommand)));
    let r = Runner::new(Mode::Custom, Some(String::new()), None);
    assert!(matches!(r, Err(ConfigError::MissingCustomCommand)));
}

#[test]
fn rust_mode_without_command_uses_defaults() {
    let runner = Runner::new(Mode::Rust, None, None).unwrap();
    assert_eq!(runner.command, "cargo fmt; clear; cargo clippy --color always -q");
    assert_eq!(runner.directories, vec!["src".to_owned()]);
}

#[test]
fn make_mode_without_command_uses_defaults() {
    let runner = Runner::new(Mode::Make, None, None).unwrap();
    assert_eq!(runner.command, "make -s");
    assert_eq!(runner.directories, vec!["src".to_owned(), ".".to_owned()]);
}

#[test]
fn explicit_command_and_directories_kept() {
    let runner = Runner::new(
        Mode::Custom,
        Some("echo hi".to_owned()),
        Some(vec!["/tmp/w".to_owned()]),
    )
    .unwrap();
    assert_eq!(runner.command, "echo hi");
    assert_eq!(runner.directories, vec!["/tmp/w".to_owned()]);
}

#[test]
fn empty_directory_list_falls_back_to_defaults() {
    let runner = Runner::new(Mode::Custom, Some("echo hi".to_owned()), Some(vec![])).unwrap();
    assert_eq!(runner.directories, vec!["src".to_owned(), ".".to_owned()]);
}

#[test]
fn first_run_happens_once_and_before_events() {
    // The very first action, before any event is waited for, is the
    // startup run, whatever the watch list looked like.
    let s0 = initial_state();
    assert!(matches!(next_action(s0), LoopAction::RunCommand { first: true }));
    // Once it completes, the loop waits; the startup run never recurs.
    let mut state = next_state(s0, LoopEvent::RunFinished);
    assert!(matches!(next_action(state), LoopAction::WaitForBatch));
    let later = [
        LoopEvent::BatchArrived(2),
        LoopEvent::RunFinished,
        LoopEvent::DrainFinished(0),
        LoopEvent::BatchArrived(1),
        LoopEvent::RunFinished,
        LoopEvent::DrainFinished(1),
    ];
    for &e in &later {
        assert!(!matches!(next_action(state), LoopAction::RunCommand { first: true }));
        state = next_state(state, e);
    }
}

#[test]
fn burst_of_three_events_runs_once() {
    // truncate + write + chmod: three raw events in one wake-up.
    let events = [
        LoopEvent::BatchArrived(3),
        LoopEvent::RunFinished,
        LoopEvent::DrainFinished(0),
    ];
    let (state, runs) = runs_completed(LoopState::AwaitingEvents, &events);
    assert_eq!(runs, 1);
    assert_eq!(state, LoopState::AwaitingEvents);
}

#[test]
fn drain_discards_without_extra_run() {
    let events = [
        LoopEvent::BatchArrived(1),
        LoopEvent::RunFinished,
        LoopEvent::DrainFinished(5),
    ];
    let (state, runs) = runs_completed(LoopState::AwaitingEvents, &events);
    assert_eq!(runs, 1);
    assert_eq!(state, LoopState::AwaitingEvents);
}

#[test]
fn separated_events_run_twice() {
    // The second batch arrives only after the first cycle's drain
    // completed, so it gets its own run.
    let events = [
        LoopEvent::BatchArrived(3),
        LoopEvent::RunFinished,
        LoopEvent::DrainFinished(0),
        LoopEvent::BatchArrived(2),
        LoopEvent::RunFinished,
        LoopEvent::DrainFinished(0),
    ];
    let (state, runs) = runs_completed(LoopState::AwaitingEvents, &events);
    assert_eq!(runs, 2);
    assert_eq!(state, LoopState::AwaitingEvents);
}

#[test]
fn empty_batch_keeps_waiting() {
    let state = next_state(LoopState::AwaitingEvents, LoopEvent::BatchArrived(0));
    assert_eq!(state, LoopState::AwaitingEvents);
}

#[test]
fn mismatched_outcome_leaves_state_unchanged() {
    let state = next_state(LoopState::AwaitingEvents, LoopEvent::DrainFinished(3));
    assert_eq!(state, LoopState::AwaitingEvents);
    let state = next_state(LoopState::RunPending, LoopEvent::BatchArrived(4));
    assert_eq!(state, LoopState::RunPending);
}

#[test]
fn runner_advance_keeps_command_and_directories() {
    let mut runner = Runner::new(
        Mode::Custom,
        Some("echo hi".to_owned()),
        Some(vec!["/tmp/w".to_owned()]),
    )
    .unwrap();
    assert!(matches!(runner.current_action(), LoopAction::RunCommand { first: true }));
    runner.advance(LoopEvent::RunFinished);
    runner.advance(LoopEvent::BatchArrived(1));
    assert_eq!(runner.command, "echo hi");
    assert_eq!(runner.directories, vec!["/tmp/w".to_owned()]);
}

#[test]
fn failed_watch_does_not_block_others() {
    let dirs = vec!["src".to_owned(), "no-such-dir".to_owned(), ".".to_owned()];
    let ok = vec![true, false, true];
    let report = registration_report(&dirs, &ok);
    assert_eq!(report.watched, vec!["src".to_owned(), ".".to_owned()]);
    assert_eq!(report.failed, vec!["no-such-dir".to_owned()]);
}

#[test]
fn all_watches_failing_is_not_fatal() {
    let dirs = vec!["a".to_owned(), "b".to_owned()];
    let ok = vec![false, false];
    let report = registration_report(&dirs, &ok);
    assert!(report.watched.is_empty());
    assert_eq!(report.failed, vec!["a".to_owned(), "b".to_owned()]);
}

#[test]
fn clear_sequence_value() {
    assert_eq!(clear_sequence(), "\x1B[2J\x1B[1;1H");
}

#[test]
fn pre_run_clears_then_prints_command_once() {
    let command = "echo hi".to_owned();
    let first = pre_run_console(true, &command);
    assert_eq!(first.len(), 2);
    assert!(matches!(first[0], ConsoleItem::Clear));
    assert!(matches!(first[1], ConsoleItem::CommandLine(ref c) if c == "echo hi"));
    let later = pre_run_console(false, &command);
    assert_eq!(later.len(), 1);
    assert!(matches!(later[0], ConsoleItem::Clear));
}

#[test]
fn post_run_writes_stdout_then_stderr() {
    let result = RunResult {
        spawned: true,
        stdout: b"hi\n".to_vec(),
        stderr: b"oops\n".to_vec(),
    };
    let items = post_run_console(result);
    assert_eq!(items.len(), 2);
    assert!(matches!(items[0], ConsoleItem::OutBytes(ref o) if o == b"hi\n"));
    assert!(matches!(items[1], ConsoleItem::ErrBytes(ref e) if e == b"oops\n"));
}

#[test]
fn post_run_spawn_failure_warns_only() {
    let result = RunResult { spawned: false, stdout: vec![], stderr: vec![] };
    let items = post_run_console(result);
    assert_eq!(items.len(), 1);
    assert!(matches!(items[0], ConsoleItem::SpawnWarning));
}

#[test]
fn scenario_echo_hi_single_touch() {
    // mode=Custom, command="echo hi", directories=["/tmp/w"]; one
    // touch within the debounce window yields one run whose captured
    // stdout is written after a clear-screen sequence.
    let mut runner = Runner::new(
        Mode::Custom,
        Some("echo hi".to_owned()),
        Some(vec!["/tmp/w".to_owned()]),
    )
    .unwrap();
    // Startup run completes first.
    assert!(matches!(runner.current_action(), LoopAction::RunCommand { first: true }));
    runner.advance(LoopEvent::RunFinished);
    assert!(matches!(runner.current_action(), LoopAction::WaitForBatch));
    // The touch delivers one batch; it owes exactly one run.
    runner.advance(LoopEvent::BatchArrived(1));
    assert!(matches!(runner.current_action(), LoopAction::RunCommand { first: false }));
    let before = pre_run_console(false, &runner.command);
    assert!(matches!(before[0], ConsoleItem::Clear));
    let result = RunResult { spawned: true, stdout: b"hi\n".to_vec(), stderr: vec![] };
    let after = post_run_console(result);
    assert!(matches!(after[0], ConsoleItem::OutBytes(ref o) if o == b"hi\n"));
    assert!(matches!(after[1], ConsoleItem::ErrBytes(ref e) if e.is_empty()));
    // The run completes, the drain finds nothing more, and the loop
    // waits again: no second run for the single touch.
    runner.advance(LoopEvent::RunFinished);
    assert!(matches!(runner.current_action(), LoopAction::DrainPending));
    runner.advance(LoopEvent::DrainFinished(0));
    assert!(matches!(runner.current_action(), LoopAction::WaitForBatch));
}
