use kernel_diag::panic_wait::{
    format_timestamp_prefix, handle_panic, panic_prevent_reenter, render_diagnostic, BuildKind,
    ExitAction, PanicEvent, ReentrancyState, SourceLocation, _panic_exit,
};

fn located_event() -> PanicEvent {
    PanicEvent {
        location: Some(SourceLocation {
            file: "foo.rs".to_string(),
            line: 42,
            column: 7,
        }),
        message: Some("index out of bounds".to_string()),
        uptime_secs: 3,
        uptime_micros: 250_000,
    }
}

#[test]
fn diagnostic_for_located_fault() {
    let event = located_event();
    let text = render_diagnostic(&event);
    assert!(text.contains("File 'foo.rs', line 42, column 7"));
    assert!(text.contains("index out of bounds"));
    assert!(text.contains("[  3.250000]"));
    assert_eq!(
        text,
        "[  3.250000] Kernel panic!\n\nPanic location:\n  \
         File 'foo.rs', line 42, column 7\n\nindex out of bounds"
    );
}

#[test]
fn diagnostic_for_fault_without_location() {
    let event = PanicEvent {
        location: None,
        message: Some("oops".to_string()),
        uptime_secs: 0,
        uptime_micros: 0,
    };
    let text = render_diagnostic(&event);
    assert!(text.contains("File '???', line 0, column 0"));
    assert_eq!(
        text,
        "[  0.000000] Kernel panic!\n\nPanic location:\n  \
         File '???', line 0, column 0\n\noops"
    );
}

#[test]
fn diagnostic_for_fault_without_message() {
    let event = PanicEvent {
        location: None,
        message: None,
        uptime_secs: 1,
        uptime_micros: 2,
    };
    let text = render_diagnostic(&event);
    assert_eq!(
        text,
        "[  1.000002] Kernel panic!\n\nPanic location:\n  \
         File '???', line 0, column 0\n\n"
    );
}

#[test]
fn timestamp_prefix_is_padded() {
    assert_eq!(format_timestamp_prefix(3, 250_000), "[  3.250000]");
    assert_eq!(format_timestamp_prefix(0, 0), "[  0.000000]");
    assert_eq!(format_timestamp_prefix(123, 7), "[123.000007]");
    // Fields wider than their minimum width are printed in full.
    assert_eq!(format_timestamp_prefix(123_456, 1_000_000), "[123456.1000000]");
}

#[test]
fn reentrant_fault_prints_no_second_diagnostic() {
    let mut state = ReentrancyState::Idle;
    let event = located_event();

    let first = handle_panic(&event, &mut state, BuildKind::Production);
    assert!(first.diagnostic.is_some());
    assert_eq!(state, ReentrancyState::Panicking);

    // A nested fault while the first is still being handled: nothing is
    // printed again, the exit strategy is reached directly.
    let second = handle_panic(&event, &mut state, BuildKind::Production);
    assert!(second.diagnostic.is_none());
    assert_eq!(second.exit, ExitAction::HaltForever);
    assert_eq!(state, ReentrancyState::Panicking);

    let third = handle_panic(&event, &mut state, BuildKind::Production);
    assert!(third.diagnostic.is_none());
}

#[test]
fn prevent_reenter_is_a_one_way_test_and_set() {
    let mut state = ReentrancyState::Idle;
    assert!(panic_prevent_reenter(&mut state));
    assert_eq!(state, ReentrancyState::Panicking);
    assert!(!panic_prevent_reenter(&mut state));
    assert_eq!(state, ReentrancyState::Panicking);
}

#[test]
fn exit_strategy_follows_the_build_kind() {
    assert_eq!(_panic_exit(BuildKind::Production), ExitAction::HaltForever);
    assert_eq!(_panic_exit(BuildKind::TestHarness), ExitAction::SignalTestFailure);

    let event = located_event();

    let mut state = ReentrancyState::Idle;
    let production = handle_panic(&event, &mut state, BuildKind::Production);
    assert_eq!(production.exit, ExitAction::HaltForever);

    let mut state = ReentrancyState::Idle;
    let harness = handle_panic(&event, &mut state, BuildKind::TestHarness);
    assert_eq!(harness.exit, ExitAction::SignalTestFailure);

    // The selection holds on a nested fault too.
    let nested = handle_panic(&event, &mut state, BuildKind::TestHarness);
    assert!(nested.diagnostic.is_none());
    assert_eq!(nested.exit, ExitAction::SignalTestFailure);
}

#[test]
fn first_entry_prints_exactly_the_diagnostic() {
    let event = located_event();
    let mut state = ReentrancyState::Idle;
    let outcome = handle_panic(&event, &mut state, BuildKind::TestHarness);
    assert_eq!(
        outcome.diagnostic.as_deref(),
        Some(
            "[  3.250000] Kernel panic!\n\nPanic location:\n  \
             File 'foo.rs', line 42, column 7\n\nindex out of bounds"
        )
    );
}
