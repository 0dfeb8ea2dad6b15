//! The panic controller: the single terminal handler for fatal kernel
//! conditions.
//!
//! A fatal condition first masks asynchronous exceptions (a hardware
//! action performed by the surrounding binary), then enters the
//! controller.  The controller tests and sets the process-wide
//! reentrancy state: on the first entry per boot it renders exactly one
//! diagnostic record for the fail-safe output channel; on a nested
//! fault — one provoked by the printing or formatting path itself — it
//! prints nothing.  Either way it selects the terminal exit action for
//! the active build configuration.  Writing the record and performing
//! the exit action are hardware actions of the surrounding binary;
//! which record and which action are decided, and proved, here.

use vstd::prelude::*;
use vstd::string::StringExecFns;

use crate::textfmt::dec_rep;
use crate::textfmt::pad_left;
use crate::textfmt::pad_left_string;
use crate::textfmt::u64_to_decimal;

verus! {

/// The process-wide reentrancy state: "idle" until the first fatal
/// condition of the boot, "panicking" from then on.  It is never reset;
/// the kernel never recovers from a panic within the same boot.
#[derive(Clone, Copy, PartialEq, Eq, Structural, Debug)]
pub enum ReentrancyState {
    Idle,
    Panicking,
}

/// The build configuration that selects the exit strategy.
#[derive(Clone, Copy, PartialEq, Eq, Structural, Debug)]
pub enum BuildKind {
    /// An operator-facing build: after the diagnostic, halt forever and
    /// leave the output visible.
    Production,
    /// A continuous-integration build: after the diagnostic, signal
    /// failure to the hosting test environment instead of hanging.
    TestHarness,
}

/// The terminal, non-returning action taken after the diagnostic.
/// Performing it is the surrounding binary's job; it never returns.
#[derive(Clone, Copy, PartialEq, Eq, Structural, Debug)]
pub enum ExitAction {
    /// Spin indefinitely, leaving the diagnostic visible.
    HaltForever,
    /// Signal a failed exit code to the hosting test environment.
    SignalTestFailure,
}

/// The source location of a fault: file, line and column.
pub struct SourceLocation {
    pub file: String,
    pub line: u32,
    pub column: u32,
}

/// One fault occurrence: best-effort source location, best-effort
/// message, and the uptime at which the fault was detected, as whole
/// seconds plus sub-second microseconds.
pub struct PanicEvent {
    pub location: Option<SourceLocation>,
    pub message: Option<String>,
    pub uptime_secs: u64,
    pub uptime_micros: u32,
}

/// The exit action each build configuration selects.
pub open spec fn spec_exit_action(build: BuildKind) -> ExitAction {
    match build {
        BuildKind::Production => ExitAction::HaltForever,
        BuildKind::TestHarness => ExitAction::SignalTestFailure,
    }
}

/// Where the reentrancy state stands after a panic entry: panicking,
/// whatever it held before.
pub open spec fn spec_next_reentrancy_state(s: ReentrancyState) -> ReentrancyState {
    ReentrancyState::Panicking
}

/// Whether a panic entry observed in state `s` prints a diagnostic:
/// only the first entry of the boot does.
pub open spec fn spec_prints_diagnostic(s: ReentrancyState) -> bool {
    s == ReentrancyState::Idle
}

/// The file name printed for a fault, with the unknown sentinel
/// substituted when no location was supplied.
pub open spec fn spec_file_text(location: Option<SourceLocation>) -> Seq<char> {
    match location {
        Some(loc) => loc.file@,
        None => "???"@,
    }
}

/// The line printed for a fault; zero when no location was supplied.
pub open spec fn spec_line(location: Option<SourceLocation>) -> u32 {
    match location {
        Some(loc) => loc.line,
        None => 0,
    }
}

/// The column printed for a fault; zero when no location was supplied.
pub open spec fn spec_column(location: Option<SourceLocation>) -> u32 {
    match location {
        Some(loc) => loc.column,
        None => 0,
    }
}

/// The message printed for a fault; empty when none was supplied.
pub open spec fn spec_message_text(message: Option<String>) -> Seq<char> {
    match message {
        Some(m) => m@,
        None => Seq::<char>::empty(),
    }
}

/// The uptime prefix of the diagnostic: seconds right-aligned to three
/// characters with spaces, a dot, and microseconds zero-padded to six
/// digits, in brackets.
pub open spec fn spec_timestamp_prefix(secs: u64, micros: u64) -> Seq<char> {
    "["@ + pad_left(dec_rep(secs as nat), 3, ' ') + "."@ + pad_left(dec_rep(micros as nat), 6, '0')
        + "]"@
}

/// The complete diagnostic record for one fault occurrence.
pub open spec fn spec_diagnostic_text(event: PanicEvent) -> Seq<char> {
    spec_timestamp_prefix(event.uptime_secs, event.uptime_micros as u64)
        + " Kernel panic!\n\nPanic location:\n  File '"@ + spec_file_text(event.location)
        + "', line "@ + dec_rep(spec_line(event.location) as nat) + ", column "@ + dec_rep(
        spec_column(event.location) as nat,
    ) + "\n\n"@ + spec_message_text(event.message)
}

/// Render the uptime prefix of the diagnostic.
pub fn format_timestamp_prefix(secs: u64, micros: u64) -> (r: String)
    ensures
        r@ == spec_timestamp_prefix(secs, micros),
{
    proof {
        reveal_strlit(" ");
        reveal_strlit("0");
    }
    let mut r = String::from_str("[");
    r.append(pad_left_string(u64_to_decimal(secs), 3, " ").as_str());
    r.append(".");
    r.append(pad_left_string(u64_to_decimal(micros), 6, "0").as_str());
    r.append("]");
    proof {
        assert(r@ =~= spec_timestamp_prefix(secs, micros));
    }
    r
}

/// Render the complete diagnostic record for one fault occurrence,
/// substituting the unknown sentinel for a missing location and the
/// empty message for a missing message.
pub fn render_diagnostic(event: &PanicEvent) -> (r: String)
    ensures
        r@ == spec_diagnostic_text(*event),
{
    let mut r = format_timestamp_prefix(event.uptime_secs, event.uptime_micros as u64);
    r.append(" Kernel panic!\n\nPanic location:\n  File '");
    match &event.location {
        Some(loc) => r.append(loc.file.as_str()),
        None => r.append("???"),
    }
    r.append("', line ");
    let line: u32 = match &event.location {
        Some(loc) => loc.line,
        None => 0,
    };
    r.append(u64_to_decimal(line as u64).as_str());
    r.append(", column ");
    let column: u32 = match &event.location {
        Some(loc) => loc.column,
        None => 0,
    };
    r.append(u64_to_decimal(column as u64).as_str());
    r.append("\n\n");
    match &event.message {
        Some(m) => r.append(m.as_str()),
        None => (),
    }
    proof {
        assert(r@ =~= spec_diagnostic_text(*event));
    }
    r
}

/// Test and set the reentrancy state: stop printing if entered a second
/// time.
///
/// Returns whether this is the first panic entry of the boot.  Only then
/// may the caller format and print; on a nested fault — the printing or
/// formatting path is presumed to be the cause of the re-entry — the
/// caller must route directly to the exit strategy.
pub fn panic_prevent_reenter(state: &mut ReentrancyState) -> (proceed: bool)
    ensures
        *final(state) == spec_next_reentrancy_state(*old(state)),
        proceed == spec_prints_diagnostic(*old(state)),
{
    match *state {
        ReentrancyState::Idle => {
            *state = ReentrancyState::Panicking;
            true
        },
        ReentrancyState::Panicking => false,
    }
}

/// The point of exit after a fatal condition: select the terminal
/// action for the active build configuration.
///
/// A production build halts forever, leaving the diagnostic visible; a
/// test-harness build signals failure to the hosting test environment
/// so that the test runner observes a failed exit code.
pub fn _panic_exit(build: BuildKind) -> (action: ExitAction)
    ensures
        action == spec_exit_action(build),
{
    match build {
        BuildKind::Production => ExitAction::HaltForever,
        BuildKind::TestHarness => ExitAction::SignalTestFailure,
    }
}

/// What one panic entry decided: the diagnostic record to write, if
/// any, and the terminal action to perform.
pub struct PanicOutcome {
    pub diagnostic: Option<String>,
    pub exit: ExitAction,
}

/// Handle one fatal condition.
///
/// Entered with asynchronous exceptions already masked.  Tests and sets
/// the reentrancy state; on the first entry of the boot the outcome
/// carries the diagnostic record for the fail-safe output channel, on a
/// nested fault it carries none.  The outcome always names the terminal
/// exit action for the active build configuration, and the caller must
/// perform it unconditionally — even when writing the diagnostic failed,
/// a panic is never retried.
pub fn handle_panic(event: &PanicEvent, state: &mut ReentrancyState, build: BuildKind) -> (out:
    PanicOutcome)
    ensures
        *final(state) == spec_next_reentrancy_state(*old(state)),
        out.diagnostic is Some <==> spec_prints_diagnostic(*old(state)),
        spec_prints_diagnostic(*old(state)) ==> (out.diagnostic matches Some(d) && d@
            == spec_diagnostic_text(*event)),
        out.exit == spec_exit_action(build),
{
    let proceed = panic_prevent_reenter(state);
    if proceed {
        let diagnostic = render_diagnostic(event);
        PanicOutcome { diagnostic: Some(diagnostic), exit: _panic_exit(build) }
    } else {
        PanicOutcome { diagnostic: None, exit: _panic_exit(build) }
    }
}

/// Idempotence of panic entry: a second entry, made while the first is
/// still executing, finds the state already panicking, so it prints no
/// second diagnostic and routes directly to the exit strategy; the
/// state never moves again.
pub proof fn lemma_panic_entry_idempotent(s: ReentrancyState)
    ensures
        !spec_prints_diagnostic(spec_next_reentrancy_state(s)),
        spec_next_reentrancy_state(spec_next_reentrancy_state(s)) == spec_next_reentrancy_state(s),
{
}

} // verus!
