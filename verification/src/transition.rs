use crate::cli::{ActionView, EventView, OptsView, Phase, ResolutionView, StepView};
use crate::engine::{escaped, pattern_error, rejection, substituted};
use crate::error::{invalid_size_message, missing_value_message, CliErrorView, ErrorKind};
use crate::size::{size_value, DEFAULT_PUMP_LIMIT};
use vstd::prelude::*;

verus! {

/// The state of a run: the mathematical content of a [`crate::cli::Cli`].
pub struct CliView {
    /// The command line.
    pub opts: OptsView,
    /// The capacity of the streaming buffer in bytes.
    pub pump_limit: int,
    /// A warning from reading the command line that has not been shown yet.
    pub warning: Option<Seq<char>>,
    /// Whether debug messages are shown.
    pub debug: bool,
    /// The pattern, once it is resolved.
    pub pattern: Seq<char>,
    /// The replacement, once it is resolved.
    pub replacement: Seq<char>,
    /// What the run is waiting for.
    pub phase: Phase,
    /// The index of the current file.
    pub next: nat,
    /// Whether anything has failed so far.
    pub failed: bool,
}

/// Where the value of the argument `name` comes from: the literal wins over the
/// file, and with neither the value is missing.
pub open spec fn resolution(
    name: Seq<char>,
    arg: Option<Seq<char>>,
    path: Option<Seq<char>>,
) -> ResolutionView {
    match arg {
        Some(value) => ResolutionView::Value(value),
        None => match path {
            Some(file) => ResolutionView::ReadFile(file),
            None => ResolutionView::Failed(
                CliErrorView { kind: ErrorKind::MissingValue, msg: missing_value_message(name) },
            ),
        },
    }
}

/// Whether the size string `s` denotes a size that fits the pump limit.
pub open spec fn usable_size(s: Seq<char>) -> bool {
    size_value(s) matches Some(n) && n <= i64::MAX
}

/// The pump limit that the argument gives: its size, or 1 MiB where it is
/// absent or not a usable size.
pub open spec fn pump_limit_of(arg: Option<Seq<char>>) -> int {
    match arg {
        Some(s) => if usable_size(s) {
            size_value(s)->0 as int
        } else {
            DEFAULT_PUMP_LIMIT as int
        },
        None => DEFAULT_PUMP_LIMIT as int,
    }
}

/// The error that the pump limit's argument gives, if it is not a usable size.
pub open spec fn pump_limit_error(arg: Option<Seq<char>>) -> Option<CliErrorView> {
    match arg {
        Some(s) => if usable_size(s) {
            None
        } else {
            Some(
                CliErrorView {
                    kind: ErrorKind::InvalidSize,
                    msg: invalid_size_message(s),
                },
            )
        },
        None => None,
    }
}

/// The text of a message of an error, if there is an error.
pub open spec fn message_of(error: Option<CliErrorView>) -> Option<Seq<char>> {
    match error {
        Some(e) => Some(e.msg),
        None => None,
    }
}

/// The state of a run before its first step.
pub open spec fn initial(opts: OptsView) -> CliView {
    CliView {
        opts,
        pump_limit: pump_limit_of(opts.pump_limit),
        warning: message_of(pump_limit_error(opts.pump_limit)),
        debug: false,
        pattern: Seq::empty(),
        replacement: Seq::empty(),
        phase: Phase::Start,
        next: 0,
        failed: false,
    }
}

/// The debug line for a file: its path and what became of it.
pub open spec fn trace_line(path: Seq<char>, outcome: Seq<char>) -> Seq<char> {
    "Processing: "@ + path + " => "@ + outcome
}

/// The outcome in the debug line of a file that failed for `cause`.
pub open spec fn failure_outcome(cause: Seq<char>) -> Seq<char> {
    "failed: ("@ + cause + ")"@
}

/// The diagnostic for a file that failed: its path and the cause.
pub open spec fn failure_line(path: Seq<char>, cause: Seq<char>) -> Seq<char> {
    path + ": "@ + cause
}

/// `lines`, and `line` after them where debug messages are shown.
pub open spec fn with_debug(debug: bool, lines: Seq<Seq<char>>, line: Seq<char>) -> Seq<
    Seq<char>,
> {
    if debug {
        lines.push(line)
    } else {
        lines
    }
}

/// An error that came from outside with the message `msg`.
pub open spec fn io_error(msg: Seq<char>) -> CliErrorView {
    CliErrorView { kind: ErrorKind::Io, msg }
}

/// The exit status of a run: 1 if anything failed, else 0.
pub open spec fn exit_status(failed: bool) -> int {
    if failed {
        1
    } else {
        0
    }
}

/// The run ends: it shows `lines` and exits with its status.
pub open spec fn finished(s: CliView, lines: Seq<Seq<char>>) -> (CliView, StepView) {
    (
        CliView { phase: Phase::Done, ..s },
        StepView { diagnostics: lines, action: ActionView::Exit(exit_status(s.failed)) },
    )
}

/// The run ends on `error`: it shows `lines`, and the caller shows the error.
pub open spec fn aborted(s: CliView, lines: Seq<Seq<char>>, error: CliErrorView) -> (
    CliView,
    StepView,
) {
    (
        CliView { phase: Phase::Done, failed: true, ..s },
        StepView { diagnostics: lines, action: ActionView::Abort(error) },
    )
}

/// The run got an event that does not answer what it was waiting for: it
/// says so and exits with status 1.
pub open spec fn derailed(s: CliView) -> (CliView, StepView) {
    (
        CliView { phase: Phase::Done, failed: true, ..s },
        StepView { diagnostics: seq!["unexpected event"@], action: ActionView::Exit(1) },
    )
}

/// The run turns to the file at index `s.next`: it reads it, or ends where no
/// file is left.
pub open spec fn files_step(s: CliView, lines: Seq<Seq<char>>) -> (CliView, StepView) {
    if s.next < s.opts.files.len() {
        (
            CliView { phase: Phase::FileRead, ..s },
            StepView {
                diagnostics: lines,
                action: ActionView::ReadFile(s.opts.files[s.next as int]),
            },
        )
    } else {
        finished(s, lines)
    }
}

/// The current file has failed for `cause`: the run says so and turns to the
/// next file.
pub open spec fn file_failed(s: CliView, lines: Seq<Seq<char>>, cause: Seq<char>) -> (
    CliView,
    StepView,
) {
    files_step(
        CliView { failed: true, next: s.next + 1, ..s },
        lines.push(failure_line(s.opts.files[s.next as int], cause)),
    )
}

/// The read of the current file has ended: its text is substituted and the
/// result goes back to the file or to standard output; a failure is reported
/// and the run turns to the next file.
pub open spec fn file_step(s: CliView, read: Result<Seq<char>, Seq<char>>) -> (CliView, StepView) {
    if s.next >= s.opts.files.len() {
        finished(s, Seq::empty())
    } else {
        let path = s.opts.files[s.next as int];
        match read {
            Ok(text) => match rejection(s.pattern) {
                None => {
                    let content = substituted(s.pattern, s.replacement, text);
                    (
                        CliView { phase: Phase::FileWrite, ..s },
                        StepView {
                            diagnostics: with_debug(
                                s.debug,
                                Seq::empty(),
                                trace_line(path, "replaced"@),
                            ),
                            action: if s.opts.inplace {
                                ActionView::WriteFile { path, content }
                            } else {
                                ActionView::WriteStdout(content)
                            },
                        },
                    )
                },
                Some(cause) => file_failed(
                    s,
                    with_debug(s.debug, Seq::empty(), trace_line(path, "skipped"@)),
                    cause,
                ),
            },
            Err(cause) => file_failed(
                s,
                with_debug(s.debug, Seq::empty(), trace_line(path, failure_outcome(cause))),
                cause,
            ),
        }
    }
}

/// The write for the current file has ended: a failure is reported, and the
/// run turns to the next file.
pub open spec fn file_written(s: CliView, written: Result<(), Seq<char>>) -> (CliView, StepView) {
    if s.next >= s.opts.files.len() {
        finished(s, Seq::empty())
    } else {
        match written {
            Ok(_) => files_step(CliView { next: s.next + 1, ..s }, Seq::empty()),
            Err(cause) => file_failed(s, Seq::empty(), cause),
        }
    }
}

/// The read of standard input has ended: its text is substituted and the
/// result goes to standard output; a failure ends the run.
pub open spec fn stdin_step(s: CliView, read: Result<Seq<char>, Seq<char>>) -> (
    CliView,
    StepView,
) {
    match read {
        Ok(text) => match rejection(s.pattern) {
            None => (
                CliView { phase: Phase::StdoutWrite, ..s },
                StepView {
                    diagnostics: Seq::empty(),
                    action: ActionView::WriteStdout(
                        substituted(s.pattern, s.replacement, text),
                    ),
                },
            ),
            Some(cause) => aborted(s, Seq::empty(), pattern_error(cause)),
        },
        Err(cause) => aborted(s, Seq::empty(), io_error(cause)),
    }
}

/// The last write of the run has ended: a failure ends the run on an error.
pub open spec fn last_written(s: CliView, written: Result<(), Seq<char>>) -> (CliView, StepView) {
    match written {
        Ok(_) => finished(s, Seq::empty()),
        Err(cause) => aborted(s, Seq::empty(), io_error(cause)),
    }
}

/// Pattern and replacement are there: with files the run turns to the first
/// of them, without it reads standard input.
pub open spec fn pattern_step(s: CliView, lines: Seq<Seq<char>>) -> (CliView, StepView) {
    if s.opts.files.len() > 0 {
        files_step(CliView { next: 0, ..s }, lines)
    } else {
        (
            CliView { phase: Phase::StdinRead, ..s },
            StepView {
                diagnostics: with_debug(s.debug, lines, "Reading stdin"@),
                action: ActionView::ReadStdin,
            },
        )
    }
}

/// The replacement is resolved: the run ends on a pattern that the engine
/// rejects, before it touches any input; else it goes on to the inputs.
pub open spec fn replacement_step(s: CliView, lines: Seq<Seq<char>>, replacement: Seq<char>) -> (
    CliView,
    StepView,
) {
    let s = CliView { replacement, ..s };
    match rejection(s.pattern) {
        Some(cause) => aborted(s, lines, pattern_error(cause)),
        None => pattern_step(s, lines),
    }
}

/// The pattern is resolved: in escape mode the run writes the escaped pattern
/// and nothing else; otherwise it resolves the replacement.
pub open spec fn resolved_step(s: CliView, lines: Seq<Seq<char>>, pattern: Seq<char>) -> (
    CliView,
    StepView,
) {
    let s = CliView { pattern, ..s };
    if s.opts.escape {
        (
            CliView { phase: Phase::Escaped, ..s },
            StepView { diagnostics: lines, action: ActionView::WriteStdout(escaped(pattern)) },
        )
    } else {
        match resolution("replacement"@, s.opts.replacement, s.opts.replacement_file) {
            ResolutionView::Value(replacement) => replacement_step(s, lines, replacement),
            ResolutionView::ReadFile(path) => (
                CliView { phase: Phase::ReplacementFile, ..s },
                StepView { diagnostics: lines, action: ActionView::ReadFile(path) },
            ),
            ResolutionView::Failed(error) => aborted(s, lines, error),
        }
    }
}

/// The lines that show a pending warning.
pub open spec fn warning_lines(warning: Option<Seq<char>>) -> Seq<Seq<char>> {
    match warning {
        Some(line) => seq![line],
        None => Seq::empty(),
    }
}

/// The first step: debug messages are switched as the command line says, a
/// pending warning is shown, and the pattern is resolved.
pub open spec fn start_step(s: CliView) -> (CliView, StepView) {
    let lines = warning_lines(s.warning);
    let s = CliView { debug: s.opts.verbose, warning: None, ..s };
    match resolution("pattern"@, s.opts.pattern, s.opts.pattern_file) {
        ResolutionView::Value(pattern) => resolved_step(s, lines, pattern),
        ResolutionView::ReadFile(path) => (
            CliView { phase: Phase::PatternFile, ..s },
            StepView { diagnostics: lines, action: ActionView::ReadFile(path) },
        ),
        ResolutionView::Failed(error) => aborted(s, lines, error),
    }
}

/// The step that a run in state `s` takes on `event`: the state after it, and
/// what the caller has to show and do.
pub open spec fn transition(s: CliView, event: EventView) -> (CliView, StepView) {
    match (s.phase, event) {
        (Phase::Done, _) => finished(s, Seq::empty()),
        (Phase::Start, EventView::Start) => start_step(s),
        (Phase::PatternFile, EventView::Read(Ok(text))) => resolved_step(s, Seq::empty(), text),
        (Phase::PatternFile, EventView::Read(Err(cause))) => aborted(
            s,
            Seq::empty(),
            io_error(cause),
        ),
        (Phase::ReplacementFile, EventView::Read(Ok(text))) => replacement_step(
            s,
            Seq::empty(),
            text,
        ),
        (Phase::ReplacementFile, EventView::Read(Err(cause))) => aborted(
            s,
            Seq::empty(),
            io_error(cause),
        ),
        (Phase::Escaped, EventView::Written(written)) => last_written(s, written),
        (Phase::FileRead, EventView::Read(read)) => file_step(s, read),
        (Phase::FileWrite, EventView::Written(written)) => file_written(s, written),
        (Phase::StdinRead, EventView::Read(read)) => stdin_step(s, read),
        (Phase::StdoutWrite, EventView::Written(written)) => last_written(s, written),
        _ => derailed(s),
    }
}

/// No step forgets a failure.
pub proof fn lemma_failure_is_kept(s: CliView, event: EventView)
    requires
        s.failed,
    ensures
        transition(s, event).0.failed,
{
}

/// A step ends the run exactly when it exits or aborts. The status of an exit
/// is 1 if anything has failed and 0 otherwise, and an abort counts as a
/// failure.
pub proof fn lemma_exit_status(s: CliView, event: EventView)
    ensures
        ({
            let (after, step) = transition(s, event);
            &&& after.phase == Phase::Done <==> step.action is Exit || step.action is Abort
            &&& step.action matches ActionView::Exit(status) ==> status == exit_status(
                after.failed,
            )
            &&& step.action is Abort ==> after.failed
        }),
{
}

/// A file that cannot be read does not stop the run: the failure is reported
/// in a line that names the file and the cause, the run counts as failed, and
/// it goes on with the next file, or exits with status 1 after the last.
pub proof fn lemma_unreadable_file_is_passed(s: CliView, cause: Seq<char>)
    requires
        s.phase == Phase::FileRead,
        s.next < s.opts.files.len(),
    ensures
        ({
            let (after, step) = transition(s, EventView::Read(Err(cause)));
            let files = s.opts.files;
            &&& after.failed
            &&& after.next == s.next + 1
            &&& step.diagnostics == with_debug(
                s.debug,
                Seq::empty(),
                trace_line(files[s.next as int], failure_outcome(cause)),
            ).push(failure_line(files[s.next as int], cause))
            &&& step.action == if s.next + 1 < files.len() {
                ActionView::ReadFile(files[s.next as int + 1])
            } else {
                ActionView::Exit(1)
            }
        }),
{
}

/// A run writes to no file but the one that it has just read, only in place,
/// and what it writes is the substituted text of that file.
pub proof fn lemma_writes_in_place(s: CliView, event: EventView)
    ensures
        transition(s, event).1.action matches ActionView::WriteFile { path, content } ==> {
            &&& s.phase == Phase::FileRead
            &&& s.opts.inplace
            &&& s.next < s.opts.files.len()
            &&& path == s.opts.files[s.next as int]
            &&& event matches EventView::Read(Ok(text))
            &&& content == substituted(s.pattern, s.replacement, text)
        },
{
}

/// A pattern that the engine rejects ends the run as soon as the replacement
/// is resolved, before any input is read.
pub proof fn lemma_rejected_pattern_aborts(s: CliView, lines: Seq<Seq<char>>, replacement: Seq<char>)
    requires
        rejection(s.pattern) is Some,
    ensures
        replacement_step(s, lines, replacement).1.action == ActionView::Abort(
            pattern_error(rejection(s.pattern)->0),
        ),
{
}

/// With pattern and replacement given literally and a pattern that the
/// engine accepts, the first step of a run resolves both, shows a pending
/// warning, switches debug messages as the command line says, and turns to
/// the first file, or to standard input where no file is named.
pub proof fn lemma_start_with_literals(opts: OptsView, pattern: Seq<char>, replacement: Seq<char>)
    requires
        opts.pattern == Some(pattern),
        opts.replacement == Some(replacement),
        !opts.escape,
        rejection(pattern) is None,
    ensures
        ({
            let (s, step) = transition(initial(opts), EventView::Start);
            &&& s == CliView {
                warning: None,
                debug: opts.verbose,
                pattern,
                replacement,
                phase: if opts.files.len() > 0 {
                    Phase::FileRead
                } else {
                    Phase::StdinRead
                },
                ..initial(opts)
            }
            &&& step == if opts.files.len() > 0 {
                StepView {
                    diagnostics: warning_lines(initial(opts).warning),
                    action: ActionView::ReadFile(opts.files[0]),
                }
            } else {
                StepView {
                    diagnostics: with_debug(
                        opts.verbose,
                        warning_lines(initial(opts).warning),
                        "Reading stdin"@,
                    ),
                    action: ActionView::ReadStdin,
                }
            }
        }),
{
}

/// A run in stream mode writes the substituted text of standard input to
/// standard output and exits, and shows no line on the way.
pub proof fn lemma_stream_mode(s: CliView, text: Seq<char>)
    requires
        s.phase == Phase::StdinRead,
        rejection(s.pattern) is None,
    ensures
        ({
            let (read, first) = transition(s, EventView::Read(Ok(text)));
            let (end, second) = transition(read, EventView::Written(Ok(())));
            &&& first == StepView {
                diagnostics: Seq::empty(),
                action: ActionView::WriteStdout(substituted(s.pattern, s.replacement, text)),
            }
            &&& second == StepView {
                diagnostics: Seq::empty(),
                action: ActionView::Exit(exit_status(s.failed)),
            }
            &&& end.phase == Phase::Done
        }),
{
}

/// A run in escape mode writes the escaped pattern and exits: it resolves no
/// replacement, asks the engine nothing about the pattern, and reads no input.
pub proof fn lemma_escape_mode(opts: OptsView, pattern: Seq<char>)
    requires
        opts.pattern == Some(pattern),
        opts.escape,
    ensures
        ({
            let (written, first) = transition(initial(opts), EventView::Start);
            let (end, second) = transition(written, EventView::Written(Ok(())));
            &&& first.action == ActionView::WriteStdout(escaped(pattern))
            &&& second == StepView { diagnostics: Seq::empty(), action: ActionView::Exit(0) }
            &&& end.phase == Phase::Done
        }),
{
}

/// A bound on the number of steps that a run in state `s` can still take.
pub open spec fn steps_left(s: CliView) -> nat {
    let files = s.opts.files.len();
    match s.phase {
        Phase::Start => 2 * files + 5,
        Phase::PatternFile => 2 * files + 4,
        Phase::ReplacementFile => 2 * files + 3,
        Phase::Escaped => 1,
        Phase::FileRead => if s.next < files {
            (2 * (files - s.next)) as nat
        } else {
            1
        },
        Phase::FileWrite => if s.next < files {
            (2 * (files - s.next) - 1) as nat
        } else {
            1
        },
        Phase::StdinRead => 2,
        Phase::StdoutWrite => 1,
        Phase::Done => 0,
    }
}

/// No run goes on for ever: whatever the event, a step of a run that is not
/// over brings its end nearer, and a run that is over stays so.
pub proof fn lemma_every_run_ends(s: CliView, event: EventView)
    ensures
        s.phase != Phase::Done ==> steps_left(transition(s, event).0) < steps_left(s),
        s.phase == Phase::Done ==> transition(s, event).0 == s,
{
}

} // verus!
