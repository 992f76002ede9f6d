use crate::engine::{escape_pattern, process_text, validate_regex};
use crate::error::{CliError, CliErrorView, ErrorKind};
use crate::logger::{set_debug, Logger};
use crate::size::{parse_size, DEFAULT_PUMP_LIMIT};
use crate::transition::{
    aborted, derailed, failure_line, failure_outcome, file_failed, file_step, file_written,
    files_step, finished, initial, last_written, pattern_step, pump_limit_error, pump_limit_of,
    replacement_step, resolution, resolved_step, start_step, stdin_step, trace_line, transition,
    CliView,
};
use vstd::prelude::*;
use vstd::string::*;

verus! {

/// The values of the command line, as the argument parser found them.
#[derive(Debug, Clone, PartialEq, Eq)]
pub struct Opts {
    /// Write each result back to its file instead of standard output.
    pub inplace: bool,
    /// The pattern, given literally.
    pub pattern: Option<String>,
    /// The path of a file that holds the pattern.
    pub pattern_file: Option<String>,
    /// The replacement, given literally.
    pub replacement: Option<String>,
    /// The path of a file that holds the replacement.
    pub replacement_file: Option<String>,
    /// Print the escaped pattern and do nothing else.
    pub escape: bool,
    /// The capacity of the streaming buffer, as a size string.
    pub pump_limit: Option<String>,
    /// Show debug messages.
    pub verbose: bool,
    /// The files to process; with none, standard input is processed.
    pub files: Vec<String>,
}

/// The mathematical content of [`Opts`].
pub struct OptsView {
    pub inplace: bool,
    pub pattern: Option<Seq<char>>,
    pub pattern_file: Option<Seq<char>>,
    pub replacement: Option<Seq<char>>,
    pub replacement_file: Option<Seq<char>>,
    pub escape: bool,
    pub pump_limit: Option<Seq<char>>,
    pub verbose: bool,
    pub files: Seq<Seq<char>>,
}

impl View for Opts {
    type V = OptsView;

    open spec fn view(&self) -> OptsView {
        OptsView {
            inplace: self.inplace,
            pattern: self.pattern.deep_view(),
            pattern_file: self.pattern_file.deep_view(),
            replacement: self.replacement.deep_view(),
            replacement_file: self.replacement_file.deep_view(),
            escape: self.escape,
            pump_limit: self.pump_limit.deep_view(),
            verbose: self.verbose,
            files: self.files.deep_view(),
        }
    }
}

/// Where the value of an argument comes from.
#[derive(Debug, Clone, PartialEq, Eq)]
pub enum Resolution {
    /// The value itself.
    Value(String),
    /// The value is the whole content of the file at this path.
    ReadFile(String),
    /// There is no value.
    Failed(CliError),
}

/// The mathematical content of a [`Resolution`].
pub enum ResolutionView {
    Value(Seq<char>),
    ReadFile(Seq<char>),
    Failed(CliErrorView),
}

impl View for Resolution {
    type V = ResolutionView;

    open spec fn view(&self) -> ResolutionView {
        match self {
            Resolution::Value(value) => ResolutionView::Value(value@),
            Resolution::ReadFile(path) => ResolutionView::ReadFile(path@),
            Resolution::Failed(error) => ResolutionView::Failed(error@),
        }
    }
}

/// What happened outside since the last step of a run.
#[derive(Debug, PartialEq, Eq)]
pub enum Event {
    /// Nothing yet: the run begins.
    Start,
    /// The read that the last action asked for gave this text, or failed with
    /// this message.
    Read(Result<String, String>),
    /// The write that the last action asked for succeeded, or failed with this
    /// message.
    Written(Result<(), String>),
}

/// The mathematical content of an [`Event`].
pub enum EventView {
    Start,
    Read(Result<Seq<char>, Seq<char>>),
    Written(Result<(), Seq<char>>),
}

impl View for Event {
    type V = EventView;

    open spec fn view(&self) -> EventView {
        match self {
            Event::Start => EventView::Start,
            Event::Read(Ok(text)) => EventView::Read(Ok(text@)),
            Event::Read(Err(msg)) => EventView::Read(Err(msg@)),
            Event::Written(Ok(_)) => EventView::Written(Ok(())),
            Event::Written(Err(msg)) => EventView::Written(Err(msg@)),
        }
    }
}

/// What the caller has to do next.
#[derive(Debug, Clone, PartialEq, Eq)]
pub enum Action {
    /// Read the whole file at this path as text.
    ReadFile(String),
    /// Read standard input to its end as text.
    ReadStdin,
    /// Write this text to standard output.
    WriteStdout(String),
    /// Replace the content of the file at `path` by `content`.
    WriteFile { path: String, content: String },
    /// Stop with this exit status.
    Exit(i32),
    /// Show this error and stop with exit status 1.
    Abort(CliError),
}

/// The mathematical content of an [`Action`].
pub enum ActionView {
    ReadFile(Seq<char>),
    ReadStdin,
    WriteStdout(Seq<char>),
    WriteFile { path: Seq<char>, content: Seq<char> },
    Exit(int),
    Abort(CliErrorView),
}

impl View for Action {
    type V = ActionView;

    open spec fn view(&self) -> ActionView {
        match self {
            Action::ReadFile(path) => ActionView::ReadFile(path@),
            Action::ReadStdin => ActionView::ReadStdin,
            Action::WriteStdout(text) => ActionView::WriteStdout(text@),
            Action::WriteFile { path, content } => ActionView::WriteFile {
                path: path@,
                content: content@,
            },
            Action::Exit(status) => ActionView::Exit(*status as int),
            Action::Abort(error) => ActionView::Abort(error@),
        }
    }
}

/// One step of a run: the lines to show on the error stream, in order, and
/// then the action to perform.
#[derive(Debug, Clone, PartialEq, Eq)]
pub struct Step {
    pub diagnostics: Vec<String>,
    pub action: Action,
}

/// The mathematical content of a [`Step`].
pub struct StepView {
    pub diagnostics: Seq<Seq<char>>,
    pub action: ActionView,
}

impl View for Step {
    type V = StepView;

    open spec fn view(&self) -> StepView {
        StepView { diagnostics: self.diagnostics.deep_view(), action: self.action@ }
    }
}

/// What a run is waiting for.
#[derive(Clone, Copy, Debug, PartialEq, Eq, Structural)]
pub enum Phase {
    /// The start.
    Start,
    /// The content of the pattern file.
    PatternFile,
    /// The content of the replacement file.
    ReplacementFile,
    /// The escaped pattern to be written.
    Escaped,
    /// The content of the current file.
    FileRead,
    /// The result for the current file to be written.
    FileWrite,
    /// The text of standard input.
    StdinRead,
    /// The result for standard input to be written.
    StdoutWrite,
    /// Nothing: the run is over.
    Done,
}

/// One run of the utility: its configuration and how far it has come.
#[derive(Debug)]
pub struct Cli {
    opts: Opts,
    pump_limit: i64,
    warning: Option<String>,
    logger: Logger,
    pattern: String,
    replacement: String,
    phase: Phase,
    next: usize,
    failed: bool,
}

/// The mathematical content of an error that may be there.
pub open spec fn error_view(error: Option<CliError>) -> Option<CliErrorView> {
    match error {
        Some(e) => Some(e@),
        None => None,
    }
}

impl View for Cli {
    type V = CliView;

    closed spec fn view(&self) -> CliView {
        CliView {
            opts: self.opts@,
            pump_limit: self.pump_limit as int,
            warning: self.warning.deep_view(),
            debug: self.logger.enabled(),
            pattern: self.pattern@,
            replacement: self.replacement@,
            phase: self.phase,
            next: self.next as nat,
            failed: self.failed,
        }
    }
}

/// No lines.
fn no_lines() -> (lines: Vec<String>)
    ensures
        lines.deep_view() == Seq::<Seq<char>>::empty(),
{
    let lines: Vec<String> = Vec::new();
    lines
}

/// The debug line for the file at `path` and what became of it.
fn trace_text(path: &str, outcome: &str) -> (line: String)
    ensures
        line@ == trace_line(path@, outcome@),
{
    let mut line = String::from_str("Processing: ");
    line.append(path);
    line.append(" => ");
    line.append(outcome);
    line
}

/// The outcome in the debug line of a file that failed for `cause`.
fn failure_outcome_text(cause: &str) -> (outcome: String)
    ensures
        outcome@ == failure_outcome(cause@),
{
    let mut outcome = String::from_str("failed: (");
    outcome.append(cause);
    outcome.append(")");
    outcome
}

/// The diagnostic for the file at `path` that failed for `cause`.
fn failure_text(path: &str, cause: &str) -> (line: String)
    ensures
        line@ == failure_line(path@, cause@),
{
    let mut line = String::from_str(path);
    line.append(": ");
    line.append(cause);
    line
}

/// The argument as a string slice, if it is there.
fn as_arg(arg: &Option<String>) -> (r: Option<&str>)
    ensures
        r.deep_view() == arg.deep_view(),
{
    match arg {
        Some(value) => Some(value.as_str()),
        None => None,
    }
}

impl Cli {
    /// Decides where the value of the argument `name` comes from. A literal
    /// `arg` is the value as it stands, even if it is empty. Without it the
    /// value is the whole content of the file at `path`, which the caller
    /// reads. With neither, the value is missing.
    pub fn get_arg_or_file(name: &str, arg: Option<&str>, path: Option<&str>) -> (r: Resolution)
        ensures
            r@ == resolution(name@, arg.deep_view(), path.deep_view()),
    {
        match arg {
            Some(value) => Resolution::Value(value.to_owned()),
            None => match path {
                Some(file) => Resolution::ReadFile(file.to_owned()),
                None => Resolution::Failed(CliError::missing_value(name)),
            },
        }
    }

    /// The pump limit that `pump_limit_arg` gives, in bytes. Where the
    /// argument is absent the limit is 1 MiB; where it is not a usable size
    /// the limit is 1 MiB too, and the error holds the warning to show.
    pub fn parse_pump_limit(pump_limit_arg: Option<&str>) -> (r: (i64, Option<CliError>))
        ensures
            r.0 == pump_limit_of(pump_limit_arg.deep_view()),
            error_view(r.1) == pump_limit_error(pump_limit_arg.deep_view()),
    {
        match pump_limit_arg {
            Some(size_str) => match parse_size(size_str) {
                Ok(limit) => (limit, None),
                Err(error) => (DEFAULT_PUMP_LIMIT, Some(error)),
            },
            None => (DEFAULT_PUMP_LIMIT, None),
        }
    }

    /// A run for the command line `opts`, before its first step.
    pub fn new(opts: Opts) -> (cli: Cli)
        ensures
            cli@ == initial(opts@),
    {
        let (pump_limit, error) = Cli::parse_pump_limit(as_arg(&opts.pump_limit));
        let warning = match error {
            Some(e) => Some(e.msg),
            None => None,
        };
        Cli {
            opts,
            pump_limit,
            warning,
            logger: Logger::new(),
            pattern: String::new(),
            replacement: String::new(),
            phase: Phase::Start,
            next: 0,
            failed: false,
        }
    }

    /// The capacity of the streaming buffer in bytes.
    pub fn pump_limit(&self) -> (limit: i64)
        ensures
            limit == self@.pump_limit,
    {
        self.pump_limit
    }

    /// Whether the run is over.
    pub fn is_done(&self) -> (done: bool)
        ensures
            done == (self@.phase == Phase::Done),
    {
        self.phase == Phase::Done
    }

    /// Ends the run with its exit status.
    fn finish(&mut self, lines: Vec<String>) -> (step: Step)
        ensures
            (final(self)@, step@) == finished(old(self)@, lines.deep_view()),
    {
        self.phase = Phase::Done;
        let status: i32 = if self.failed {
            1
        } else {
            0
        };
        Step { diagnostics: lines, action: Action::Exit(status) }
    }

    /// Ends the run on `error`.
    fn abort(&mut self, lines: Vec<String>, error: CliError) -> (step: Step)
        ensures
            (final(self)@, step@) == aborted(old(self)@, lines.deep_view(), error@),
    {
        self.phase = Phase::Done;
        self.failed = true;
        Step { diagnostics: lines, action: Action::Abort(error) }
    }

    /// Ends the run on an event that does not answer what it was waiting for.
    fn derail(&mut self) -> (step: Step)
        ensures
            (final(self)@, step@) == derailed(old(self)@),
    {
        self.phase = Phase::Done;
        self.failed = true;
        let mut lines = no_lines();
        self.logger.info(&mut lines, String::from_str("unexpected event"));
        Step { diagnostics: lines, action: Action::Exit(1) }
    }

    /// Turns to the current file, or ends the run where no file is left.
    fn process_files(&mut self, lines: Vec<String>) -> (step: Step)
        ensures
            (final(self)@, step@) == files_step(old(self)@, lines.deep_view()),
    {
        if self.next < self.opts.files.len() {
            self.phase = Phase::FileRead;
            let path = self.opts.files[self.next].clone();
            Step { diagnostics: lines, action: Action::ReadFile(path) }
        } else {
            self.finish(lines)
        }
    }

    /// Reports that the current file failed for `cause` and turns to the next.
    fn fail_file(&mut self, lines: Vec<String>, cause: &str) -> (step: Step)
        requires
            old(self)@.next < old(self)@.opts.files.len(),
        ensures
            (final(self)@, step@) == file_failed(old(self)@, lines.deep_view(), cause@),
    {
        let mut lines = lines;
        let line = failure_text(self.opts.files[self.next].as_str(), cause);
        self.logger.info(&mut lines, line);
        self.failed = true;
        assert(self.opts.files@.len() == self.opts.files.len());
        self.next = self.next + 1;
        self.process_files(lines)
    }

    /// Takes the outcome of reading the current file: substitutes in its text
    /// and asks for the result to be written, or reports the failure and turns
    /// to the next file.
    fn process_file(&mut self, read: Result<String, String>) -> (step: Step)
        ensures
            (final(self)@, step@) == file_step(
                old(self)@,
                match read {
                    Ok(text) => Ok(text@),
                    Err(cause) => Err(cause@),
                },
            ),
    {
        let mut lines = no_lines();
        if self.next >= self.opts.files.len() {
            return self.finish(lines);
        }
        let path = self.opts.files[self.next].clone();
        match read {
            Ok(text) => match process_text(
                self.pattern.as_str(),
                self.replacement.as_str(),
                text.as_str(),
            ) {
                Ok(content) => {
                    self.logger.debug(&mut lines, trace_text(path.as_str(), "replaced"));
                    self.phase = Phase::FileWrite;
                    let action = if self.opts.inplace {
                        Action::WriteFile { path, content }
                    } else {
                        Action::WriteStdout(content)
                    };
                    Step { diagnostics: lines, action }
                },
                Err(error) => {
                    self.logger.debug(&mut lines, trace_text(path.as_str(), "skipped"));
                    self.fail_file(lines, error.message())
                },
            },
            Err(cause) => {
                let outcome = failure_outcome_text(cause.as_str());
                self.logger.debug(&mut lines, trace_text(path.as_str(), outcome.as_str()));
                self.fail_file(lines, cause.as_str())
            },
        }
    }

    /// Takes the outcome of writing the result for the current file and turns
    /// to the next file.
    fn file_written(&mut self, written: Result<(), String>) -> (step: Step)
        ensures
            (final(self)@, step@) == file_written(
                old(self)@,
                match written {
                    Ok(_) => Ok(()),
                    Err(cause) => Err(cause@),
                },
            ),
    {
        let lines = no_lines();
        if self.next >= self.opts.files.len() {
            return self.finish(lines);
        }
        match written {
            Ok(_) => {
                self.next = self.next + 1;
                self.process_files(lines)
            },
            Err(cause) => self.fail_file(lines, cause.as_str()),
        }
    }

    /// Takes the outcome of reading standard input: substitutes in its text
    /// and asks for the result to be written, or ends the run on the failure.
    fn process_stdin(&mut self, read: Result<String, String>) -> (step: Step)
        ensures
            (final(self)@, step@) == stdin_step(
                old(self)@,
                match read {
                    Ok(text) => Ok(text@),
                    Err(cause) => Err(cause@),
                },
            ),
    {
        let lines = no_lines();
        match read {
            Ok(text) => match process_text(
                self.pattern.as_str(),
                self.replacement.as_str(),
                text.as_str(),
            ) {
                Ok(content) => {
                    self.phase = Phase::StdoutWrite;
                    Step { diagnostics: lines, action: Action::WriteStdout(content) }
                },
                Err(error) => self.abort(lines, error),
            },
            Err(cause) => self.abort(lines, CliError::new(ErrorKind::Io, cause)),
        }
    }

    /// Takes the outcome of the last write of the run.
    fn last_written(&mut self, written: Result<(), String>) -> (step: Step)
        ensures
            (final(self)@, step@) == last_written(
                old(self)@,
                match written {
                    Ok(_) => Ok(()),
                    Err(cause) => Err(cause@),
                },
            ),
    {
        let lines = no_lines();
        match written {
            Ok(_) => self.finish(lines),
            Err(cause) => self.abort(lines, CliError::new(ErrorKind::Io, cause)),
        }
    }

    /// Chooses between the files of the command line and standard input.
    fn process_pattern(&mut self, lines: Vec<String>) -> (step: Step)
        ensures
            (final(self)@, step@) == pattern_step(old(self)@, lines.deep_view()),
    {
        if self.opts.files.len() > 0 {
            self.next = 0;
            self.process_files(lines)
        } else {
            let mut lines = lines;
            self.logger.debug(&mut lines, String::from_str("Reading stdin"));
            self.phase = Phase::StdinRead;
            Step { diagnostics: lines, action: Action::ReadStdin }
        }
    }

    /// Takes the resolved replacement and asks the engine whether it accepts
    /// the pattern, before any input is touched.
    fn with_replacement(&mut self, lines: Vec<String>, replacement: String) -> (step: Step)
        ensures
            (final(self)@, step@) == replacement_step(
                old(self)@,
                lines.deep_view(),
                replacement@,
            ),
    {
        self.replacement = replacement;
        match validate_regex(self.pattern.as_str()) {
            Ok(_) => self.process_pattern(lines),
            Err(error) => self.abort(lines, error),
        }
    }

    /// Takes the resolved pattern: escapes it in escape mode, else resolves
    /// the replacement.
    fn with_pattern(&mut self, lines: Vec<String>, pattern: String) -> (step: Step)
        ensures
            (final(self)@, step@) == resolved_step(old(self)@, lines.deep_view(), pattern@),
    {
        self.pattern = pattern;
        if self.opts.escape {
            self.phase = Phase::Escaped;
            let text = escape_pattern(self.pattern.as_str());
            Step { diagnostics: lines, action: Action::WriteStdout(text) }
        } else {
            let source = Cli::get_arg_or_file(
                "replacement",
                as_arg(&self.opts.replacement),
                as_arg(&self.opts.replacement_file),
            );
            match source {
                Resolution::Value(replacement) => self.with_replacement(lines, replacement),
                Resolution::ReadFile(path) => {
                    self.phase = Phase::ReplacementFile;
                    Step { diagnostics: lines, action: Action::ReadFile(path) }
                },
                Resolution::Failed(error) => self.abort(lines, error),
            }
        }
    }

    /// Begins the run.
    fn start(&mut self) -> (step: Step)
        ensures
            (final(self)@, step@) == start_step(old(self)@),
    {
        let mut lines = no_lines();
        match self.warning.take() {
            Some(warning) => {
                self.logger.info(&mut lines, warning);
            },
            None => {},
        }
        set_debug(&mut self.logger, self.opts.verbose);
        let source = Cli::get_arg_or_file(
            "pattern",
            as_arg(&self.opts.pattern),
            as_arg(&self.opts.pattern_file),
        );
        match source {
            Resolution::Value(pattern) => self.with_pattern(lines, pattern),
            Resolution::ReadFile(path) => {
                self.phase = Phase::PatternFile;
                Step { diagnostics: lines, action: Action::ReadFile(path) }
            },
            Resolution::Failed(error) => self.abort(lines, error),
        }
    }

    /// Takes one step of the run. `event` says what came of the action of the
    /// step before, `Event::Start` at the beginning. The result holds the
    /// lines to show on the error stream and the action to perform next; the
    /// outcome of that action is the event of the next step. An event that
    /// does not answer the last action ends the run with exit status 1, and
    /// after the end every step repeats the exit.
    pub fn run(&mut self, event: Event) -> (step: Step)
        ensures
            (final(self)@, step@) == transition(old(self)@, event@),
    {
        match self.phase {
            Phase::Done => {
                let lines = no_lines();
                self.finish(lines)
            },
            Phase::Start => match event {
                Event::Start => self.start(),
                _ => self.derail(),
            },
            Phase::PatternFile => match event {
                Event::Read(Ok(text)) => {
                    let lines = no_lines();
                    self.with_pattern(lines, text)
                },
                Event::Read(Err(cause)) => {
                    let lines = no_lines();
                    self.abort(lines, CliError::new(ErrorKind::Io, cause))
                },
                _ => self.derail(),
            },
            Phase::ReplacementFile => match event {
                Event::Read(Ok(text)) => {
                    let lines = no_lines();
                    self.with_replacement(lines, text)
                },
                Event::Read(Err(cause)) => {
                    let lines = no_lines();
                    self.abort(lines, CliError::new(ErrorKind::Io, cause))
                },
                _ => self.derail(),
            },
            Phase::Escaped => match event {
                Event::Written(written) => self.last_written(written),
                _ => self.derail(),
            },
            Phase::FileRead => match event {
                Event::Read(read) => self.process_file(read),
                _ => self.derail(),
            },
            Phase::FileWrite => match event {
                Event::Written(written) => self.file_written(written),
                _ => self.derail(),
            },
            Phase::StdinRead => match event {
                Event::Read(read) => self.process_stdin(read),
                _ => self.derail(),
            },
            Phase::StdoutWrite => match event {
                Event::Written(written) => self.last_written(written),
                _ => self.derail(),
            },
        }
    }
}

} // verus!
