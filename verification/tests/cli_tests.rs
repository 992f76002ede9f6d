use replacer::cli::{Action, Cli, Event, Opts, Resolution, Step};
use replacer::error::{CliError, ErrorKind};

fn opts() -> Opts {
    Opts {
        inplace: false,
        pattern: None,
        pattern_file: None,
        replacement: None,
        replacement_file: None,
        escape: false,
        pump_limit: Some(String::from("1MiB")),
        verbose: false,
        files: Vec::new(),
    }
}

fn text(s: &str) -> Option<String> {
    Some(String::from(s))
}

fn paths(names: &[&str]) -> Vec<String> {
    names.iter().map(|name| String::from(*name)).collect()
}

fn step(diagnostics: &[&str], action: Action) -> Step {
    Step { diagnostics: paths(diagnostics), action }
}

fn read_ok(content: &str) -> Event {
    Event::Read(Ok(String::from(content)))
}

fn read_err(cause: &str) -> Event {
    Event::Read(Err(String::from(cause)))
}

fn write_file(path: &str, content: &str) -> Action {
    Action::WriteFile { path: String::from(path), content: String::from(content) }
}

/// A stand-in for the outside world: named files, standard input, and what
/// was written.
struct World {
    files: Vec<(String, Result<String, String>)>,
    read_only: Vec<String>,
    stdin: Result<String, String>,
    stdout: String,
    stderr: Vec<String>,
    reads: Vec<String>,
}

fn world(files: &[(&str, Result<&str, &str>)]) -> World {
    World {
        files: files
            .iter()
            .map(|(name, content)| {
                (String::from(*name), content.map(String::from).map_err(String::from))
            })
            .collect(),
        read_only: Vec::new(),
        stdin: Ok(String::new()),
        stdout: String::new(),
        stderr: Vec::new(),
        reads: Vec::new(),
    }
}

fn content_of(world: &World, path: &str) -> Result<String, String> {
    for (name, content) in &world.files {
        if name == path {
            return content.clone();
        }
    }
    Err(String::from("No such file or directory (os error 2)"))
}

/// Runs `cli` to its end against `world`; the result is the exit status and
/// the error of an abort.
fn drive(cli: &mut Cli, world: &mut World) -> (i32, Option<CliError>) {
    let mut event = Event::Start;
    for _ in 0..1000 {
        let step = cli.run(event);
        world.stderr.extend(step.diagnostics);
        event = match step.action {
            Action::ReadFile(path) => {
                world.reads.push(path.clone());
                Event::Read(content_of(world, &path))
            }
            Action::ReadStdin => Event::Read(world.stdin.clone()),
            Action::WriteStdout(text) => {
                world.stdout.push_str(&text);
                Event::Written(Ok(()))
            }
            Action::WriteFile { path, content } => {
                if world.read_only.contains(&path) {
                    Event::Written(Err(String::from("Permission denied (os error 13)")))
                } else {
                    for entry in world.files.iter_mut() {
                        if entry.0 == path {
                            entry.1 = Ok(content.clone());
                        }
                    }
                    Event::Written(Ok(()))
                }
            }
            Action::Exit(status) => return (status, None),
            Action::Abort(error) => return (1, Some(error)),
        };
    }
    panic!("the run did not end");
}

#[test]
fn literal_argument_is_the_value() {
    assert_eq!(
        Cli::get_arg_or_file("pattern", Some("a+"), None),
        Resolution::Value(String::from("a+"))
    );
}

#[test]
fn literal_argument_wins_over_the_file() {
    assert_eq!(
        Cli::get_arg_or_file("pattern", Some("a+"), Some("pattern.txt")),
        Resolution::Value(String::from("a+"))
    );
}

#[test]
fn empty_literal_argument_is_a_value() {
    assert_eq!(
        Cli::get_arg_or_file("replacement", Some(""), Some("replacement.txt")),
        Resolution::Value(String::new())
    );
}

#[test]
fn file_argument_asks_for_the_file() {
    assert_eq!(
        Cli::get_arg_or_file("pattern", None, Some("pattern.txt")),
        Resolution::ReadFile(String::from("pattern.txt"))
    );
}

#[test]
fn no_argument_is_a_missing_value() {
    let resolution = Cli::get_arg_or_file("replacement", None, None);
    match resolution {
        Resolution::Failed(error) => {
            assert_eq!(error.kind(), ErrorKind::MissingValue);
            assert_eq!(error.to_string(), "No replacement was supplied");
        }
        other => panic!("unexpected {:?}", other),
    }
}

#[test]
fn new_run_has_the_pump_limit_of_the_command_line() {
    let mut o = opts();
    o.pump_limit = text("2KiB");
    assert_eq!(Cli::new(o).pump_limit(), 2048);
    let mut o = opts();
    o.pump_limit = None;
    assert_eq!(Cli::new(o).pump_limit(), 1048576);
    let mut o = opts();
    o.pump_limit = text("5XB");
    assert_eq!(Cli::new(o).pump_limit(), 1048576);
}

#[test]
fn invalid_pump_limit_is_warned_of_at_the_start() {
    let mut o = opts();
    o.pump_limit = text("5XB");
    o.pattern = text("a");
    o.replacement = text("b");
    let mut cli = Cli::new(o);
    assert_eq!(
        cli.run(Event::Start),
        step(
            &["Warning: Invalid size string (5XB), defaulting to 1MiB"],
            Action::ReadStdin
        )
    );
    assert_eq!(cli.run(read_ok("aa")), step(&[], Action::WriteStdout(String::from("bb"))));
    assert_eq!(cli.run(Event::Written(Ok(()))), step(&[], Action::Exit(0)));
}

#[test]
fn missing_pattern_aborts() {
    let mut o = opts();
    o.replacement = text("b");
    o.files = paths(&["one.txt"]);
    let mut cli = Cli::new(o);
    let first = cli.run(Event::Start);
    assert_eq!(
        first,
        step(&[], Action::Abort(CliError::missing_value("pattern")))
    );
    assert!(cli.is_done());
    assert_eq!(cli.run(Event::Start), step(&[], Action::Exit(1)));
}

#[test]
fn missing_replacement_aborts() {
    let mut o = opts();
    o.pattern = text("a");
    let mut cli = Cli::new(o);
    let mut w = world(&[]);
    let (status, error) = drive(&mut cli, &mut w);
    assert_eq!(status, 1);
    let error = error.unwrap();
    assert_eq!(error.kind(), ErrorKind::MissingValue);
    assert_eq!(error.to_string(), "No replacement was supplied");
    assert_eq!(w.stdout, "");
    assert!(w.stderr.is_empty());
}

#[test]
fn rejected_pattern_aborts_before_any_file_is_touched() {
    let mut o = opts();
    o.pattern = text("(");
    o.replacement = text("b");
    o.inplace = true;
    o.files = paths(&["one.txt", "two.txt"]);
    let mut cli = Cli::new(o);
    let mut w = world(&[("one.txt", Ok("(")), ("two.txt", Ok("("))]);
    let (status, error) = drive(&mut cli, &mut w);
    assert_eq!(status, 1);
    assert_eq!(error.unwrap().kind(), ErrorKind::PatternCompile);
    assert!(w.reads.is_empty());
    assert_eq!(content_of(&w, "one.txt"), Ok(String::from("(")));
}

#[test]
fn stream_mode_substitutes_standard_input() {
    let mut o = opts();
    o.pattern = text("a(b+)c");
    o.replacement = text("${1}");
    let mut cli = Cli::new(o);
    let mut w = world(&[]);
    w.stdin = Ok(String::from("xabbcxaabccx"));
    assert_eq!(drive(&mut cli, &mut w), (0, None));
    assert_eq!(w.stdout, "xbbxabcx");
    assert!(w.stderr.is_empty());
    assert!(cli.is_done());
}

#[test]
fn stream_mode_aborts_when_standard_input_fails() {
    let mut o = opts();
    o.pattern = text("a");
    o.replacement = text("b");
    let mut cli = Cli::new(o);
    assert_eq!(cli.run(Event::Start), step(&[], Action::ReadStdin));
    let error = CliError::new(ErrorKind::Io, String::from("stream did not contain valid UTF-8"));
    assert_eq!(
        cli.run(read_err("stream did not contain valid UTF-8")),
        step(&[], Action::Abort(error))
    );
    assert_eq!(cli.run(Event::Start), step(&[], Action::Exit(1)));
}

#[test]
fn stream_mode_aborts_when_standard_output_fails() {
    let mut o = opts();
    o.pattern = text("a");
    o.replacement = text("b");
    let mut cli = Cli::new(o);
    cli.run(Event::Start);
    cli.run(read_ok("a"));
    let error = CliError::new(ErrorKind::Io, String::from("Broken pipe (os error 32)"));
    assert_eq!(
        cli.run(Event::Written(Err(String::from("Broken pipe (os error 32)")))),
        step(&[], Action::Abort(error))
    );
}

#[test]
fn file_mode_goes_on_after_a_file_that_cannot_be_read() {
    let mut o = opts();
    o.pattern = text("o");
    o.replacement = text("0");
    o.files = paths(&["one.txt", "two.txt", "three.txt"]);
    let mut cli = Cli::new(o);
    let mut w = world(&[
        ("one.txt", Ok("foo\n")),
        ("two.txt", Err("Permission denied (os error 13)")),
        ("three.txt", Ok("boo\n")),
    ]);
    let (status, error) = drive(&mut cli, &mut w);
    assert_eq!(status, 1);
    assert!(error.is_none());
    assert_eq!(w.stdout, "f00\nb00\n");
    assert_eq!(w.reads, paths(&["one.txt", "two.txt", "three.txt"]));
    assert_eq!(w.stderr, paths(&["two.txt: Permission denied (os error 13)"]));
    let about_two = w.stderr.iter().filter(|line| line.contains("two.txt")).count();
    assert_eq!(about_two, 1);
}

#[test]
fn file_mode_step_by_step() {
    let mut o = opts();
    o.pattern = text("o");
    o.replacement = text("0");
    o.files = paths(&["one.txt", "two.txt", "three.txt"]);
    let mut cli = Cli::new(o);
    assert_eq!(cli.run(Event::Start), step(&[], Action::ReadFile(String::from("one.txt"))));
    assert_eq!(cli.run(read_ok("foo")), step(&[], Action::WriteStdout(String::from("f00"))));
    assert_eq!(
        cli.run(Event::Written(Ok(()))),
        step(&[], Action::ReadFile(String::from("two.txt")))
    );
    assert_eq!(
        cli.run(read_err("unreadable")),
        step(&["two.txt: unreadable"], Action::ReadFile(String::from("three.txt")))
    );
    assert_eq!(cli.run(read_ok("boo")), step(&[], Action::WriteStdout(String::from("b00"))));
    assert!(!cli.is_done());
    assert_eq!(cli.run(Event::Written(Ok(()))), step(&[], Action::Exit(1)));
    assert!(cli.is_done());
}

#[test]
fn file_mode_without_failure_exits_with_zero() {
    let mut o = opts();
    o.pattern = text("o");
    o.replacement = text("0");
    o.files = paths(&["one.txt", "two.txt"]);
    let mut cli = Cli::new(o);
    let mut w = world(&[("one.txt", Ok("foo")), ("two.txt", Ok("bar"))]);
    assert_eq!(drive(&mut cli, &mut w), (0, None));
    assert_eq!(w.stdout, "f00bar");
    assert!(w.stderr.is_empty());
    assert_eq!(content_of(&w, "one.txt"), Ok(String::from("foo")));
}

#[test]
fn file_mode_fails_when_the_last_file_cannot_be_read() {
    let mut o = opts();
    o.pattern = text("o");
    o.replacement = text("0");
    o.files = paths(&["one.txt", "gone.txt"]);
    let mut cli = Cli::new(o);
    let mut w = world(&[("one.txt", Ok("foo"))]);
    assert_eq!(drive(&mut cli, &mut w), (1, None));
    assert_eq!(w.stdout, "f00");
    assert_eq!(w.stderr, paths(&["gone.txt: No such file or directory (os error 2)"]));
}

#[test]
fn inplace_mode_writes_each_result_back() {
    let mut o = opts();
    o.pattern = text("o");
    o.replacement = text("0");
    o.inplace = true;
    o.files = paths(&["one.txt", "two.txt"]);
    let mut cli = Cli::new(o);
    let mut w = world(&[("one.txt", Ok("foo")), ("two.txt", Ok("boo"))]);
    assert_eq!(drive(&mut cli, &mut w), (0, None));
    assert_eq!(w.stdout, "");
    assert_eq!(content_of(&w, "one.txt"), Ok(String::from("f00")));
    assert_eq!(content_of(&w, "two.txt"), Ok(String::from("b00")));
}

#[test]
fn inplace_mode_reads_a_file_again_that_is_named_twice() {
    let mut o = opts();
    o.pattern = text("a");
    o.replacement = text("aa");
    o.inplace = true;
    o.files = paths(&["one.txt", "one.txt"]);
    let mut cli = Cli::new(o);
    let mut w = world(&[("one.txt", Ok("a"))]);
    assert_eq!(drive(&mut cli, &mut w), (0, None));
    assert_eq!(content_of(&w, "one.txt"), Ok(String::from("aaaa")));
}

#[test]
fn inplace_mode_goes_on_after_a_file_that_cannot_be_written() {
    let mut o = opts();
    o.pattern = text("o");
    o.replacement = text("0");
    o.inplace = true;
    o.files = paths(&["one.txt", "two.txt"]);
    let mut cli = Cli::new(o);
    let mut w = world(&[("one.txt", Ok("foo")), ("two.txt", Ok("boo"))]);
    w.read_only.push(String::from("one.txt"));
    assert_eq!(drive(&mut cli, &mut w), (1, None));
    assert_eq!(w.stderr, paths(&["one.txt: Permission denied (os error 13)"]));
    assert_eq!(content_of(&w, "one.txt"), Ok(String::from("foo")));
    assert_eq!(content_of(&w, "two.txt"), Ok(String::from("b00")));
}

#[test]
fn inplace_step_names_the_file_that_was_read() {
    let mut o = opts();
    o.pattern = text("o");
    o.replacement = text("0");
    o.inplace = true;
    o.files = paths(&["one.txt"]);
    let mut cli = Cli::new(o);
    cli.run(Event::Start);
    assert_eq!(cli.run(read_ok("foo")), step(&[], write_file("one.txt", "f00")));
    assert_eq!(cli.run(Event::Written(Ok(()))), step(&[], Action::Exit(0)));
}

#[test]
fn pattern_file_is_taken_whole() {
    let mut o = opts();
    o.pattern_file = text("pattern.txt");
    o.replacement = text("-");
    let mut cli = Cli::new(o);
    assert_eq!(
        cli.run(Event::Start),
        step(&[], Action::ReadFile(String::from("pattern.txt")))
    );
    assert_eq!(cli.run(read_ok("b\n")), step(&[], Action::ReadStdin));
    assert_eq!(
        cli.run(read_ok("ab\nabc")),
        step(&[], Action::WriteStdout(String::from("a-abc")))
    );
}

#[test]
fn pattern_file_that_cannot_be_read_aborts() {
    let mut o = opts();
    o.pattern_file = text("pattern.txt");
    o.replacement = text("-");
    o.files = paths(&["one.txt"]);
    let mut cli = Cli::new(o);
    let mut w = world(&[("one.txt", Ok("foo"))]);
    let (status, error) = drive(&mut cli, &mut w);
    assert_eq!(status, 1);
    let error = error.unwrap();
    assert_eq!(error.kind(), ErrorKind::Io);
    assert_eq!(error.to_string(), "No such file or directory (os error 2)");
    assert_eq!(w.reads, paths(&["pattern.txt"]));
}

#[test]
fn replacement_file_is_taken_whole() {
    let mut o = opts();
    o.pattern = text("b");
    o.replacement_file = text("replacement.txt");
    let mut cli = Cli::new(o);
    let mut w = world(&[("replacement.txt", Ok(" x \n"))]);
    w.stdin = Ok(String::from("abc"));
    assert_eq!(drive(&mut cli, &mut w), (0, None));
    assert_eq!(w.stdout, "a x \nc");
}

#[test]
fn replacement_file_that_cannot_be_read_aborts() {
    let mut o = opts();
    o.pattern = text("b");
    o.replacement_file = text("replacement.txt");
    let mut cli = Cli::new(o);
    cli.run(Event::Start);
    let error = CliError::new(ErrorKind::Io, String::from("is a directory"));
    assert_eq!(cli.run(read_err("is a directory")), step(&[], Action::Abort(error)));
}

#[test]
fn literal_pattern_keeps_the_pattern_file_unread() {
    let mut o = opts();
    o.pattern = text("b");
    o.pattern_file = text("pattern.txt");
    o.replacement = text("-");
    o.replacement_file = text("replacement.txt");
    let mut cli = Cli::new(o);
    let mut w = world(&[("pattern.txt", Ok("a")), ("replacement.txt", Ok("+"))]);
    w.stdin = Ok(String::from("abc"));
    assert_eq!(drive(&mut cli, &mut w), (0, None));
    assert!(w.reads.is_empty());
    assert_eq!(w.stdout, "a-c");
}

#[test]
fn escape_mode_prints_the_escaped_pattern_and_nothing_else() {
    let mut o = opts();
    o.pattern = text("a.c(b+)");
    o.escape = true;
    o.inplace = true;
    o.files = paths(&["one.txt"]);
    let mut cli = Cli::new(o);
    let mut w = world(&[("one.txt", Ok("abc"))]);
    assert_eq!(drive(&mut cli, &mut w), (0, None));
    assert_eq!(w.stdout, r"a\.c\(b\+\)");
    assert!(w.reads.is_empty());
    assert_eq!(content_of(&w, "one.txt"), Ok(String::from("abc")));
}

#[test]
fn escape_mode_needs_no_valid_pattern() {
    let mut o = opts();
    o.pattern = text("(");
    o.escape = true;
    let mut cli = Cli::new(o);
    assert_eq!(cli.run(Event::Start), step(&[], Action::WriteStdout(String::from(r"\("))));
    assert_eq!(cli.run(Event::Written(Ok(()))), step(&[], Action::Exit(0)));
}

#[test]
fn escape_mode_reads_the_pattern_file() {
    let mut o = opts();
    o.pattern_file = text("pattern.txt");
    o.escape = true;
    let mut cli = Cli::new(o);
    let mut w = world(&[("pattern.txt", Ok("1+1\n"))]);
    assert_eq!(drive(&mut cli, &mut w), (0, None));
    assert_eq!(w.stdout, "1\\+1\n");
}

#[test]
fn escape_mode_needs_a_pattern() {
    let mut o = opts();
    o.escape = true;
    let mut cli = Cli::new(o);
    let mut w = world(&[]);
    let (status, error) = drive(&mut cli, &mut w);
    assert_eq!(status, 1);
    assert_eq!(error.unwrap().to_string(), "No pattern was supplied");
}

#[test]
fn verbose_run_traces_each_file() {
    let mut o = opts();
    o.pattern = text("o");
    o.replacement = text("0");
    o.verbose = true;
    o.files = paths(&["one.txt", "two.txt", "three.txt"]);
    let mut cli = Cli::new(o);
    let mut w = world(&[("one.txt", Ok("foo")), ("two.txt", Err("unreadable")), ("three.txt", Ok("boo"))]);
    assert_eq!(drive(&mut cli, &mut w), (1, None));
    assert_eq!(
        w.stderr,
        paths(&[
            "Processing: one.txt => replaced",
            "Processing: two.txt => failed: (unreadable)",
            "two.txt: unreadable",
            "Processing: three.txt => replaced",
        ])
    );
}

#[test]
fn verbose_run_traces_standard_input() {
    let mut o = opts();
    o.pattern = text("o");
    o.replacement = text("0");
    o.verbose = true;
    let mut cli = Cli::new(o);
    assert_eq!(cli.run(Event::Start), step(&["Reading stdin"], Action::ReadStdin));
}

#[test]
fn event_that_answers_nothing_ends_the_run() {
    let mut o = opts();
    o.pattern = text("o");
    o.replacement = text("0");
    o.files = paths(&["one.txt"]);
    let mut cli = Cli::new(o);
    assert_eq!(cli.run(Event::Start), step(&[], Action::ReadFile(String::from("one.txt"))));
    assert_eq!(
        cli.run(Event::Written(Ok(()))),
        step(&["unexpected event"], Action::Exit(1))
    );
    assert!(cli.is_done());
    assert_eq!(cli.run(read_ok("foo")), step(&[], Action::Exit(1)));
}

#[test]
fn run_that_is_over_repeats_its_exit() {
    let mut o = opts();
    o.pattern = text("o");
    o.replacement = text("0");
    let mut cli = Cli::new(o);
    cli.run(Event::Start);
    cli.run(read_ok("foo"));
    assert_eq!(cli.run(Event::Written(Ok(()))), step(&[], Action::Exit(0)));
    assert_eq!(cli.run(Event::Written(Ok(()))), step(&[], Action::Exit(0)));
    assert_eq!(cli.run(Event::Start), step(&[], Action::Exit(0)));
}

#[test]
fn run_must_begin_with_the_start() {
    let mut o = opts();
    o.pattern = text("o");
    o.replacement = text("0");
    let mut cli = Cli::new(o);
    assert_eq!(cli.run(read_ok("foo")), step(&["unexpected event"], Action::Exit(1)));
}
