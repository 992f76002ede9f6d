use crate::cli::{ActionView, EventView, Phase, StepView};
use crate::transition::{
    exit_status, failure_line, failure_outcome, trace_line, transition, with_debug, CliView,
};
use crate::engine::{rejection, substituted};
use vstd::prelude::*;

verus! {

/// What came of the outside work for one file: of reading it and, where the
/// run asks for a write, of that write.
pub struct FileOutcome {
    pub read: Result<Seq<char>, Seq<char>>,
    pub written: Result<(), Seq<char>>,
}

/// What a run in file mode goes by, from its first file to its last.
pub struct FileMode {
    pub files: Seq<Seq<char>>,
    pub inplace: bool,
    pub debug: bool,
    pub pattern: Seq<char>,
    pub replacement: Seq<char>,
}

/// What the run in state `s` goes by in file mode.
pub open spec fn file_mode(s: CliView) -> FileMode {
    FileMode {
        files: s.opts.files,
        inplace: s.opts.inplace,
        debug: s.debug,
        pattern: s.pattern,
        replacement: s.replacement,
    }
}

/// Why a file with this outcome fails, if it does: it cannot be read, the
/// engine rejects the pattern, or the result cannot be written.
pub open spec fn file_cause(m: FileMode, outcome: FileOutcome) -> Option<Seq<char>> {
    match outcome.read {
        Err(cause) => Some(cause),
        Ok(_) => match rejection(m.pattern) {
            Some(cause) => Some(cause),
            None => match outcome.written {
                Err(cause) => Some(cause),
                Ok(_) => None,
            },
        },
    }
}

/// The write that the file at index `j` leads to, if its text can be read:
/// the substituted text, back to the file in place or else to standard output.
pub open spec fn file_write(m: FileMode, j: int, outcome: FileOutcome) -> Option<ActionView> {
    match outcome.read {
        Ok(text) => if rejection(m.pattern) is None {
            let content = substituted(m.pattern, m.replacement, text);
            Some(
                if m.inplace {
                    ActionView::WriteFile { path: m.files[j], content }
                } else {
                    ActionView::WriteStdout(content)
                },
            )
        } else {
            None
        },
        Err(_) => None,
    }
}

/// The lines that the file at index `j` leads to: its debug line where debug
/// messages are shown, and one line with path and cause if it fails.
pub open spec fn file_lines(m: FileMode, j: int, outcome: FileOutcome) -> Seq<Seq<char>> {
    let trace = match outcome.read {
        Ok(_) => if rejection(m.pattern) is None {
            "replaced"@
        } else {
            "skipped"@
        },
        Err(cause) => failure_outcome(cause),
    };
    let lines = with_debug(m.debug, Seq::empty(), trace_line(m.files[j], trace));
    match file_cause(m, outcome) {
        Some(cause) => lines.push(failure_line(m.files[j], cause)),
        None => lines,
    }
}

/// The lines that the files from index `j` on lead to, file by file.
pub open spec fn expected_lines(m: FileMode, outcomes: Seq<FileOutcome>, j: nat) -> Seq<Seq<char>>
    decreases m.files.len() - j,
{
    if j >= m.files.len() {
        Seq::empty()
    } else {
        file_lines(m, j as int, outcomes[j as int]) + expected_lines(m, outcomes, j + 1)
    }
}

/// The actions that follow the read of the file at index `j`: for each file
/// from there on its write, if it has one, and then the read of the next
/// file; after the last file the exit, with status 1 if `failed` or if any of
/// these files fails.
pub open spec fn expected_actions(
    m: FileMode,
    outcomes: Seq<FileOutcome>,
    j: nat,
    failed: bool,
) -> Seq<ActionView>
    decreases m.files.len() - j,
{
    if j >= m.files.len() {
        seq![ActionView::Exit(exit_status(failed))]
    } else {
        let write = match file_write(m, j as int, outcomes[j as int]) {
            Some(action) => seq![action],
            None => Seq::empty(),
        };
        let read = if j + 1 < m.files.len() {
            seq![ActionView::ReadFile(m.files[j as int + 1])]
        } else {
            Seq::empty()
        };
        write + read + expected_actions(
            m,
            outcomes,
            j + 1,
            failed || file_cause(m, outcomes[j as int]) is Some,
        )
    }
}

/// The steps that a run takes for one file whose read it is waiting for, and
/// the state after them.
pub open spec fn file_steps(s: CliView, outcome: FileOutcome) -> (CliView, Seq<StepView>) {
    let (read, first) = transition(s, EventView::Read(outcome.read));
    if read.phase == Phase::FileWrite {
        let (written, second) = transition(read, EventView::Written(outcome.written));
        (written, seq![first, second])
    } else {
        (read, seq![first])
    }
}

/// The steps that a run takes from the read of its current file to its end,
/// where `outcomes` holds what comes of the outside work for each file, and
/// the state after them. The steps for one file always move the run on by one
/// file (`lemma_file_steps`), so the inner test never fails: it is there to
/// show that the definition ends.
pub open spec fn files_run(s: CliView, outcomes: Seq<FileOutcome>) -> (CliView, Seq<StepView>)
    decreases s.opts.files.len() - s.next,
{
    if s.phase == Phase::FileRead && s.next < s.opts.files.len() {
        let (after, steps) = file_steps(s, outcomes[s.next as int]);
        if after.opts.files.len() - after.next < s.opts.files.len() - s.next {
            let (end, rest) = files_run(after, outcomes);
            (end, steps + rest)
        } else {
            (after, steps)
        }
    } else {
        (s, Seq::empty())
    }
}

/// The actions of `steps`, in order.
pub open spec fn asked(steps: Seq<StepView>) -> Seq<ActionView> {
    steps.map_values(|step: StepView| step.action)
}

/// The lines of `steps`, in order.
pub open spec fn shown(steps: Seq<StepView>) -> Seq<Seq<char>>
    decreases steps.len(),
{
    if steps.len() == 0 {
        Seq::empty()
    } else {
        steps[0].diagnostics + shown(steps.drop_first())
    }
}

/// The lines of two runs of steps, one after the other.
proof fn lemma_shown_add(a: Seq<StepView>, b: Seq<StepView>)
    ensures
        shown(a + b) == shown(a) + shown(b),
    decreases a.len(),
{
    if a.len() > 0 {
        lemma_shown_add(a.drop_first(), b);
        assert((a + b).drop_first() =~= a.drop_first() + b);
    }
}

/// The steps for one file: the file after it is the current one, nothing but
/// position, phase and failure has changed, the run has failed if it had
/// before or if this file fails, and the steps show and ask for what this
/// file leads to.
pub proof fn lemma_file_steps(s: CliView, outcome: FileOutcome)
    requires
        s.phase == Phase::FileRead,
        s.next < s.opts.files.len(),
    ensures
        ({
            let (after, steps) = file_steps(s, outcome);
            let m = file_mode(s);
            let j = s.next as int;
            &&& file_mode(after) == m
            &&& after.next == s.next + 1
            &&& after.failed == (s.failed || file_cause(m, outcome) is Some)
            &&& after.phase == if s.next + 1 < m.files.len() {
                Phase::FileRead
            } else {
                Phase::Done
            }
            &&& shown(steps) == file_lines(m, j, outcome)
            &&& asked(steps) == (match file_write(m, j, outcome) {
                Some(action) => seq![action],
                None => Seq::empty(),
            }) + (if s.next + 1 < m.files.len() {
                seq![ActionView::ReadFile(m.files[j + 1])]
            } else {
                seq![ActionView::Exit(exit_status(after.failed))]
            })
        }),
{
    reveal_with_fuel(shown, 3);
}

/// A run in file mode is a loop over its files. From the read of the current
/// file on, whatever comes of the outside work: the run ends; it asks for the
/// write of each file whose text it could read, then for the read of the next
/// file, in the order of the command line, and at last for the exit; it shows
/// the lines of each file in that order; and the exit status is 1 exactly if
/// the run had failed before or one of these files fails.
pub proof fn lemma_file_mode(s: CliView, outcomes: Seq<FileOutcome>)
    requires
        s.phase == Phase::FileRead,
        s.next < s.opts.files.len(),
        outcomes.len() == s.opts.files.len(),
    ensures
        ({
            let (end, steps) = files_run(s, outcomes);
            let m = file_mode(s);
            &&& end.phase == Phase::Done
            &&& file_mode(end) == m
            &&& asked(steps) == expected_actions(m, outcomes, s.next, s.failed)
            &&& shown(steps) == expected_lines(m, outcomes, s.next)
        }),
    decreases s.opts.files.len() - s.next,
{
    let m = file_mode(s);
    let outcome = outcomes[s.next as int];
    let (after, steps) = file_steps(s, outcome);
    lemma_file_steps(s, outcome);
    if s.next + 1 < m.files.len() {
        lemma_file_mode(after, outcomes);
        let (end, rest) = files_run(after, outcomes);
        lemma_shown_add(steps, rest);
        assert(asked(steps + rest) =~= asked(steps) + asked(rest));
    } else {
        assert(files_run(after, outcomes) == (after, Seq::<StepView>::empty()));
        assert(steps + Seq::<StepView>::empty() =~= steps);
        reveal_with_fuel(expected_actions, 2);
        reveal_with_fuel(expected_lines, 2);
    }
}

} // verus!
