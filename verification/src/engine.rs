use crate::error::{CliError, CliErrorView, ErrorKind};
use regex::Regex;
use std::borrow::Cow;
use vstd::prelude::*;
use vstd::string::*;

verus! {

/// A compiled regular expression of the `regex` crate. Nothing of its inside
/// is known here: it is carried from where it is compiled to where it is used.
#[verifier::external_type_specification]
#[verifier::external_body]
pub struct ExRegex(regex::Regex);

/// The pattern text that a compiled expression was built from: what
/// `regex::Regex::as_str` returns for it.
pub uninterp spec fn pattern_of(re: Regex) -> Seq<char>;

/// What `regex::Regex::new` says of a pattern: `None` where it compiles the
/// pattern, else the text of the error it returns. The engine rejects a pattern
/// that breaks its grammar, and one whose compiled form is larger than its
/// fixed limit; nothing else bears on the outcome.
pub uninterp spec fn rejection(pattern: Seq<char>) -> Option<Seq<char>>;

/// Whether the expression compiled from `pattern` matches anywhere in `text`,
/// as the search behind `regex::Regex::replace_all` finds it.
pub uninterp spec fn has_match(pattern: Seq<char>, text: Seq<char>) -> bool;

/// The text that `regex::Regex::replace_all` builds where there is a match:
/// `text` with every non-overlapping match of the expression compiled from
/// `pattern` replaced by the expansion of `replacement`.
pub uninterp spec fn replaced(pattern: Seq<char>, replacement: Seq<char>, text: Seq<char>) -> Seq<
    char,
>;

/// Calls `regex::Regex::new`. The outcome depends on the pattern alone: the
/// compiled expression, which remembers the pattern it came from, or the text
/// of the engine's error.
#[verifier::external_body]
fn compile(pattern: &str) -> (r: Result<Regex, String>)
    ensures
        match r {
            Ok(re) => rejection(pattern@) is None && pattern_of(re) == pattern@,
            Err(msg) => rejection(pattern@) == Some(msg@),
        },
{
    match Regex::new(pattern) {
        Ok(re) => Ok(re),
        Err(error) => Err(error.to_string()),
    }
}

/// Calls `regex::Regex::replace_all` with a replacement string. The engine
/// hands the text back borrowed exactly when its search finds no match, which
/// is `None` here; otherwise it builds a new text, which is `Some`.
#[verifier::external_body]
fn replace_all(re: &Regex, text: &str, replacement: &str) -> (out: Option<String>)
    ensures
        out is Some <==> has_match(pattern_of(*re), text@),
        out matches Some(s) ==> s@ == replaced(pattern_of(*re), replacement@, text@),
{
    match re.replace_all(text, replacement) {
        Cow::Borrowed(_) => None,
        Cow::Owned(s) => Some(s),
    }
}

/// The characters that have a meaning of their own in a pattern.
pub open spec fn is_meta_character(c: char) -> bool {
    c == '\\' || c == '.' || c == '+' || c == '*' || c == '?' || c == '(' || c == ')' || c == '|'
        || c == '[' || c == ']' || c == '{' || c == '}' || c == '^' || c == '$' || c == '#' || c
        == '&' || c == '-' || c == '~'
}

/// `pattern` with a backslash put before each of its meta characters.
pub open spec fn escaped(pattern: Seq<char>) -> Seq<char>
    decreases pattern.len(),
{
    if pattern.len() == 0 {
        Seq::empty()
    } else if is_meta_character(pattern[0]) {
        seq!['\\', pattern[0]] + escaped(pattern.drop_first())
    } else {
        seq![pattern[0]] + escaped(pattern.drop_first())
    }
}

/// Calls `regex::escape`, which copies the pattern character by character and
/// puts a backslash before each meta character.
#[verifier::external_body]
fn escape(pattern: &str) -> (out: String)
    ensures
        out@ == escaped(pattern@),
{
    regex::escape(pattern)
}

/// The result of substituting `replacement` for every match of `pattern` in
/// `text`: the text itself where nothing matches.
pub open spec fn substituted(pattern: Seq<char>, replacement: Seq<char>, text: Seq<char>) -> Seq<
    char,
> {
    if has_match(pattern, text) {
        replaced(pattern, replacement, text)
    } else {
        text
    }
}

/// The error for a pattern that the engine rejects with the diagnostic `msg`.
pub open spec fn pattern_error(msg: Seq<char>) -> CliErrorView {
    CliErrorView { kind: ErrorKind::PatternCompile, msg }
}

/// Asks the engine whether it accepts `pattern`, without using the pattern.
pub fn validate_regex(pattern: &str) -> (r: Result<(), CliError>)
    ensures
        match r {
            Ok(_) => rejection(pattern@) is None,
            Err(e) => rejection(pattern@) matches Some(msg) && e@ == pattern_error(msg),
        },
{
    match compile(pattern) {
        Ok(_) => Ok(()),
        Err(msg) => Err(CliError::new(ErrorKind::PatternCompile, msg)),
    }
}

/// Compiles `pattern` once and substitutes `replacement` for all of its
/// non-overlapping matches in `text`. A pattern that the engine rejects is a
/// `PatternCompile` error that carries the engine's diagnostic.
pub fn process_text(pattern: &str, replacement: &str, text: &str) -> (r: Result<String, CliError>)
    ensures
        match r {
            Ok(out) => rejection(pattern@) is None && out@ == substituted(
                pattern@,
                replacement@,
                text@,
            ),
            Err(e) => rejection(pattern@) matches Some(msg) && e@ == pattern_error(msg),
        },
{
    match compile(pattern) {
        Ok(re) => match replace_all(&re, text, replacement) {
            Some(out) => Ok(out),
            None => Ok(text.to_owned()),
        },
        Err(msg) => Err(CliError::new(ErrorKind::PatternCompile, msg)),
    }
}

/// `pattern` with every meta character escaped, so that the result can stand
/// in a pattern as a literal.
pub fn escape_pattern(pattern: &str) -> (out: String)
    ensures
        out@ == escaped(pattern@),
{
    escape(pattern)
}

/// Whether `s` is made of plain characters and of meta characters that each
/// stand behind a backslash of their own.
pub open spec fn is_literal_pattern(s: Seq<char>) -> bool
    decreases s.len(),
{
    if s.len() == 0 {
        true
    } else if s[0] == '\\' {
        s.len() >= 2 && is_meta_character(s[1]) && is_literal_pattern(s.skip(2))
    } else {
        !is_meta_character(s[0]) && is_literal_pattern(s.drop_first())
    }
}

/// `s` without the backslash before each escaped character.
pub open spec fn unescaped(s: Seq<char>) -> Seq<char>
    decreases s.len(),
{
    if s.len() == 0 {
        Seq::empty()
    } else if s[0] == '\\' && s.len() >= 2 {
        seq![s[1]] + unescaped(s.skip(2))
    } else {
        seq![s[0]] + unescaped(s.drop_first())
    }
}

/// In an escaped pattern no meta character stands for anything but itself:
/// each one is behind a backslash of its own, and taking those backslashes
/// away gives the pattern back.
pub proof fn lemma_escaped_is_literal(pattern: Seq<char>)
    ensures
        is_literal_pattern(escaped(pattern)),
        unescaped(escaped(pattern)) == pattern,
    decreases pattern.len(),
{
    if pattern.len() > 0 {
        let rest = pattern.drop_first();
        lemma_escaped_is_literal(rest);
        let e = escaped(pattern);
        if is_meta_character(pattern[0]) {
            assert(e.skip(2) =~= escaped(rest));
        } else {
            assert(e.drop_first() =~= escaped(rest));
        }
    }
}

/// Escaping leaves a pattern without meta characters as it is.
pub proof fn lemma_escaped_plain(pattern: Seq<char>)
    requires
        forall|i: int| 0 <= i < pattern.len() ==> !is_meta_character(#[trigger] pattern[i]),
    ensures
        escaped(pattern) == pattern,
    decreases pattern.len(),
{
    if pattern.len() > 0 {
        let rest = pattern.drop_first();
        assert forall|i: int| 0 <= i < rest.len() implies !is_meta_character(
            #[trigger] rest[i],
        ) by {
            assert(rest[i] == pattern[i + 1]);
        }
        lemma_escaped_plain(rest);
    }
}

/// Substitution leaves a text without any match as it is.
pub proof fn lemma_no_match_unchanged(pattern: Seq<char>, replacement: Seq<char>, text: Seq<char>)
    requires
        !has_match(pattern, text),
    ensures
        substituted(pattern, replacement, text) == text,
{
}

} // verus!
